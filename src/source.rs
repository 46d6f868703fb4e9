use vstd::prelude::*;
use vstd::string::StringExecFns;

verus! {

/// What std's `Path::extension` gives for the path `path`: the text after
/// the last `.` of its file name, when there is one.
pub uninterp spec fn extension_of(path: Seq<char>) -> Option<Seq<char>>;

/// Relies on std's `Path::extension` to find the extension of a path's file
/// name; a path given as `&str` has a UTF-8 extension.
#[verifier::external_body]
fn path_extension(path: &str) -> (r: Option<String>)
    ensures
        match r {
            Some(e) => extension_of(path@) == Some(e@),
            None => extension_of(path@) is None,
        },
{
    match std::path::Path::new(path).extension() {
        Some(ext) => match ext.to_str() {
            Some(text) => Some(text.to_string()),
            None => None,
        },
        None => None,
    }
}

/// The extension of the log files that are read.
pub open spec fn source_extension() -> Seq<char> {
    seq!['e', 'v', 't', 'x']
}

/// Whether a directory entry is a log file to read.
pub open spec fn is_source_path(path: Seq<char>) -> bool {
    extension_of(path) == Some(source_extension())
}

/// The paths among `paths` that are log files to read, in their order.
pub open spec fn source_paths(paths: Seq<Seq<char>>) -> Seq<Seq<char>>
    decreases paths.len(),
{
    if paths.len() == 0 {
        Seq::empty()
    } else {
        let rest = source_paths(paths.drop_last());
        if is_source_path(paths.last()) {
            rest.push(paths.last())
        } else {
            rest
        }
    }
}

/// Keeps, of the entries of an input directory, those whose extension is
/// `evtx`; every other entry is ignored.
pub fn select_source_files(paths: &Vec<String>) -> (r: Vec<String>)
    ensures
        r@.map_values(|s: String| s@) == source_paths(paths@.map_values(|s: String| s@)),
{
    proof {
        reveal_strlit("evtx");
    }
    let wanted = String::from_str("evtx");
    assert(wanted@ == source_extension());
    let ghost all = paths@.map_values(|s: String| s@);
    let mut out: Vec<String> = Vec::new();
    let mut i: usize = 0;
    while i < paths.len()
        invariant
            i <= paths@.len(),
            wanted@ == source_extension(),
            all == paths@.map_values(|s: String| s@),
            out@.map_values(|s: String| s@) == source_paths(all.subrange(0, i as int)),
        decreases paths@.len() - i,
    {
        let ghost prefix = all.subrange(0, i + 1);
        assert(prefix.drop_last() =~= all.subrange(0, i as int));
        assert(prefix.last() == paths@[i as int]@);
        let keep = match path_extension(paths[i].as_str()) {
            Some(ext) => ext == wanted,
            None => false,
        };
        if keep {
            out.push(paths[i].clone());
            assert(out@.map_values(|s: String| s@) =~= source_paths(prefix));
        }
        i = i + 1;
    }
    assert(all.subrange(0, paths@.len() as int) =~= all);
    out
}

} // verus!
