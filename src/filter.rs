use vstd::prelude::*;
use vstd::seq_lib::lemma_multiset_commutative;

use crate::event::{
    actor_matches, actor_matches_spec, get_time_created, is_wanted_event_id, target_user_name, time_created, wanted_ids, Event,
};
use crate::time::{date_start, in_date_range, in_range_spec, parse_date, Timestamp};

verus! {

/// The filters of one run: an allow-list of actor names (empty: no actor
/// filtering) and an optional inclusive time window.
#[derive(Clone, Debug)]
pub struct FilterConfig {
    pub owned_users: Vec<String>,
    pub start: Option<Timestamp>,
    pub end: Option<Timestamp>,
}

/// A boundary date that is not of the form `YYYY-MM-DD`.
#[derive(Clone, Copy, Debug, PartialEq, Eq, Structural)]
pub enum ConfigError {
    InvalidStartDate,
    InvalidEndDate,
}

/// The bound given by an optional boundary date; `None` inside when the date
/// does not parse.
pub open spec fn bound_of(date: Option<&str>) -> Option<Option<Timestamp>> {
    match date {
        Some(d) => match date_start(d@) {
            Some(t) => Some(Some(t)),
            None => None,
        },
        None => Some(None),
    }
}

impl FilterConfig {
    /// Builds the filters from an allow-list and optional boundary dates,
    /// rejecting a date that does not parse (the start date first).
    pub fn new(owned_users: Vec<String>, start_date: Option<&str>, end_date: Option<&str>) -> (r: Result<FilterConfig, ConfigError>)
        ensures
            bound_of(start_date) is None ==> r == Err::<FilterConfig, ConfigError>(ConfigError::InvalidStartDate),
            bound_of(start_date) is Some && bound_of(end_date) is None
                ==> r == Err::<FilterConfig, ConfigError>(ConfigError::InvalidEndDate),
            bound_of(start_date) is Some && bound_of(end_date) is Some ==> (r matches Ok(c) && c.owned_users@
                == owned_users@ && Some(c.start) == bound_of(start_date) && Some(c.end) == bound_of(end_date)),
    {
        let start = match start_date {
            Some(d) => match parse_date(d) {
                Some(t) => Some(t),
                None => return Err(ConfigError::InvalidStartDate),
            },
            None => None,
        };
        let end = match end_date {
            Some(d) => match parse_date(d) {
                Some(t) => Some(t),
                None => return Err(ConfigError::InvalidEndDate),
            },
            None => None,
        };
        Ok(FilterConfig { owned_users, start, end })
    }
}

/// Whether a time window is asked for at all.
pub open spec fn has_time_bound(config: FilterConfig) -> bool {
    config.start is Some || config.end is Some
}

/// The full predicate set on a record's deserialized form (`None`: it did not
/// deserialize): a kept category, then the time window, then the actor filter.
/// Without a window the creation time is not looked at.
pub open spec fn matches_spec(event: Option<Event>, config: FilterConfig) -> bool {
    match event {
        None => false,
        Some(e) => wanted_ids().contains(e.event_id) && (!has_time_bound(config) || match time_created(e) {
            Some(t) => in_range_spec(t, config.start, config.end),
            None => false,
        }) && actor_matches_spec(e, config.owned_users@),
    }
}

/// Applies the category, time and actor filters, in that order, to one
/// record's deserialized form.
pub fn record_matches(event: &Option<Event>, config: &FilterConfig) -> (r: bool)
    ensures
        r == matches_spec(*event, *config),
{
    let e = match event {
        Some(e) => e,
        None => return false,
    };
    if !is_wanted_event_id(e.event_id) {
        return false;
    }
    if config.start.is_some() || config.end.is_some() {
        match get_time_created(e) {
            Some(t) => {
                if !in_date_range(&t, config.start, config.end) {
                    return false;
                }
            },
            None => return false,
        }
    }
    actor_matches(e, &config.owned_users)
}

/// One decoded record: its full serialized payload, written out on a match,
/// and the fields read from it (`None` when the payload did not deserialize).
#[derive(Clone, Debug)]
pub struct Record {
    pub payload: String,
    pub event: Option<Event>,
}

/// Whether one decode result is emitted: it decoded, and it matches.
pub open spec fn emitted(item: Result<Record, String>, config: FilterConfig) -> bool {
    match item {
        Ok(rec) => matches_spec(rec.event, config),
        Err(_) => false,
    }
}

/// The lines emitted for a sequence of decode results (`Err`: a record that
/// could not be decoded), in the order of the records.
pub open spec fn selected_lines(items: Seq<Result<Record, String>>, config: FilterConfig) -> Seq<Seq<char>>
    decreases items.len(),
{
    if items.len() == 0 {
        Seq::empty()
    } else {
        let rest = selected_lines(items.drop_last(), config);
        match items.last() {
            Ok(rec) => if matches_spec(rec.event, config) {
                rest.push(rec.payload@)
            } else {
                rest
            },
            Err(_) => rest,
        }
    }
}

/// Consumes the decode results of one source file: records that failed to
/// decode or to deserialize are skipped, the payloads of matching ones are
/// returned in order.
pub fn select_matches(items: &Vec<Result<Record, String>>, config: &FilterConfig) -> (r: Vec<String>)
    ensures
        r@.map_values(|s: String| s@) == selected_lines(items@, *config),
{
    let mut out: Vec<String> = Vec::new();
    let mut i: usize = 0;
    while i < items.len()
        invariant
            i <= items@.len(),
            out@.map_values(|s: String| s@) == selected_lines(items@.subrange(0, i as int), *config),
        decreases items@.len() - i,
    {
        let ghost prefix = items@.subrange(0, i + 1);
        assert(prefix.drop_last() =~= items@.subrange(0, i as int));
        match &items[i] {
            Ok(rec) => {
                if record_matches(&rec.event, config) {
                    out.push(rec.payload.clone());
                    assert(out@.map_values(|s: String| s@) =~= selected_lines(prefix, *config));
                }
            },
            Err(_) => {},
        }
        i = i + 1;
    }
    assert(items@.subrange(0, items@.len() as int) =~= items@);
    out
}

/// The lines of a concatenation of record streams are the lines of the first
/// followed by the lines of the second.
pub proof fn lemma_selected_concat(a: Seq<Result<Record, String>>, b: Seq<Result<Record, String>>, config: FilterConfig)
    ensures
        selected_lines(a + b, config) == selected_lines(a, config) + selected_lines(b, config),
    decreases b.len(),
{
    if b.len() == 0 {
        assert(a + b =~= a);
        assert(selected_lines(a, config) + selected_lines(b, config) =~= selected_lines(a, config));
    } else {
        lemma_selected_concat(a, b.drop_last(), config);
        assert((a + b).drop_last() =~= a + b.drop_last());
        assert((a + b).last() == b.last());
        let la = selected_lines(a, config);
        let lb = selected_lines(b.drop_last(), config);
        match b.last() {
            Ok(rec) => if matches_spec(rec.event, config) {
                assert((la + lb).push(rec.payload@) =~= la + lb.push(rec.payload@));
            },
            Err(_) => {},
        }
    }
}

/// Running the filters again on the same records, split into two parts that
/// are processed in either order, emits the same multiset of lines as one run
/// over the whole: the output does not depend on the order in which workers
/// finish.
pub proof fn lemma_same_lines_any_order(a: Seq<Result<Record, String>>, b: Seq<Result<Record, String>>, config: FilterConfig)
    ensures
        (selected_lines(b, config) + selected_lines(a, config)).to_multiset()
            == selected_lines(a + b, config).to_multiset(),
        selected_lines(b + a, config).to_multiset() == selected_lines(a + b, config).to_multiset(),
{
    lemma_selected_concat(a, b, config);
    lemma_selected_concat(b, a, config);
    let la = selected_lines(a, config);
    let lb = selected_lines(b, config);
    lemma_multiset_commutative(la, lb);
    lemma_multiset_commutative(lb, la);
    assert(la.to_multiset().add(lb.to_multiset()) =~= lb.to_multiset().add(la.to_multiset()));
}

/// A record that failed to decode, or whose payload did not deserialize,
/// anywhere among well-formed ones changes nothing of what they emit.
pub proof fn lemma_malformed_skipped(
    a: Seq<Result<Record, String>>,
    bad: Result<Record, String>,
    b: Seq<Result<Record, String>>,
    config: FilterConfig,
)
    requires
        match bad {
            Ok(rec) => rec.event is None,
            Err(_) => true,
        },
    ensures
        selected_lines(a + seq![bad] + b, config) == selected_lines(a + b, config),
{
    lemma_selected_concat(a + seq![bad], b, config);
    lemma_selected_concat(a, seq![bad], config);
    lemma_selected_concat(a, b, config);
    let one = seq![bad];
    assert(one.drop_last() =~= Seq::<Result<Record, String>>::empty());
    assert(one.last() == bad);
    assert(selected_lines(one.drop_last(), config) =~= Seq::<Seq<char>>::empty());
    assert(selected_lines(one, config) =~= Seq::<Seq<char>>::empty());
    assert(selected_lines(a, config) + selected_lines(one, config) =~= selected_lines(a, config));
}

/// A line is emitted exactly when some decoded record with that payload
/// passes all filters.
pub proof fn lemma_emitted_iff(items: Seq<Result<Record, String>>, config: FilterConfig, line: Seq<char>)
    ensures
        selected_lines(items, config).contains(line) <==> exists|i: int|
            0 <= i < items.len() && #[trigger] emitted(items[i], config) && (items[i] matches Ok(rec) && rec.payload@ == line),
    decreases items.len(),
{
    if items.len() > 0 {
        let init = items.drop_last();
        lemma_emitted_iff(init, config, line);
        let rest = selected_lines(init, config);
        if selected_lines(items, config).contains(line) {
            if !rest.contains(line) {
                match items.last() {
                    Ok(rec) => {
                        let k = choose|k: int| 0 <= k < selected_lines(items, config).len() && selected_lines(items, config)[k] == line;
                        assert(k == rest.len());
                        assert(emitted(items[items.len() - 1], config));
                    },
                    Err(_) => {},
                }
            } else {
                let i = choose|i: int| 0 <= i < init.len() && #[trigger] emitted(init[i], config) && (init[i] matches Ok(rec) && rec.payload@ == line);
                assert(items[i] == init[i]);
            }
        }
        if exists|i: int| 0 <= i < items.len() && #[trigger] emitted(items[i], config) && (items[i] matches Ok(rec) && rec.payload@ == line) {
            let i = choose|i: int| 0 <= i < items.len() && #[trigger] emitted(items[i], config) && (items[i] matches Ok(rec) && rec.payload@ == line);
            if i < items.len() - 1 {
                assert(init[i] == items[i]);
                assert(rest.contains(line));
                let k = choose|k: int| 0 <= k < rest.len() && rest[k] == line;
                match items.last() {
                    Ok(rec) => if matches_spec(rec.event, config) {
                        assert(rest.push(rec.payload@)[k] == line);
                    },
                    Err(_) => {},
                }
            } else {
                match items.last() {
                    Ok(rec) => {
                        assert(selected_lines(items, config)[rest.len() as int] == line);
                    },
                    Err(_) => {},
                }
            }
        }
    }
}

/// A record of category 4624 without a `TargetUserName` field is dropped
/// whenever an allow-list is given, and kept when none is (provided it passes
/// the time window).
pub proof fn lemma_missing_actor(e: Event, config: FilterConfig)
    requires
        e.event_id == 4624,
        target_user_name(e.data@) is None,
        !has_time_bound(config) || (time_created(e) matches Some(t) && in_range_spec(t, config.start, config.end)),
    ensures
        matches_spec(Some(e), config) == (config.owned_users@.len() == 0),
{
    assert(wanted_ids().contains(4624u16));
}

} // verus!
