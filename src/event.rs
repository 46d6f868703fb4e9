use vstd::prelude::*;

use crate::time::{parse_time_created, time_created_format, to_timestamp, utc_parse, Timestamp};

verus! {

/// One named value of an event's `EventData` section.
#[derive(Clone, Debug)]
pub struct DataField {
    pub name: String,
    pub value: String,
}

/// The fields of a decoded event that the filters read: its category, the
/// text of its creation time if it has one, and its named data values.
#[derive(Clone, Debug)]
pub struct Event {
    pub event_id: u16,
    pub system_time: Option<String>,
    pub data: Vec<DataField>,
}

/// The fixed set of event categories that are kept.
pub open spec fn wanted_ids() -> Set<u16> {
    set![4624u16, 4625u16, 4768u16, 4769u16, 4776u16, 4672u16]
}

/// Whether the category `id` is one of the kept ones.
pub fn is_wanted_event_id(id: u16) -> (r: bool)
    ensures
        r == wanted_ids().contains(id),
{
    id == 4624 || id == 4625 || id == 4768 || id == 4769 || id == 4776 || id == 4672
}

/// The key under which the actor name is stored.
pub open spec fn target_user_name_key() -> Seq<char> {
    seq!['T', 'a', 'r', 'g', 'e', 't', 'U', 's', 'e', 'r', 'N', 'a', 'm', 'e']
}

/// The value of the first data field named `TargetUserName`, if any.
pub open spec fn target_user_name(data: Seq<DataField>) -> Option<Seq<char>>
    decreases data.len(),
{
    if data.len() == 0 {
        None
    } else if data[0].name@ == target_user_name_key() {
        Some(data[0].value@)
    } else {
        target_user_name(data.drop_first())
    }
}

/// The event's creation time, absent when it has none or it does not parse.
pub open spec fn time_created(event: Event) -> Option<Timestamp> {
    match event.system_time {
        Some(s) => to_timestamp(utc_parse(s@, time_created_format())),
        None => None,
    }
}

/// The names of an allow-list, as character sequences.
pub open spec fn user_names(users: Seq<String>) -> Seq<Seq<char>> {
    users.map_values(|u: String| u@)
}

/// The actor filter: no allow-list lets everything through; otherwise the
/// actor name must be present and exactly equal to a listed name.
pub open spec fn actor_matches_spec(event: Event, users: Seq<String>) -> bool {
    users.len() == 0 || match target_user_name(event.data@) {
        Some(name) => user_names(users).contains(name),
        None => false,
    }
}

/// Returns the value of the first data field named `TargetUserName`.
pub fn get_target_user_name(event: &Event) -> (r: Option<String>)
    ensures
        match r {
            Some(s) => target_user_name(event.data@) == Some(s@),
            None => target_user_name(event.data@) is None,
        },
{
    proof {
        reveal_strlit("TargetUserName");
    }
    let key = String::from_str("TargetUserName");
    assert(key@ == target_user_name_key());
    let mut i: usize = 0;
    assert(event.data@.subrange(0, event.data@.len() as int) =~= event.data@);
    while i < event.data.len()
        invariant
            i <= event.data@.len(),
            key@ == target_user_name_key(),
            target_user_name(event.data@) == target_user_name(event.data@.subrange(i as int, event.data@.len() as int)),
        decreases event.data@.len() - i,
    {
        let field = &event.data[i];
        assert(event.data@.subrange(i as int, event.data@.len() as int).drop_first()
            =~= event.data@.subrange(i + 1, event.data@.len() as int));
        if field.name == key {
            return Some(field.value.clone());
        }
        i = i + 1;
    }
    assert(event.data@.subrange(i as int, event.data@.len() as int).len() == 0);
    None
}

/// Returns the event's creation time, if it has one that parses.
pub fn get_time_created(event: &Event) -> (r: Option<Timestamp>)
    ensures
        r == time_created(*event),
{
    match &event.system_time {
        Some(s) => parse_time_created(s.as_str()),
        None => None,
    }
}

/// Whether `name` is exactly one of `users`.
fn contains_user(users: &Vec<String>, name: &String) -> (r: bool)
    ensures
        r == user_names(users@).contains(name@),
{
    let mut i: usize = 0;
    while i < users.len()
        invariant
            i <= users@.len(),
            forall|j: int| 0 <= j < i ==> users@[j]@ != name@,
        decreases users@.len() - i,
    {
        if users[i] == *name {
            assert(user_names(users@)[i as int] == name@);
            return true;
        }
        i = i + 1;
    }
    proof {
        if user_names(users@).contains(name@) {
            let j = choose|j: int| 0 <= j < user_names(users@).len() && user_names(users@)[j] == name@;
            assert(users@[j]@ == name@);
        }
    }
    false
}

/// The actor filter over an allow-list `users`; exact comparison, no case
/// folding or trimming.
pub fn actor_matches(event: &Event, users: &Vec<String>) -> (r: bool)
    ensures
        r == actor_matches_spec(*event, users@),
{
    if users.len() == 0 {
        return true;
    }
    match get_target_user_name(event) {
        Some(name) => contains_user(users, &name),
        None => false,
    }
}

} // verus!
