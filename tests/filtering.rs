use event_filter::{
    actor_matches, get_target_user_name, get_time_created, in_date_range, is_wanted_event_id, parse_date,
    parse_time_created, record_matches, select_matches, select_source_files, ConfigError, DataField, Event,
    FilterConfig, Record, Timestamp,
};

fn field(name: &str, value: &str) -> DataField {
    DataField { name: name.to_string(), value: value.to_string() }
}

fn event(id: u16, time: Option<&str>, user: Option<&str>) -> Event {
    let mut data = vec![field("SubjectUserName", "system")];
    if let Some(u) = user {
        data.push(field("TargetUserName", u));
    }
    Event { event_id: id, system_time: time.map(|t| t.to_string()), data }
}

fn record(payload: &str, ev: Option<Event>) -> Result<Record, String> {
    Ok(Record { payload: payload.to_string(), event: ev })
}

fn config(users: &[&str], start: Option<&str>, end: Option<&str>) -> FilterConfig {
    FilterConfig::new(users.iter().map(|u| u.to_string()).collect(), start, end).unwrap()
}

#[test]
fn wanted_event_ids() {
    for id in [4624u16, 4625, 4768, 4769, 4776, 4672] {
        assert!(is_wanted_event_id(id));
    }
    for id in [0u16, 4623, 4626, 4688, 65535] {
        assert!(!is_wanted_event_id(id));
    }
}

#[test]
fn parses_time_created() {
    let t = parse_time_created("2024-08-18 13:45:55.479781 UTC").unwrap();
    assert_eq!(t, Timestamp { secs: 1723988755, nanos: 479781000 });
    assert_eq!(parse_time_created("2024-08-18 13:45:55.479781"), None);
    assert_eq!(parse_time_created("not a time"), None);
}

#[test]
fn parses_boundary_dates_at_midnight() {
    assert_eq!(parse_date("2024-01-01"), Some(Timestamp { secs: 1704067200, nanos: 0 }));
    assert_eq!(parse_date("2024-01-31"), Some(Timestamp { secs: 1706659200, nanos: 0 }));
    assert_eq!(parse_date("2024/01/01"), None);
    assert_eq!(parse_date("2024-13-01"), None);
}

#[test]
fn date_range_is_inclusive() {
    let s = Timestamp { secs: 100, nanos: 5 };
    let e = Timestamp { secs: 200, nanos: 0 };
    assert!(in_date_range(&s, Some(s), Some(e)));
    assert!(in_date_range(&e, Some(s), Some(e)));
    assert!(!in_date_range(&Timestamp { secs: 100, nanos: 4 }, Some(s), Some(e)));
    assert!(!in_date_range(&Timestamp { secs: 200, nanos: 1 }, Some(s), Some(e)));
    assert!(in_date_range(&Timestamp { secs: -5, nanos: 0 }, None, Some(e)));
    assert!(in_date_range(&Timestamp { secs: 900, nanos: 0 }, Some(s), None));
    assert!(in_date_range(&Timestamp { secs: 0, nanos: 0 }, None, None));
}

#[test]
fn invalid_dates_are_rejected() {
    let r = FilterConfig::new(Vec::new(), Some("01/01/2024"), Some("2024-01-31"));
    assert_eq!(r.unwrap_err(), ConfigError::InvalidStartDate);
    let r = FilterConfig::new(Vec::new(), Some("2024-01-01"), Some("tomorrow"));
    assert_eq!(r.unwrap_err(), ConfigError::InvalidEndDate);
    let r = FilterConfig::new(Vec::new(), Some("bad"), Some("worse"));
    assert_eq!(r.unwrap_err(), ConfigError::InvalidStartDate);
    let c = FilterConfig::new(vec!["bob".to_string()], None, Some("2024-01-31")).unwrap();
    assert_eq!(c.start, None);
    assert_eq!(c.end, Some(Timestamp { secs: 1706659200, nanos: 0 }));
    assert_eq!(c.owned_users, vec!["bob".to_string()]);
}

#[test]
fn first_target_user_name_wins() {
    let e = Event {
        event_id: 4624,
        system_time: None,
        data: vec![field("TargetUserNameX", "x"), field("TargetUserName", "alice"), field("TargetUserName", "bob")],
    };
    assert_eq!(get_target_user_name(&e), Some("alice".to_string()));
    assert_eq!(get_target_user_name(&event(4624, None, None)), None);
}

#[test]
fn time_created_absent_or_unparseable() {
    assert_eq!(get_time_created(&event(4624, None, None)), None);
    assert_eq!(get_time_created(&event(4624, Some("yesterday"), None)), None);
    assert_eq!(
        get_time_created(&event(4624, Some("2024-01-15 10:00:00.000000 UTC"), None)),
        Some(Timestamp { secs: 1705312800, nanos: 0 })
    );
}

#[test]
fn category_filter() {
    let c = config(&[], None, None);
    assert!(record_matches(&Some(event(4768, None, None)), &c));
    assert!(!record_matches(&Some(event(4688, None, None)), &c));
    assert!(!record_matches(&None, &c));
}

#[test]
fn time_window_scenario() {
    let c = config(&[], Some("2024-01-01"), Some("2024-01-31"));
    assert!(record_matches(&Some(event(4624, Some("2024-01-15 10:00:00.000000 UTC"), None)), &c));
    assert!(!record_matches(&Some(event(4624, Some("2024-02-01 00:00:00.000001 UTC"), None)), &c));
    assert!(record_matches(&Some(event(4624, Some("2024-01-01 00:00:00.000000 UTC"), None)), &c));
    assert!(!record_matches(&Some(event(4624, Some("2023-12-31 23:59:59.999999 UTC"), None)), &c));
}

#[test]
fn missing_time_only_matters_with_a_window() {
    let no_window = config(&[], None, None);
    let window = config(&[], Some("2024-01-01"), None);
    assert!(record_matches(&Some(event(4625, None, None)), &no_window));
    assert!(!record_matches(&Some(event(4625, None, None)), &window));
    assert!(record_matches(&Some(event(4625, Some("garbled"), None)), &no_window));
    assert!(!record_matches(&Some(event(4625, Some("garbled"), None)), &window));
}

#[test]
fn missing_actor_with_and_without_allow_list() {
    let e = Some(event(4624, Some("2024-01-15 10:00:00.000000 UTC"), None));
    assert!(!record_matches(&e, &config(&["alice"], None, None)));
    assert!(record_matches(&e, &config(&[], None, None)));
}

#[test]
fn actor_match_is_exact() {
    let c = config(&["alice"], None, None);
    assert!(record_matches(&Some(event(4625, None, Some("alice"))), &c));
    assert!(!record_matches(&Some(event(4625, None, Some("Alice"))), &c));
    assert!(!record_matches(&Some(event(4625, None, Some(" alice"))), &c));
    assert!(actor_matches(&event(4625, None, Some("bob")), &vec!["alice".to_string(), "bob".to_string()]));
    assert!(actor_matches(&event(4625, None, None), &Vec::new()));
}

#[test]
fn malformed_records_do_not_block_others() {
    let c = config(&[], None, None);
    let items = vec![
        record("<a/>", Some(event(4624, None, None))),
        Err("bad chunk".to_string()),
        record("<broken", None),
        record("<b/>", Some(event(4672, None, None))),
        record("<c/>", Some(event(1102, None, None))),
        record("<d/>", Some(event(4776, None, None))),
    ];
    assert_eq!(select_matches(&items, &c), vec!["<a/>".to_string(), "<b/>".to_string(), "<d/>".to_string()]);
}

#[test]
fn same_lines_in_any_order() {
    let c = config(&["alice"], None, None);
    let mut items = vec![
        record("<1/>", Some(event(4624, None, Some("alice")))),
        record("<2/>", Some(event(4624, None, Some("bob")))),
        record("<3/>", Some(event(4769, None, Some("alice")))),
        record("<4/>", None),
    ];
    let mut first = select_matches(&items, &c);
    let again = select_matches(&items, &c);
    assert_eq!(first, again);
    items.reverse();
    let mut reversed = select_matches(&items, &c);
    first.sort();
    reversed.sort();
    assert_eq!(first, reversed);
    assert_eq!(first, vec!["<1/>".to_string(), "<3/>".to_string()]);
}

#[test]
fn selects_only_evtx_files() {
    let paths = vec!["logs/a.evtx".to_string(), "logs/notes.txt".to_string(), "logs/b.evtx".to_string()];
    assert_eq!(select_source_files(&paths), vec!["logs/a.evtx".to_string(), "logs/b.evtx".to_string()]);
    let odd = vec!["logs/evtx".to_string(), "logs/.evtx".to_string(), "logs/c.EVTX".to_string(), "d.evtx".to_string()];
    assert_eq!(select_source_files(&odd), vec!["d.evtx".to_string()]);
}
