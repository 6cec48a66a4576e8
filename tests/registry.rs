use chrono::{DateTime, Utc};
use claimer::registry::{
    get_drop_window, init_hashmap_from_text, new_handle_map, new_window_map, update_batch_status,
    UsernameResult, WindowError,
};

fn result(name: &str, uuid: Option<&str>, seen: &str) -> UsernameResult {
    UsernameResult {
        username: name.to_string(),
        uuid: uuid.map(|u| u.to_string()),
        last_seen: seen.to_string(),
    }
}

fn instant(s: &str) -> DateTime<Utc> {
    s.parse::<DateTime<Utc>>().unwrap()
}

#[test]
fn test_update_batch_status() {
    let mut users = new_handle_map(16);
    users.insert(
        "dream".into(),
        (Some("uuid-0".into()), Some(Utc::now().to_rfc3339())),
    );
    users.insert("notch".into(), (None, Some(Utc::now().to_rfc3339())));
    let mut drop_windows = new_window_map(4);

    let batch1 = vec![
        result("dream", Some("uuid-1"), &Utc::now().to_rfc3339()),
        result("notch", None, &Utc::now().to_rfc3339()),
    ];
    update_batch_status(&mut users, &batch1, &mut drop_windows);

    assert_eq!(users.get("dream").unwrap().0, Some("uuid-1".to_string()));
    assert!(users.get("notch").unwrap().0.is_none());

    let batch2 = vec![result("dream", None, &Utc::now().to_rfc3339())];
    update_batch_status(&mut users, &batch2, &mut drop_windows);

    let window = drop_windows.get("dream").expect("drop window missing");
    println!("Dream drop window: {:?}", *window);
}

#[test]
fn loss_opens_one_window_offset_from_both_instants() {
    let mut users = new_handle_map(16);
    users.insert(
        "steve".into(),
        (Some("id-x".into()), Some("2024-03-10T12:00:00Z".into())),
    );
    let mut windows = new_window_map(4);
    let events = update_batch_status(
        &mut users,
        &vec![result("Steve", None, "2024-03-10T12:05:30.250Z")],
        &mut windows,
    );
    assert_eq!(windows.len(), 1);
    assert_eq!(events.len(), 1);
    assert_eq!(events[0].username, "steve");
    let w = windows.get("steve").unwrap().clone();
    assert_eq!(instant(&w.0), instant("2024-04-16T12:00:00Z"));
    assert_eq!(instant(&w.1), instant("2024-04-16T12:05:30.250Z"));
    assert_eq!(events[0].begin, w.0);
    assert_eq!(events[0].end, w.1);
    let rec = users.get("steve").unwrap().clone();
    assert_eq!(rec.0, None);
    assert_eq!(rec.1, Some("2024-03-10T12:05:30.250Z".to_string()));
}

#[test]
fn drop_window_of_fixed_dates() {
    let mut windows = new_window_map(4);
    let w = get_drop_window(
        "alex",
        "2024-01-01T00:00:00Z",
        "2024-01-02T00:00:00Z",
        &mut windows,
    )
    .unwrap();
    assert_eq!(instant(&w.begin), instant("2024-02-07T00:00:00Z"));
    assert_eq!(instant(&w.end), instant("2024-02-08T00:00:00Z"));
    assert_eq!(w.begin, "2024-02-07T01:00:00+01:00");
    assert_eq!(w.end, "2024-02-08T01:00:00+01:00");
    assert_eq!(
        windows.get("alex").unwrap().clone(),
        (w.begin.clone(), w.end.clone())
    );
}

#[test]
fn drop_window_in_summer_time() {
    let mut windows = new_window_map(4);
    let w = get_drop_window("alex", "2024-06-01T10:00:00+02:00", "2024-06-01T08:30:00Z", &mut windows)
        .unwrap();
    assert_eq!(w.begin, "2024-07-08T10:00:00+02:00");
    assert_eq!(w.end, "2024-07-08T10:30:00+02:00");
}

#[test]
fn drop_window_rejects_unreadable_text() {
    let mut windows = new_window_map(4);
    assert!(matches!(
        get_drop_window("alex", "yesterday", "2024-01-02T00:00:00Z", &mut windows),
        Err(WindowError::InvalidTimestamp)
    ));
    assert!(matches!(
        get_drop_window("alex", "2024-01-01T00:00:00Z", "2024-13-02T00:00:00Z", &mut windows),
        Err(WindowError::InvalidTimestamp)
    ));
    assert_eq!(windows.len(), 0);
}

#[test]
fn repeated_loss_keeps_one_window() {
    let mut users = new_handle_map(16);
    users.insert(
        "jeb_".into(),
        (Some("id-j".into()), Some("2024-01-01T00:00:00Z".into())),
    );
    let mut windows = new_window_map(4);
    let lost = vec![result("jeb_", None, "2024-01-02T00:00:00Z")];
    let first = update_batch_status(&mut users, &lost, &mut windows);
    let after_first = windows.get("jeb_").unwrap().clone();
    let second = update_batch_status(&mut users, &lost, &mut windows);
    assert_eq!(first.len(), 1);
    assert_eq!(second.len(), 0);
    assert_eq!(windows.len(), 1);
    assert_eq!(windows.get("jeb_").unwrap().clone(), after_first);
}

#[test]
fn repeated_window_registration_overwrites() {
    let mut windows = new_window_map(4);
    get_drop_window("a", "2024-01-01T00:00:00Z", "2024-01-02T00:00:00Z", &mut windows).unwrap();
    get_drop_window("a", "2024-01-01T00:00:00Z", "2024-01-02T00:00:00Z", &mut windows).unwrap();
    assert_eq!(windows.len(), 1);
    get_drop_window("a", "2024-01-05T00:00:00Z", "2024-01-06T00:00:00Z", &mut windows).unwrap();
    assert_eq!(windows.len(), 1);
    assert_eq!(instant(&windows.get("a").unwrap().0), instant("2024-02-11T00:00:00Z"));
}

#[test]
fn first_sighting_creates_record_without_window() {
    let mut users = new_handle_map(16);
    let mut windows = new_window_map(4);
    let events = update_batch_status(
        &mut users,
        &vec![result("NewName", Some("id-n"), "2024-01-01T00:00:00Z")],
        &mut windows,
    );
    assert!(events.is_empty());
    assert_eq!(windows.len(), 0);
    assert_eq!(users.len(), 1);
    assert_eq!(
        users.get("newname").unwrap().clone(),
        (Some("id-n".to_string()), Some("2024-01-01T00:00:00Z".to_string()))
    );
}

#[test]
fn regained_identity_leaves_window_in_place() {
    let mut users = new_handle_map(16);
    users.insert("kat".into(), (Some("id-k".into()), Some("2024-01-01T00:00:00Z".into())));
    let mut windows = new_window_map(4);
    update_batch_status(&mut users, &vec![result("kat", None, "2024-01-02T00:00:00Z")], &mut windows);
    update_batch_status(&mut users, &vec![result("kat", Some("id-z"), "2024-01-03T00:00:00Z")], &mut windows);
    assert_eq!(windows.len(), 1);
    assert_eq!(users.get("kat").unwrap().0, Some("id-z".to_string()));
}

#[test]
fn unreadable_last_seen_skips_window_but_merges() {
    let mut users = new_handle_map(16);
    users.insert("bob".into(), (Some("id-b".into()), Some("not a time".into())));
    let mut windows = new_window_map(4);
    let events = update_batch_status(
        &mut users,
        &vec![
            result("bob", None, "2024-01-02T00:00:00Z"),
            result("amy", Some("id-a"), "2024-01-02T00:00:00Z"),
        ],
        &mut windows,
    );
    assert!(events.is_empty());
    assert_eq!(windows.len(), 0);
    assert_eq!(users.get("bob").unwrap().0, None);
    assert_eq!(users.len(), 2);
}

#[test]
fn seeding_trims_lowercases_and_skips_blanks() {
    let map = init_hashmap_from_text("  Dream \n\nnotch\r\n   \njeb_\nDREAM\n");
    assert_eq!(map.len(), 3);
    assert_eq!(map.get("dream").unwrap().clone(), (None, None));
    assert!(map.contains_key("notch"));
    assert!(map.contains_key("jeb_"));
    assert!(!map.contains_key("Dream"));
}

#[test]
fn seeding_empty_text_gives_empty_registry() {
    assert_eq!(init_hashmap_from_text("").len(), 0);
}
