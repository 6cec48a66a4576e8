use claimer::probe::{classify_response, FetchOutcome, OutcomeKind, ProfileEntry};
use claimer::text::parse_list;

fn names(v: &[&str]) -> Vec<String> {
    v.iter().map(|s| s.to_string()).collect()
}

fn profile(id: &str, name: &str) -> ProfileEntry {
    ProfileEntry { id: id.to_string(), name: name.to_string() }
}

#[test]
fn resolved_batch_maps_every_handle() {
    let batch = names(&["Dream", "notch", "jeb_"]);
    let at = "2024-01-01T00:00:00Z".to_string();
    let out = classify_response(&batch, 200, &Some(vec![profile("id-d", "dream"), profile("id-j", "JEB_")]), &at);
    match out {
        FetchOutcome::Resolved(rs) => {
            assert_eq!(rs.len(), 3);
            assert_eq!(rs[0].username, "Dream");
            assert_eq!(rs[0].uuid, Some("id-d".to_string()));
            assert_eq!(rs[1].uuid, None);
            assert_eq!(rs[2].uuid, Some("id-j".to_string()));
            assert!(rs.iter().all(|r| r.last_seen == at));
        }
        _ => panic!("expected a resolved outcome"),
    }
}

#[test]
fn later_profile_of_same_name_wins() {
    let batch = names(&["ab"]);
    let out = classify_response(&batch, 200, &Some(vec![profile("one", "AB"), profile("two", "ab")]), &"t".to_string());
    match out {
        FetchOutcome::Resolved(rs) => assert_eq!(rs[0].uuid, Some("two".to_string())),
        _ => panic!("expected a resolved outcome"),
    }
}

#[test]
fn empty_success_is_not_resolved() {
    let out = classify_response(&names(&["a"]), 200, &Some(vec![]), &"t".to_string());
    assert_eq!(out.kind(), OutcomeKind::Empty);
}

#[test]
fn unreadable_body_is_other() {
    let out = classify_response(&names(&["a"]), 200, &None, &"t".to_string());
    assert_eq!(out.kind(), OutcomeKind::Other);
}

#[test]
fn statuses_classify() {
    let some = Some(vec![profile("x", "a")]);
    let t = "t".to_string();
    assert_eq!(classify_response(&names(&["a"]), 429, &some, &t).kind(), OutcomeKind::RateLimited);
    assert_eq!(classify_response(&names(&["a"]), 403, &some, &t).kind(), OutcomeKind::Forbidden);
    assert_eq!(classify_response(&names(&["a"]), 400, &some, &t).kind(), OutcomeKind::Other);
    assert_eq!(classify_response(&names(&["a"]), 500, &None, &t).kind(), OutcomeKind::Other);
}

#[test]
fn list_lines_are_trimmed_and_blanks_dropped() {
    let r = parse_list(" http://a:1 \n\n\t\nhttp://b:2\r\nhttp://c:3");
    assert_eq!(r, names(&["http://a:1", "http://b:2", "http://c:3"]));
    assert!(parse_list("").is_empty());
    assert!(parse_list("\n  \n").is_empty());
}
