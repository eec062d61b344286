use url_checker::checker::{Effect, Message, URLChecker};
use url_checker::status::URLStatus;

fn urls(list: &[&str]) -> Vec<String> {
    list.iter().map(|s| s.to_string()).collect()
}

fn probes(effect: Effect) -> Vec<(usize, String)> {
    match effect {
        Effect::Probe(p) => p,
        other => panic!("expected probes, got {:?}", other),
    }
}

fn is_checking(s: &URLStatus) -> bool {
    matches!(s, URLStatus::Checking)
}

fn is_accessible(s: &URLStatus) -> bool {
    matches!(s, URLStatus::Accessible)
}

fn reason_of(s: &URLStatus) -> Option<String> {
    match s {
        URLStatus::Inaccessible(r) => Some(r.clone()),
        _ => None,
    }
}

#[test]
fn load_keeps_order_and_duplicates() {
    let c = URLChecker::new(Ok(urls(&["b.example", "a.example", "b.example"])));
    assert_eq!(c.len(), 3);
    assert_eq!(c.url(0), "b.example");
    assert_eq!(c.url(1), "a.example");
    assert_eq!(c.url(2), "b.example");
    for i in 0..3 {
        assert!(matches!(c.status(i), URLStatus::NotChecked));
    }
    assert_eq!(c.error_text(), "");
    assert_eq!(c.startup_error(), None);
}

#[test]
fn load_of_empty_list() {
    let c = URLChecker::new(Ok(Vec::new()));
    assert_eq!(c.len(), 0);
    assert_eq!(c.startup_error(), None);
}

#[test]
fn failed_load_leaves_empty_list_and_banner() {
    let c = URLChecker::new(Err("Could not parse JSON: missing field `urls`".to_string()));
    assert_eq!(c.len(), 0);
    assert_eq!(
        c.startup_error(),
        Some("Could not read URLs from JSON file: Could not parse JSON: missing field `urls`")
    );
    assert_eq!(c.error_text(), "");
}

#[test]
fn title_is_fixed() {
    let c = URLChecker::new(Ok(Vec::new()));
    assert_eq!(c.title(), "URL Checker");
}

#[test]
fn check_one_marks_checking_and_probes_normalized_url() {
    let mut c = URLChecker::new(Ok(urls(&["good.example", "https://other.example"])));
    let p = probes(c.update(Message::CheckURL(0)));
    assert_eq!(p, vec![(0, "http://good.example".to_string())]);
    assert!(is_checking(c.status(0)));
    assert!(matches!(c.status(1), URLStatus::NotChecked));
    let p = probes(c.update(Message::CheckURL(1)));
    assert_eq!(p, vec![(1, "https://other.example".to_string())]);
}

#[test]
fn success_makes_entry_accessible() {
    let mut c = URLChecker::new(Ok(urls(&["good.example"])));
    c.update(Message::CheckURL(0));
    assert!(matches!(c.update(Message::CheckedURL(0, Ok(()))), Effect::Nothing));
    assert!(is_accessible(c.status(0)));
    assert_eq!(c.error_text(), "");
}

#[test]
fn failure_makes_entry_inaccessible_and_logs_one_line() {
    let mut c = URLChecker::new(Ok(urls(&["bad.example"])));
    c.update(Message::CheckURL(0));
    c.update(Message::CheckedURL(0, Err("connection refused".to_string())));
    assert_eq!(reason_of(c.status(0)), Some("connection refused".to_string()));
    assert_eq!(c.error_text(), "Error checking bad.example: connection refused");
}

#[test]
fn failure_line_uses_loaded_url_not_probed_address() {
    let mut c = URLChecker::new(Ok(urls(&["x.example"])));
    c.update(Message::CheckURL(0));
    c.update(Message::CheckedURL(0, Err("dns".to_string())));
    assert_eq!(c.error_text(), "Error checking x.example: dns");
}

#[test]
fn check_all_end_to_end() {
    let mut c = URLChecker::new(Ok(urls(&["good.example", "bad.example"])));
    let p = probes(c.update(Message::CheckAllURLs));
    assert_eq!(
        p,
        vec![
            (0, "http://good.example".to_string()),
            (1, "http://bad.example".to_string())
        ]
    );
    assert!(is_checking(c.status(0)));
    assert!(is_checking(c.status(1)));
    c.update(Message::CheckedURL(1, Err("connection refused".to_string())));
    c.update(Message::CheckedURL(0, Ok(())));
    assert!(is_accessible(c.status(0)));
    assert_eq!(reason_of(c.status(1)), Some("connection refused".to_string()));
    assert_eq!(c.error_text(), "Error checking bad.example: connection refused");
}

#[test]
fn check_all_settles_every_entry_in_any_order() {
    let mut c = URLChecker::new(Ok(urls(&["a", "b", "c", "d"])));
    let p = probes(c.update(Message::CheckAllURLs));
    assert_eq!(p.len(), 4);
    c.update(Message::CheckedURL(2, Ok(())));
    c.update(Message::CheckedURL(0, Err("e0".to_string())));
    c.update(Message::CheckedURL(3, Err("e3".to_string())));
    c.update(Message::CheckedURL(1, Ok(())));
    assert_eq!(c.len(), 4);
    for i in 0..4 {
        assert!(c.status(i).is_settled());
    }
    assert_eq!(c.error_text(), "Error checking a: e0\nError checking d: e3");
}

#[test]
fn check_all_on_empty_list_sends_nothing() {
    let mut c = URLChecker::new(Ok(Vec::new()));
    assert!(probes(c.update(Message::CheckAllURLs)).is_empty());
}

#[test]
fn reset_asks_for_reload_and_clears_state() {
    let mut c = URLChecker::new(Ok(urls(&["a", "b"])));
    c.update(Message::CheckAllURLs);
    c.update(Message::CheckedURL(0, Err("down".to_string())));
    c.update(Message::CheckedURL(1, Ok(())));
    assert!(matches!(c.update(Message::ResetAll), Effect::ReloadSource));
    assert_eq!(c.len(), 2);
    c.reset(Ok(urls(&["a", "b", "c"])));
    assert_eq!(c.len(), 3);
    assert_eq!(c.url(2), "c");
    for i in 0..3 {
        assert!(matches!(c.status(i), URLStatus::NotChecked));
    }
    assert_eq!(c.error_text(), "");
    assert_eq!(c.startup_error(), None);
}

#[test]
fn reset_with_failed_load_empties_list() {
    let mut c = URLChecker::new(Ok(urls(&["a"])));
    c.update(Message::CheckURL(0));
    c.update(Message::CheckedURL(0, Err("down".to_string())));
    c.reset(Err("gone".to_string()));
    assert_eq!(c.len(), 0);
    assert_eq!(c.error_text(), "");
    assert_eq!(c.startup_error(), Some("Could not read URLs from JSON file: gone"));
}

#[test]
fn recheck_of_accessible_entry() {
    let mut c = URLChecker::new(Ok(urls(&["flaky.example"])));
    c.update(Message::CheckURL(0));
    c.update(Message::CheckedURL(0, Ok(())));
    assert!(is_accessible(c.status(0)));
    let p = probes(c.update(Message::CheckURL(0)));
    assert_eq!(p, vec![(0, "http://flaky.example".to_string())]);
    assert!(is_checking(c.status(0)));
    c.update(Message::CheckedURL(0, Err("timed out".to_string())));
    assert_eq!(reason_of(c.status(0)), Some("timed out".to_string()));
    c.update(Message::CheckURL(0));
    c.update(Message::CheckedURL(0, Ok(())));
    assert!(is_accessible(c.status(0)));
    assert_eq!(c.error_text(), "Error checking flaky.example: timed out");
}

#[test]
fn copy_error_hands_out_whole_log() {
    let mut c = URLChecker::new(Ok(urls(&["a", "b"])));
    c.update(Message::CheckAllURLs);
    c.update(Message::CheckedURL(0, Err("x".to_string())));
    c.update(Message::CheckedURL(1, Err("y".to_string())));
    match c.update(Message::CopyError) {
        Effect::CopyToClipboard(text) => {
            assert_eq!(text, "Error checking a: x\nError checking b: y")
        }
        other => panic!("unexpected {:?}", other),
    }
    assert!(c.status(0).is_settled());
}

#[test]
fn stale_result_is_still_applied() {
    let mut c = URLChecker::new(Ok(urls(&["a"])));
    c.update(Message::CheckURL(0));
    c.update(Message::CheckURL(0));
    c.update(Message::CheckedURL(0, Err("old".to_string())));
    assert_eq!(reason_of(c.status(0)), Some("old".to_string()));
    c.update(Message::CheckedURL(0, Ok(())));
    assert!(is_accessible(c.status(0)));
    assert_eq!(c.error_text(), "Error checking a: old");
}
