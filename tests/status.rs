use url_checker::status::{ButtonStyle, URLStatus};

#[test]
fn labels() {
    assert_eq!(URLStatus::NotChecked.label(), "Check");
    assert_eq!(URLStatus::Checking.label(), "Checking...");
    assert_eq!(URLStatus::Accessible.label(), "Accessible");
    assert_eq!(URLStatus::Inaccessible("x".to_string()).label(), "Inaccessible");
}

#[test]
fn button_styles() {
    assert_eq!(URLStatus::NotChecked.button_style(), None);
    assert_eq!(URLStatus::Checking.button_style(), None);
    assert_eq!(
        URLStatus::Accessible.button_style(),
        Some(ButtonStyle { is_accessible: true })
    );
    assert_eq!(
        URLStatus::Inaccessible("x".to_string()).button_style(),
        Some(ButtonStyle { is_accessible: false })
    );
}

#[test]
fn settled_statuses() {
    assert!(!URLStatus::NotChecked.is_settled());
    assert!(!URLStatus::Checking.is_settled());
    assert!(URLStatus::Accessible.is_settled());
    assert!(URLStatus::Inaccessible("x".to_string()).is_settled());
}

#[test]
fn duplicate_keeps_reason() {
    match URLStatus::Inaccessible("dns".to_string()).duplicate() {
        URLStatus::Inaccessible(r) => assert_eq!(r, "dns"),
        other => panic!("unexpected {:?}", other),
    }
}

#[test]
fn backgrounds() {
    assert_eq!(ButtonStyle { is_accessible: true }.background(), (0, 255, 0));
    assert_eq!(ButtonStyle { is_accessible: false }.background(), (255, 0, 0));
}
