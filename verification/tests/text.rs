use mac_disk_monitor::text::{same_text, starts_with};

#[test]
fn same_text_compares_every_character() {
    assert!(same_text("", ""));
    assert!(same_text("<null>", "<null>"));
    assert!(!same_text("<null>", "<null> "));
    assert!(!same_text("<null>", "<nulL>"));
    assert!(!same_text("", "a"));
    assert!(!same_text("a", ""));
    assert!(same_text("Zeit \u{00e4}\u{20ac}", "Zeit \u{00e4}\u{20ac}"));
    assert!(!same_text("\u{00e4}", "\u{00e5}"));
    assert!(!same_text("ab", "ba"));
}

#[test]
fn starts_with_compares_the_first_characters() {
    assert!(starts_with("***Begin monitoring", "***Begin monitoring"));
    assert!(starts_with("***Begin monitoring\r", "***Begin monitoring"));
    assert!(starts_with("anything", ""));
    assert!(starts_with("", ""));
    assert!(!starts_with("", "a"));
    assert!(!starts_with("***Begin monitorin", "***Begin monitoring"));
    assert!(!starts_with(" ***Begin monitoring", "***Begin monitoring"));
    assert!(!starts_with("***begin monitoring", "***Begin monitoring"));
    assert!(starts_with("\u{20ac}uro", "\u{20ac}u"));
    assert!(!starts_with("\u{20ac}uro", "\u{20ab}"));
}
