use mitch_driver::scanner::Scanner;

#[test]
fn same_name_twice_is_registered_once() {
    let mut s = Scanner::new();
    assert_eq!(s.observe(Some("Mitch01")), Some("mitch01".to_string()));
    assert_eq!(s.observe(Some("mitch01")), None);
    assert_eq!(s.observe(Some("MITCH01")), None);
    assert_eq!(s.len(), 1);
}

#[test]
fn names_are_case_folded_and_filtered() {
    let mut s = Scanner::new();
    assert_eq!(s.observe(Some("Headphones")), None);
    assert_eq!(s.observe(None), None);
    assert_eq!(s.observe(Some("mitc")), None);
    assert_eq!(s.observe(Some("MiTcH-42")), Some("mitch-42".to_string()));
    assert_eq!(s.observe(Some("mitch")), Some("mitch".to_string()));
    assert_eq!(s.len(), 2);
    assert!(s.contains(&"mitch-42".to_string()));
    assert!(!s.contains(&"MiTcH-42".to_string()));
}

#[test]
fn offer_takes_folded_names_as_given() {
    let mut s = Scanner::new();
    assert_eq!(s.offer("Mitch01".to_string()), None);
    assert_eq!(s.offer("mitch01".to_string()), Some("mitch01".to_string()));
    assert_eq!(s.offer("mitch01".to_string()), None);
    assert_eq!(s.len(), 1);
}
