use circular_binary_tree::paper::DIN;

#[test]
fn paper_sizes() {
    assert_eq!(DIN::A4.size(), (210, 297));
    assert_eq!(DIN::A0_4.size(), (1682, 2378));
    assert_eq!(DIN::A10.size(), (26, 37));
}

#[test]
fn paper_names_ignore_case() {
    assert_eq!(DIN::from_name("a4"), Some(DIN::A4));
    assert_eq!(DIN::from_name("A4"), Some(DIN::A4));
    assert_eq!(DIN::from_name("4a0"), Some(DIN::A0_4));
    assert_eq!(DIN::from_name("2A0"), Some(DIN::A0_2));
    assert_eq!(DIN::from_name("a10"), Some(DIN::A10));
    assert_eq!(DIN::from_name("b5"), None);
    assert_eq!(DIN::from_name(""), None);
}
