use wireguard_uapi::name::{InterfaceName, InvalidInterfaceName};

#[test]
fn parse_and_display_round_trip() {
    let n: InterfaceName = "wg0".parse().unwrap();
    assert_eq!(n.as_str_lossy(), "wg0");
    assert_eq!(n.as_bytes(), b"wg0".to_vec());
}

#[test]
fn longest_name_is_accepted() {
    let s = "abcdefghijklmno";
    assert_eq!(s.len(), 15);
    let n: InterfaceName = s.parse().unwrap();
    assert_eq!(n.as_str_lossy(), s);
}

#[test]
fn non_ascii_name_round_trips() {
    let s = "wg-é€";
    let n: InterfaceName = s.parse().unwrap();
    assert_eq!(n.as_str_lossy(), s);
}

#[test]
fn empty_name_is_refused() {
    assert_eq!("".parse::<InterfaceName>(), Err(InvalidInterfaceName::Empty));
}

#[test]
fn too_long_name_is_refused() {
    assert_eq!(
        "abcdefghijklmnop".parse::<InterfaceName>(),
        Err(InvalidInterfaceName::TooLong)
    );
    assert_eq!(
        "a".repeat(100).parse::<InterfaceName>(),
        Err(InvalidInterfaceName::TooLong)
    );
}

#[test]
fn too_long_wins_over_invalid_chars() {
    assert_eq!(
        "a b c d e f g h i".parse::<InterfaceName>(),
        Err(InvalidInterfaceName::TooLong)
    );
}

#[test]
fn invalid_chars_are_refused() {
    for s in ["a/b", "a b", "a\tb", "a\nb", "a\rb", "a\x0cb", "a\0b", "/", " "] {
        assert_eq!(
            s.parse::<InterfaceName>(),
            Err(InvalidInterfaceName::InvalidChars),
            "{:?}",
            s
        );
    }
}

#[test]
fn names_compare_by_bytes() {
    let a: InterfaceName = "wg0".parse().unwrap();
    let b = InterfaceName::from_str("wg0").unwrap();
    let c: InterfaceName = "wg1".parse().unwrap();
    let d: InterfaceName = "wg00".parse().unwrap();
    assert_eq!(a, b);
    assert_ne!(a, c);
    assert_ne!(a, d);
}

#[test]
fn error_messages() {
    assert_eq!(
        InvalidInterfaceName::TooLong.message(),
        "interface name longer than system max of 16 chars"
    );
    assert_eq!(
        InvalidInterfaceName::Empty.message(),
        "an empty interface name was provided"
    );
    assert_eq!(
        InvalidInterfaceName::InvalidChars.message(),
        "interface name contained slash or space characters"
    );
}
