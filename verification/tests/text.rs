use dht_console::text::{blank, chars_of, decimal, hexadecimal, push_padded, same_text};

#[test]
fn decimal_of_zero_is_one_digit() {
    assert_eq!(decimal(0), "0");
}

#[test]
fn decimal_matches_display() {
    let samples: Vec<u128> = vec![
        1,
        9,
        10,
        11,
        99,
        100,
        12345,
        1_000_000,
        18_446_744_073_709_551_615,
        u128::MAX,
    ];
    for n in samples {
        assert_eq!(decimal(n), format!("{}", n));
    }
}

#[test]
fn decimal_of_largest_value() {
    assert_eq!(decimal(u128::MAX), "340282366920938463463374607431768211455");
}

#[test]
fn hexadecimal_of_zero_is_one_digit() {
    assert_eq!(hexadecimal(0), "0");
}

#[test]
fn hexadecimal_is_lower_case_without_prefix() {
    assert_eq!(hexadecimal(255), "ff");
    assert_eq!(hexadecimal(0xdead_beef), "deadbeef");
    assert_eq!(hexadecimal(16), "10");
    assert_eq!(hexadecimal(u64::MAX), "ffffffffffffffff");
}

#[test]
fn hexadecimal_matches_lower_hex() {
    let samples: Vec<u64> = vec![1, 15, 16, 17, 4095, 4096, 0x0123_4567_89ab_cdef, u64::MAX - 1];
    for n in samples {
        assert_eq!(hexadecimal(n), format!("{:x}", n));
    }
}

#[test]
fn padding_fills_short_text() {
    let mut out = String::from(">");
    push_padded(&mut out, "Peer", 15, ' ');
    assert_eq!(out, ">Peer           ");
    assert_eq!(out, format!(">{:<15}", "Peer"));
}

#[test]
fn padding_leaves_long_text_whole() {
    let mut out = String::new();
    push_padded(&mut out, "Timestamp", 5, ' ');
    assert_eq!(out, "Timestamp");
}

#[test]
fn padding_to_the_exact_width_adds_nothing() {
    let mut out = String::new();
    push_padded(&mut out, "12345", 5, 'x');
    assert_eq!(out, "12345");
}

#[test]
fn padding_uses_the_fill_character() {
    let mut out = String::new();
    push_padded(&mut out, "42", 7, 'x');
    assert_eq!(out, "42xxxxx");
    assert_eq!(out, format!("{:x<7}", 42u64));
}

#[test]
fn padding_counts_characters_not_bytes() {
    let mut out = String::new();
    push_padded(&mut out, "héé", 5, '.');
    assert_eq!(out, "héé..");
    assert_eq!(out, format!("{:.<5}", "héé"));
}

#[test]
fn padding_with_zero_width() {
    let mut out = String::new();
    push_padded(&mut out, "", 0, ' ');
    assert_eq!(out, "");
}

#[test]
fn blank_characters() {
    for c in [' ', '\t', '\n', '\r', '\x0b', '\x0c'] {
        assert!(blank(c));
    }
    for c in ['a', '0', '{', '"', '\u{a0}', '_'] {
        assert!(!blank(c));
    }
}

#[test]
fn characters_of_a_string() {
    assert_eq!(chars_of("aé1"), vec!['a', 'é', '1']);
    assert_eq!(chars_of(""), Vec::<char>::new());
}

#[test]
fn same_text_compares_characters() {
    assert!(same_text("quit", "quit"));
    assert!(same_text("", ""));
    assert!(!same_text("quit", "quiet"));
    assert!(!same_text("put", "pub"));
    assert!(!same_text("put", "puts"));
    assert!(!same_text("puts", "put"));
}
