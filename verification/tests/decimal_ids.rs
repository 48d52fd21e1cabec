use hippmem_py::decimal::{format_u128, parse_u128};
use hippmem_py::error::ArgumentError;
use hippmem_py::ids::{delete_memory_ids, feedback_memory_ids, format_cursor};

#[test]
fn parse_u128_agrees_with_std_on_samples() {
    let samples = [
        "0",
        "7",
        "123",
        "+7",
        "+",
        "-1",
        "-0",
        "",
        "abc",
        " 1",
        "1 ",
        "007",
        "1_000",
        "1e3",
        "١٢",
        "340282366920938463463374607431768211455",
        "340282366920938463463374607431768211456",
        "+340282366920938463463374607431768211455",
        "999999999999999999999999999999999999999999",
        "01817391287349128374918273491827",
    ];
    for s in samples.iter() {
        assert_eq!(parse_u128(s), s.parse::<u128>().ok(), "sample {:?}", s);
    }
}

#[test]
fn parse_u128_exact_values() {
    assert_eq!(parse_u128("42"), Some(42));
    assert_eq!(parse_u128("+42"), Some(42));
    assert_eq!(parse_u128("0042"), Some(42));
    assert_eq!(parse_u128("340282366920938463463374607431768211455"), Some(u128::MAX));
    assert_eq!(parse_u128("340282366920938463463374607431768211456"), None);
    assert_eq!(parse_u128("4x2"), None);
    assert_eq!(parse_u128(""), None);
    assert_eq!(parse_u128("+"), None);
    assert_eq!(parse_u128("-5"), None);
}

#[test]
fn format_u128_agrees_with_display() {
    let samples = [0u128, 1, 9, 10, 99, 100, 12345, 1 << 64, u128::MAX - 1, u128::MAX];
    for n in samples.iter() {
        assert_eq!(format_u128(*n), n.to_string());
    }
    assert_eq!(format_u128(2027), "2027");
}

#[test]
fn formatted_ids_read_back() {
    let samples = [0u128, 5, 1234567890123456789, u128::MAX];
    for n in samples.iter() {
        assert_eq!(parse_u128(&format_u128(*n)), Some(*n));
    }
}

#[test]
fn feedback_ids_drop_unreadable_ones() {
    let ids = vec![
        "12".to_string(),
        "abc".to_string(),
        "+3".to_string(),
        "".to_string(),
        "340282366920938463463374607431768211456".to_string(),
        "007".to_string(),
    ];
    assert_eq!(feedback_memory_ids(&ids), vec![12u128, 3, 7]);
    assert_eq!(feedback_memory_ids(&Vec::new()), Vec::<u128>::new());
}

#[test]
fn delete_ids_accept_all_readable() {
    let ids = vec!["1".to_string(), "22".to_string(), "333".to_string()];
    match delete_memory_ids(&ids) {
        Ok(v) => assert_eq!(v, vec![1u128, 22, 333]),
        Err(e) => panic!("unexpected refusal {:?}", e),
    }
    match delete_memory_ids(&Vec::new()) {
        Ok(v) => assert!(v.is_empty()),
        Err(e) => panic!("unexpected refusal {:?}", e),
    }
}

#[test]
fn delete_ids_refuse_first_unreadable() {
    let ids = vec!["1".to_string(), "x1".to_string(), "2".to_string(), "y".to_string()];
    match delete_memory_ids(&ids) {
        Err(ArgumentError::InvalidMemoryId(t)) => assert_eq!(t, "x1"),
        other => panic!("unexpected result {:?}", other),
    }
}

#[test]
fn written_ids_are_accepted_by_delete_and_feedback() {
    let written = vec![0u128, 18446744073709551616, u128::MAX];
    let texts: Vec<String> = written.iter().map(|n| format_u128(*n)).collect();
    assert_eq!(feedback_memory_ids(&texts), written);
    match delete_memory_ids(&texts) {
        Ok(v) => assert_eq!(v, written),
        Err(e) => panic!("unexpected refusal {:?}", e),
    }
}

#[test]
fn cursor_text_round_trip() {
    assert_eq!(format_cursor(None), None);
    assert_eq!(format_cursor(Some(99)), Some("99".to_string()));
    let c = format_cursor(Some(u128::MAX)).unwrap();
    assert_eq!(parse_u128(&c), Some(u128::MAX));
}
