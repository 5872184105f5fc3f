use zkshield::capacity::preflight_capacity;
use zkshield::encoding::{append_decimal, hex_string};
use zkshield::error::ZkError;

#[test]
fn capacity_exact_budget_is_accepted() {
    // 2^10 rows at 32 bytes each is exactly 32768 bytes.
    assert!(preflight_capacity(10, 32, 32768).is_ok());
}

#[test]
fn capacity_one_byte_short_is_rejected() {
    match preflight_capacity(10, 32, 32767) {
        Err(ZkError::CapacityError(_)) => {}
        _ => panic!("expected a capacity error"),
    }
}

#[test]
fn capacity_huge_degree_is_rejected() {
    match preflight_capacity(64, 1, u64::MAX) {
        Err(ZkError::CapacityError(_)) => {}
        _ => panic!("expected a capacity error"),
    }
}

#[test]
fn capacity_zero_cost_rows_fit_any_budget() {
    assert!(preflight_capacity(64, 0, 0).is_ok());
}

#[test]
fn hex_encoding_exact_value() {
    assert_eq!(hex_string(&[0x00, 0xff, 0x1a]), "00ff1a");
    assert_eq!(hex_string(&[]), "");
}

#[test]
fn hex_encoding_matches_reference_encoder() {
    let bytes: Vec<u8> = (0u16..=255).map(|b| b as u8).collect();
    assert_eq!(hex_string(&bytes), hex::encode(&bytes));
}

#[test]
fn decimal_rendering_exact_values() {
    let mut s = String::new();
    append_decimal(&mut s, 0);
    assert_eq!(s, "0");
    let mut t = String::new();
    append_decimal(&mut t, 4203012345);
    assert_eq!(t, "4203012345");
}
