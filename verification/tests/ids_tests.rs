use backend::ids::format_uuid;
use uuid::Uuid;

#[test]
fn uuid_text_is_hyphenated_lower_case_hex() {
    assert_eq!(format_uuid(0), "00000000-0000-0000-0000-000000000000");
    assert_eq!(format_uuid(1), "00000000-0000-0000-0000-000000000001");
    assert_eq!(
        format_uuid(0xa1a2a3a4b1b2c1c2d1d2d3d4d5d6d7d8),
        "a1a2a3a4-b1b2-c1c2-d1d2-d3d4d5d6d7d8"
    );
    assert_eq!(format_uuid(u128::MAX), "ffffffff-ffff-ffff-ffff-ffffffffffff");
}

#[test]
fn uuid_text_agrees_with_the_uuid_crate() {
    let mut id: u128 = 0x0123456789abcdef0fedcba987654321;
    for _ in 0..200 {
        assert_eq!(format_uuid(id), Uuid::from_u128(id).to_string());
        id = id.wrapping_mul(0x2545f4914f6cdd1d2545f4914f6cdd1d).wrapping_add(0x9e3779b97f4a7c15);
    }
}

#[test]
fn uuid_text_is_read_back_by_the_uuid_crate() {
    let id: u128 = 0x550e8400e29b41d4a716446655440000;
    assert_eq!(Uuid::parse_str(&format_uuid(id)).unwrap().as_u128(), id);
}
