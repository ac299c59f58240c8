use core::cmp::Ordering;
use crowdfund::identifier::{ConversionError, MyAccountId, MyHash};

#[test]
fn account_id_from_bytes_roundtrip() {
    let bytes: Vec<u8> = (0u8..16u8).collect();
    let id = MyAccountId::from_bytes(&bytes).unwrap();
    assert_eq!(id.as_bytes(), &bytes[..]);
}

#[test]
fn hash_from_bytes_roundtrip() {
    let bytes: Vec<u8> = (100u8..132u8).collect();
    let h = MyHash::from_bytes(&bytes).unwrap();
    assert_eq!(h.as_bytes(), &bytes[..]);
}

#[test]
fn account_id_from_bytes_rejects_wrong_length() {
    assert_eq!(
        MyAccountId::from_bytes(&[0u8; 15]),
        Err(ConversionError::LengthMismatch)
    );
    assert!(matches!(
        MyAccountId::from_bytes(&[0u8; 17]),
        Err(ConversionError::LengthMismatch)
    ));
    assert!(matches!(
        MyAccountId::from_bytes(&[]),
        Err(ConversionError::LengthMismatch)
    ));
    assert!(MyAccountId::from_bytes(&[0u8; 16]).is_ok());
}

#[test]
fn hash_from_bytes_rejects_wrong_length() {
    assert!(matches!(
        MyHash::from_bytes(&[0u8; 31]),
        Err(ConversionError::LengthMismatch)
    ));
    assert!(matches!(
        MyHash::from_bytes(&[0u8; 33]),
        Err(ConversionError::LengthMismatch)
    ));
    assert!(matches!(
        MyHash::from_bytes(&[0u8; 16]),
        Err(ConversionError::LengthMismatch)
    ));
    assert!(MyHash::from_bytes(&[0u8; 32]).is_ok());
}

#[test]
fn clear_value_is_clear() {
    let c = MyHash::clear_value();
    assert!(c.is_clear());
    assert_eq!(c.as_bytes(), &[0u8; 32][..]);
    let zero = MyHash::from_bytes(&[0u8; 32]).unwrap();
    assert!(zero.is_clear());
}

#[test]
fn nonzero_hash_is_not_clear() {
    let mut bytes = [0u8; 32];
    bytes[31] = 1;
    let h = MyHash::from_bytes(&bytes).unwrap();
    assert!(!h.is_clear());
    let all_ones = MyHash::from_bytes(&[0xffu8; 32]).unwrap();
    assert!(!all_ones.is_clear());
}

#[test]
fn identical_bytes_agree_on_eq_ord_hash() {
    let bytes: Vec<u8> = (7u8..23u8).collect();
    let a = MyAccountId::from_bytes(&bytes).unwrap();
    let b = MyAccountId::from_bytes(&bytes).unwrap();
    assert!(a == b);
    assert_eq!(a.partial_cmp(&b), Some(Ordering::Equal));
    assert_eq!(a.hash_code(), b.hash_code());

    let hb: Vec<u8> = (1u8..33u8).collect();
    let ha = MyHash::from_bytes(&hb).unwrap();
    let hc = MyHash::from_bytes(&hb).unwrap();
    assert!(ha == hc);
    assert_eq!(ha.partial_cmp(&hc), Some(Ordering::Equal));
    assert_eq!(ha.hash_code(), hc.hash_code());
}

#[test]
fn ordering_is_lexicographic_byte_comparison() {
    let mut lo = [5u8; 16];
    let mut hi = [5u8; 16];
    lo[3] = 1;
    hi[3] = 2;
    hi[4] = 0;
    let a = MyAccountId::from_bytes(&lo).unwrap();
    let b = MyAccountId::from_bytes(&hi).unwrap();
    assert_eq!(a.partial_cmp(&b), Some(Ordering::Less));
    assert_eq!(b.partial_cmp(&a), Some(Ordering::Greater));
    assert!(a < b);
    assert!(a != b);
    assert_ne!(a.hash_code(), b.hash_code());
}

#[test]
fn hash_code_matches_the_byte_fold() {
    // The hash is an FNV-1a style fold over the bytes; these expected values
    // were computed independently from the same seed and prime.
    let zero = MyAccountId::from_bytes(&[0u8; 16]).unwrap();
    assert_eq!(zero.hash_code(), 0x88201fb960ff6465);
    let bytes: Vec<u8> = (7u8..23u8).collect();
    let id = MyAccountId::from_bytes(&bytes).unwrap();
    assert_eq!(id.hash_code(), 0xf077234ed43bf155);
}

#[test]
fn encode_is_the_raw_bytes() {
    let bytes: Vec<u8> = (50u8..66u8).collect();
    let id = MyAccountId::from_bytes(&bytes).unwrap();
    assert_eq!(id.encode(), bytes);

    let hb: Vec<u8> = (200u8..232u8).collect();
    let h = MyHash::from_bytes(&hb).unwrap();
    assert_eq!(h.encode(), hb);
}

#[test]
fn set_byte_updates_in_place() {
    let mut id = MyAccountId::from_bytes(&[0u8; 16]).unwrap();
    id.set_byte(0, 42);
    id.set_byte(15, 7);
    let mut expected = [0u8; 16];
    expected[0] = 42;
    expected[15] = 7;
    assert_eq!(id.as_bytes(), &expected[..]);

    let mut h = MyHash::clear_value();
    h.set_byte(31, 1);
    assert!(!h.is_clear());
}

#[test]
fn from_fixed_array() {
    let arr = [9u8; 16];
    let id = MyAccountId::from(arr);
    assert_eq!(id.as_bytes(), &arr[..]);

    let harr = [3u8; 32];
    let h = MyHash::from(harr);
    assert_eq!(h.as_bytes(), &harr[..]);
}
