use bdk_ldk_sample::hex_utils::hex_str;
use bdk_ldk_sample::payments::{
    HTLCStatus, MillisatAmount, PaymentHash, PaymentInfo, PaymentInfoStorage, PaymentPreimage,
};
use bdk_ldk_sample::text::{decimal_str, quoted_str};

fn info(amount: u64, status: HTLCStatus) -> PaymentInfo {
    PaymentInfo {
        preimage: Some(PaymentPreimage([9; 32])),
        secret: None,
        status,
        amt_msat: MillisatAmount(Some(amount)),
    }
}

#[test]
fn amounts_are_shown_in_decimal() {
    assert_eq!(MillisatAmount(Some(0)).to_string(), "0");
    assert_eq!(MillisatAmount(Some(1_234_000)).to_string(), "1234000");
    assert_eq!(MillisatAmount(Some(u64::MAX)).to_string(), "18446744073709551615");
}

#[test]
fn missing_amounts_are_unknown() {
    assert_eq!(MillisatAmount(None).to_string(), "unknown");
}

#[test]
fn decimal_digits_read_back() {
    for n in [0u64, 7, 10, 99, 100, 65_535, 9_007_199_254_740_993] {
        assert_eq!(decimal_str(n).parse::<u64>().unwrap(), n);
    }
}

#[test]
fn hexadecimal_has_two_lower_case_digits_per_byte() {
    assert_eq!(hex_str(&[]), "");
    assert_eq!(hex_str(&[0x00, 0x0f, 0xa0, 0xff]), "000fa0ff");
    let all: Vec<u8> = (0..=255).collect();
    let expected: String = all.iter().map(|b| format!("{:02x}", b)).collect();
    assert_eq!(hex_str(&all), expected);
}

#[test]
fn quotes_surround_a_word() {
    assert_eq!(quoted_str("ab"), "\"ab\"");
    assert_eq!(quoted_str(""), format!("{:?}", ""));
}

#[test]
fn hashes_are_compared_byte_by_byte() {
    let a = PaymentHash([1; 32]);
    let mut bytes = [1; 32];
    assert!(a.same_as(&PaymentHash(bytes)));
    bytes[31] = 2;
    assert!(!a.same_as(&PaymentHash(bytes)));
}

#[test]
fn an_empty_storage_knows_nothing() {
    assert_eq!(PaymentInfoStorage::new().get(&PaymentHash([1; 32])), None);
}

#[test]
fn stored_payments_are_found_under_their_hashes() {
    let mut storage = PaymentInfoStorage::new();
    storage.insert(PaymentHash([1; 32]), info(10, HTLCStatus::Pending));
    storage.insert(PaymentHash([2; 32]), info(20, HTLCStatus::Failed));
    assert_eq!(storage.get(&PaymentHash([1; 32])), Some(info(10, HTLCStatus::Pending)));
    assert_eq!(storage.get(&PaymentHash([2; 32])), Some(info(20, HTLCStatus::Failed)));
    assert_eq!(storage.get(&PaymentHash([3; 32])), None);
}

#[test]
fn a_second_insert_replaces_the_first() {
    let mut storage = PaymentInfoStorage::new();
    storage.insert(PaymentHash([1; 32]), info(10, HTLCStatus::Pending));
    storage.insert(PaymentHash([2; 32]), info(20, HTLCStatus::Pending));
    storage.insert(PaymentHash([1; 32]), info(11, HTLCStatus::Succeeded));
    assert_eq!(storage.get(&PaymentHash([1; 32])), Some(info(11, HTLCStatus::Succeeded)));
    assert_eq!(storage.get(&PaymentHash([2; 32])), Some(info(20, HTLCStatus::Pending)));
}

#[test]
fn different_bytes_have_different_hexadecimal_texts() {
    assert_ne!(hex_str(&[0x12, 0x34]), hex_str(&[0x01, 0x23, 0x04]));
    assert_ne!(hex_str(&[0x12]), hex_str(&[0x21]));
}

#[test]
fn different_amounts_have_different_texts() {
    let amounts = [None, Some(0), Some(1), Some(10), Some(100), Some(u64::MAX)];
    for a in amounts {
        for b in amounts {
            let same = MillisatAmount(a).to_string() == MillisatAmount(b).to_string();
            assert_eq!(same, a == b);
        }
    }
}
