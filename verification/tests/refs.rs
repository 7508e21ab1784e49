use crosis::refs::{encode_ref, generate_ref};

#[test]
fn ref_of_the_least_numbers() {
    assert_eq!(encode_ref(100_000_000, 100_000_001), "rcn1hug1szl");
}

#[test]
fn ref_of_the_greatest_numbers() {
    assert_eq!(encode_ref(999_999_998, 999_999_997), "7lieexjdr3zx");
}

#[test]
fn ref_grows_from_eleven_to_twelve_digits() {
    assert_eq!(encode_ref(131_621_703, 842_267_135), "zzzzzzzzzzz");
    assert_eq!(encode_ref(131_621_703, 842_267_136), "100000000000");
}

#[test]
fn order_of_the_numbers_matters() {
    assert_eq!(encode_ref(123_456_789, 987_654_321), "xrls2cusii9");
    assert_ne!(
        encode_ref(123_456_789, 987_654_321),
        encode_ref(987_654_321, 123_456_789)
    );
}

#[test]
fn refs_read_back_as_the_joined_decimal_texts() {
    let text = encode_ref(123_456_789, 987_654_321);
    assert_eq!(u64::from_str_radix(&text, 36).unwrap(), 123_456_789_987_654_321);
}

#[test]
fn generated_refs_have_the_promised_shape() {
    let text = generate_ref();
    assert!(text.len() == 11 || text.len() == 12, "{}", text);
    assert!(text.chars().all(|c| c.is_ascii_digit() || c.is_ascii_lowercase()));
    assert!(!text.starts_with('0'));
    let number = u64::from_str_radix(&text, 36).unwrap();
    let decimal = number.to_string();
    assert_eq!(decimal.len(), 18);
    let first: u32 = decimal[..9].parse().unwrap();
    let second: u32 = decimal[9..].parse().unwrap();
    assert_ne!(first, second);
    assert!(first >= 100_000_000 && first < 999_999_999);
    assert!(second >= 100_000_000 && second < 999_999_999);
    assert_eq!(encode_ref(first, second), text);
}
