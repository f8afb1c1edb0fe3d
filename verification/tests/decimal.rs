use smart_contract_pro::decimal::decimal_string;

#[test]
fn decimal_of_small_and_large_numbers() {
    assert_eq!(decimal_string(0), "0");
    assert_eq!(decimal_string(7), "7");
    assert_eq!(decimal_string(10), "10");
    assert_eq!(decimal_string(123), "123");
    assert_eq!(decimal_string(1000), "1000");
    assert_eq!(decimal_string(u128::MAX), "340282366920938463463374607431768211455");
}

#[test]
fn decimal_matches_to_string() {
    for n in [1u128, 9, 11, 99, 100, 101, 65535, 1 << 64, (1 << 100) + 3] {
        assert_eq!(decimal_string(n), n.to_string());
    }
}

