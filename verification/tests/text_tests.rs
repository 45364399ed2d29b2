use vdebugger::text::{str_to_addr, str_to_reg_value, tokenize, u64_to_dec, u64_to_hex16};

#[test]
fn parses_hex_with_and_without_prefix() {
    assert_eq!(str_to_addr("0x400000"), Some(0x400000));
    assert_eq!(str_to_addr("400000"), Some(0x400000));
    assert_eq!(str_to_addr("0xDEADbeef"), Some(0xdeadbeef));
    assert_eq!(str_to_addr("0x0"), Some(0));
    assert_eq!(str_to_addr("0xffffffffffffffff"), Some(u64::MAX));
}

#[test]
fn rejects_malformed_hex() {
    assert_eq!(str_to_addr(""), None);
    assert_eq!(str_to_addr("0x"), None);
    assert_eq!(str_to_addr("0xg1"), None);
    assert_eq!(str_to_addr("12 34"), None);
    assert_eq!(str_to_addr("-4"), None);
    assert_eq!(str_to_addr("0X10"), None);
}

#[test]
fn rejects_values_over_64_bits() {
    assert_eq!(str_to_addr("0x10000000000000000"), None);
    assert_eq!(str_to_addr("0xffffffffffffffffff"), None);
    // Seventeen digits whose value still does not fit.
    assert_eq!(str_to_reg_value("12345678901234567"), None);
}

#[test]
fn reg_value_parsing_agrees_with_addresses() {
    assert_eq!(str_to_reg_value("0x2a"), Some(42));
    assert_eq!(str_to_reg_value("2a"), Some(42));
    assert_eq!(str_to_reg_value("zz"), None);
}

#[test]
fn decimal_formatting() {
    assert_eq!(u64_to_dec(0), "0");
    assert_eq!(u64_to_dec(42), "42");
    assert_eq!(u64_to_dec(10), "10");
    assert_eq!(u64_to_dec(16045690984503098046), "16045690984503098046");
    assert_eq!(u64_to_dec(u64::MAX), "18446744073709551615");
}

#[test]
fn hex16_formatting() {
    assert_eq!(u64_to_hex16(0), "0000000000000000");
    assert_eq!(u64_to_hex16(0x2a), "000000000000002a");
    assert_eq!(u64_to_hex16(0xdeadbeefcafebabe), "deadbeefcafebabe");
    assert_eq!(u64_to_hex16(u64::MAX), "ffffffffffffffff");
}

#[test]
fn tokenization_splits_on_whitespace() {
    assert_eq!(tokenize("register read rax"), vec!["register", "read", "rax"]);
    assert_eq!(tokenize("  break\t0x1000  "), vec!["break", "0x1000"]);
    assert_eq!(tokenize(""), Vec::<String>::new());
    assert_eq!(tokenize(" \t "), Vec::<String>::new());
    assert_eq!(tokenize("exit"), vec!["exit"]);
}
