use enet_gw_api::text::{bool_string, decimal_string, error_chain, option_string, quote};

#[test]
fn decimal_numbers() {
    assert_eq!(decimal_string(0), "0");
    assert_eq!(decimal_string(7), "7");
    assert_eq!(decimal_string(10), "10");
    assert_eq!(decimal_string(4294967295), "4294967295");
    assert_eq!(decimal_string(u64::MAX), u64::MAX.to_string());
    for n in 0..2000u64 {
        assert_eq!(decimal_string(n), n.to_string());
    }
}

#[test]
fn booleans_and_options() {
    assert_eq!(bool_string(true), "true");
    assert_eq!(bool_string(false), "false");
    assert_eq!(option_string(Some(0)), "Some(0)");
    assert_eq!(option_string(Some(255)), "Some(255)");
    assert_eq!(option_string(None), "None");
}

#[test]
fn quoting() {
    assert_eq!(quote("all on"), "\"all on\"");
    assert_eq!(quote(""), "\"\"");
}

#[test]
fn error_chains() {
    assert_eq!(error_chain(&vec![]), "");
    assert_eq!(error_chain(&vec!["only".to_string()]), "only");
    assert_eq!(
        error_chain(&vec!["a".to_string(), "b".to_string(), "c".to_string()]),
        "a: b: c"
    );
}
