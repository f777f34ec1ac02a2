use transaction_processor::util::{clean, get_optional_string};

#[test]
fn test_get_optional_string() {
    let s = "";
    let o = get_optional_string(s);
    assert_eq!(o, Option::None);

    let s = "   ";
    let o = get_optional_string(s);
    assert_eq!(o, Option::None);

    let s = "\tfoo ";
    let o = get_optional_string(s);
    assert_eq!(o, Option::Some(String::from("\tfoo ")))
}

#[test]
fn clean_trims_and_joins_lines() {
    assert_eq!(clean("  Internet\ntransfer \n"), "Internet transfer");
    assert_eq!(clean(""), "");
    assert_eq!(clean(" \t "), "");
    assert_eq!(clean("a\n\nb"), "a  b");
}
