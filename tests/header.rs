use pmanager::header::bearer_token;

#[test]
fn bearer_token_takes_last_word() {
    assert_eq!(bearer_token("Bearer abc.def.ghi"), Some("abc.def.ghi"));
    assert_eq!(bearer_token("abc"), Some("abc"));
    assert_eq!(bearer_token("Bearer   tok  \t "), Some("tok"));
    assert_eq!(bearer_token("a b c"), Some("c"));
}

#[test]
fn bearer_token_none_without_word() {
    assert_eq!(bearer_token(""), None);
    assert_eq!(bearer_token("   \t\r\n"), None);
}

#[test]
fn bearer_token_refuses_non_ascii() {
    assert_eq!(bearer_token("Bearer tök"), None);
}
