use axum_jwks::Token;

#[test]
fn debug_does_not_contain_value() {
    let token_value = "some-secret-value";
    let token = Token::new(token_value.to_owned());
    let debug = token.redacted();

    assert!(
        !debug.contains(token_value),
        "The debug representation of the token {:?} should not contain the raw token value {:?}",
        debug,
        token_value,
    );
}

#[test]
fn value_returns_the_wrapped_string() {
    let token = Token::new("some-token-value".to_owned());
    assert_eq!(token.value(), "some-token-value");
}
