use slack_rs::{SigningSecret, Token};

#[test]
fn token_keeps_its_text() {
    let token = Token::new("test-token");
    assert_eq!(token.as_str(), "test-token");
}

#[test]
fn signing_secret_keeps_its_text() {
    let secret = SigningSecret::new("test-secret");
    assert_eq!(secret.as_str(), "test-secret");
}

#[test]
fn token_and_secret_survive_a_clone() {
    let token = Token::new("xoxb-1");
    assert_eq!(token.clone().as_str(), "xoxb-1");
    let secret = SigningSecret::new("");
    assert_eq!(secret.clone().as_str(), "");
}
