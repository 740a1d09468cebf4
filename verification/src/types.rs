//! Wrapper types around the raw secret strings used with the Slack API.
//!
//! A bot token and a signing secret are both plain strings; giving each a type
//! of its own keeps one from being passed where the other is expected.

use vstd::prelude::*;
use vstd::utf8::encode_utf8;

verus! {

/// A Slack bot token.
#[derive(Debug, PartialEq, Eq)]
pub struct Token(String);

impl View for Token {
    type V = Seq<char>;

    closed spec fn view(&self) -> Seq<char> {
        self.0@
    }
}

impl Token {
    /// Wraps the given token text.
    pub fn new(token: &str) -> (r: Self)
        ensures
            r@ == token@,
    {
        Token(token.to_owned())
    }

    /// The token text.
    pub fn as_str(&self) -> (r: &str)
        ensures
            r@ == self@,
    {
        self.0.as_str()
    }
}

impl Clone for Token {
    fn clone(&self) -> (r: Self)
        ensures
            r@ == self@,
    {
        Token(self.0.clone())
    }
}

/// A Slack signing secret: the key shared with Slack under which inbound
/// requests are authenticated.
#[derive(Debug)]
pub struct SigningSecret(String);

impl View for SigningSecret {
    type V = Seq<char>;

    closed spec fn view(&self) -> Seq<char> {
        self.0@
    }
}

impl SigningSecret {
    /// Wraps the given secret text.
    pub fn new(secret: &str) -> (r: Self)
        ensures
            r@ == secret@,
    {
        SigningSecret(secret.to_owned())
    }

    /// The secret text.
    pub fn as_str(&self) -> (r: &str)
        ensures
            r@ == self@,
    {
        self.0.as_str()
    }

    /// The bytes of the secret, which are the key under which requests are
    /// signed.
    pub open spec fn key(&self) -> Seq<u8> {
        encode_utf8(self@)
    }
}

impl Clone for SigningSecret {
    fn clone(&self) -> (r: Self)
        ensures
            r@ == self@,
    {
        SigningSecret(self.0.clone())
    }
}

} // verus!
