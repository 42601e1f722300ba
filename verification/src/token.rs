//! The credential cell: the bearer token that every authenticated call presents.
//!
//! The cell holds one token for all calls. It is empty when the process
//! starts and is replaced as a whole by each successful login. It keeps no
//! expiry: that a token has gone stale shows only when the provider refuses it.
//! Sharing the cell between concurrent calls is the caller's business: reads
//! take `&self`, the one write takes `&mut self`, so that whatever lock guards
//! the cell hands out many readers or one writer.

use crate::error::Error;
use crate::upstream::LoginResponse;
use vstd::prelude::*;

verus! {

/// The bearer token as the provider handed it out. Opaque to this library.
#[derive(Debug)]
pub struct DefaultTokenData(String);

impl View for DefaultTokenData {
    type V = Seq<char>;

    closed spec fn view(&self) -> Seq<char> {
        self.0@
    }
}

impl Clone for DefaultTokenData {
    fn clone(&self) -> (r: Self)
        ensures
            r@ == self@,
    {
        DefaultTokenData(self.0.clone())
    }
}

impl DefaultTokenData {
    pub fn new(token: String) -> (r: DefaultTokenData)
        ensures
            r@ == token@,
    {
        DefaultTokenData(token)
    }

    /// The token as text.
    pub fn to_string(&self) -> (r: String)
        ensures
            r@ == self@,
    {
        self.0.clone()
    }
}

/// The cell that holds the current token.
pub struct Token {
    token: DefaultTokenData,
}

impl View for Token {
    type V = Seq<char>;

    closed spec fn view(&self) -> Seq<char> {
        self.token@
    }
}

impl Default for Token {
    fn default() -> (r: Token)
        ensures
            r@ == Seq::<char>::empty(),
    {
        Token::new()
    }
}

impl Token {
    /// The cell as it is when the process starts: it holds the empty token.
    pub fn new() -> (r: Token)
        ensures
            r@ == Seq::<char>::empty(),
    {
        Token { token: DefaultTokenData(String::new()) }
    }

    /// The token that the cell holds now.
    pub fn token(&self) -> (r: String)
        ensures
            r@ == self@,
    {
        self.token.clone().to_string()
    }

    /// Replaces the token. This always succeeds, and nothing of the old token
    /// is left.
    pub fn set_token(&mut self, token: String) -> (r: Result<(), Error>)
        ensures
            r is Ok,
            final(self)@ == token@,
    {
        self.token = DefaultTokenData(token);
        Ok(())
    }

    /// Ends a login: the session token of the provider's answer becomes the
    /// token of the cell.
    pub fn login(&mut self, answer: LoginResponse) -> (r: Result<(), Error>)
        ensures
            r is Ok,
            final(self)@ == answer@.token,
    {
        self.set_token(answer.token)
    }
}

} // verus!
