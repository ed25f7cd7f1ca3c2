//! Credentials, session records and the errors of the login handshake.

use crate::text::same_text;
use vstd::prelude::*;
use vstd::string::*;

verus! {

/// The session id that stands for "no authenticated session": 16 zeros.
pub open spec fn sentinel_sid() -> Seq<char> {
    seq!['0', '0', '0', '0', '0', '0', '0', '0', '0', '0', '0', '0', '0', '0', '0', '0']
}

/// Where the router is and who logs in.
pub struct Config {
    pub base_url: String,
    pub username: String,
    pub password: String,
}

pub ghost struct ConfigView {
    pub base_url: Seq<char>,
    pub username: Seq<char>,
    pub password: Seq<char>,
}

impl View for Config {
    type V = ConfigView;

    open spec fn view(&self) -> ConfigView {
        ConfigView {
            base_url: self.base_url@,
            username: self.username@,
            password: self.password@,
        }
    }
}

impl Config {
    pub fn new(base_url: &str, username: &str, password: &str) -> (r: Config)
        ensures
            r@ == (ConfigView { base_url: base_url@, username: username@, password: password@ }),
    {
        Config {
            base_url: base_url.to_owned(),
            username: username.to_owned(),
            password: password.to_owned(),
        }
    }
}

/// One answer of the session endpoint: a challenge while `sid` is the
/// sentinel, an authenticated session once it is anything else.
pub struct Session {
    pub sid: String,
    pub challenge: String,
    pub block_time: i64,
}

pub ghost struct SessionView {
    pub sid: Seq<char>,
    pub challenge: Seq<char>,
    pub block_time: int,
}

impl SessionView {
    /// The record that a client holds before any login.
    pub open spec fn empty() -> SessionView {
        SessionView { sid: sentinel_sid(), challenge: Seq::empty(), block_time: 0 }
    }

    /// A session is valid exactly when its id is not the sentinel.
    pub open spec fn valid(self) -> bool {
        self.sid != sentinel_sid()
    }
}

impl View for Session {
    type V = SessionView;

    open spec fn view(&self) -> SessionView {
        SessionView {
            sid: self.sid@,
            challenge: self.challenge@,
            block_time: self.block_time as int,
        }
    }
}

impl Default for Session {
    fn default() -> (r: Self)
        ensures
            r@ == SessionView::empty(),
    {
        proof {
            reveal_strlit("0000000000000000");
            assert("0000000000000000"@ =~= sentinel_sid());
        }
        Session { sid: "0000000000000000".to_owned(), challenge: String::new(), block_time: 0 }
    }
}

impl Session {
    pub fn new(sid: &str, challenge: &str, block_time: i64) -> (r: Session)
        ensures
            r@ == (SessionView { sid: sid@, challenge: challenge@, block_time: block_time as int }),
    {
        Session { sid: sid.to_owned(), challenge: challenge.to_owned(), block_time }
    }

    /// True exactly when `sid` is the sentinel, that is when the record
    /// carries no authenticated session.
    pub fn is_default_sid(&self) -> (r: bool)
        ensures
            r == !self@.valid(),
    {
        proof {
            reveal_strlit("0000000000000000");
            assert("0000000000000000"@ =~= sentinel_sid());
        }
        same_text(self.sid.as_str(), "0000000000000000")
    }
}

/// A lower or upper case hexadecimal digit.
pub open spec fn is_hex_digit(c: char) -> bool {
    ('0' <= c && c <= '9') || ('a' <= c && c <= 'f') || ('A' <= c && c <= 'F')
}

/// A session id as the router writes them: 16 hexadecimal digits.
pub open spec fn is_sid(sid: Seq<char>) -> bool {
    sid.len() == 16 && forall|i: int| 0 <= i < sid.len() ==> is_hex_digit(#[trigger] sid[i])
}

/// The sentinel is a session id of 16 hexadecimal digits, a session that
/// carries it is invalid, and a session with any other id of 16
/// hexadecimal digits is valid, whatever number the id stands for.
pub proof fn lemma_session_validity(session: SessionView)
    ensures
        is_sid(sentinel_sid()),
        session.sid == sentinel_sid() ==> !session.valid(),
        is_sid(session.sid) && session.sid != sentinel_sid() ==> session.valid(),
{
}

/// The login was answered with the sentinel id: wrong credentials, or the
/// router still blocks logins.
pub struct LoginError;

impl LoginError {
    pub fn boxed() -> (r: Box<Self>)
        ensures
            *r == LoginError,
    {
        Box::new(LoginError)
    }

    /// What to tell the user.
    pub fn message(&self) -> (r: String)
        ensures
            r@ == "Login was not successful!"@,
    {
        "Login was not successful!".to_owned()
    }
}

/// Why a request that needs a session could not be made.
#[derive(Clone, Copy, PartialEq, Eq, Structural, Debug)]
pub enum AuthError {
    /// The router answered the login with the sentinel id.
    Rejected,
    /// No login has succeeded yet.
    NotLoggedIn,
}

/// Why a command failed.
pub enum ClientError {
    /// The request could not be sent or no response came back.
    Transport(String),
    /// The response was not the XML or JSON that was asked for.
    Decode(String),
    Auth(AuthError),
    /// A reply came that the command did not wait for.
    UnexpectedReply,
}

/// The kind of a failure, without its text.
pub enum Failure {
    Transport,
    Decode,
    Rejected,
    NotLoggedIn,
    UnexpectedReply,
}

impl View for ClientError {
    type V = Failure;

    open spec fn view(&self) -> Failure {
        match self {
            ClientError::Transport(_) => Failure::Transport,
            ClientError::Decode(_) => Failure::Decode,
            ClientError::Auth(AuthError::Rejected) => Failure::Rejected,
            ClientError::Auth(AuthError::NotLoggedIn) => Failure::NotLoggedIn,
            ClientError::UnexpectedReply => Failure::UnexpectedReply,
        }
    }
}

impl ClientError {
    /// The text of the failure: what the transport or the decoder said, or
    /// a fixed sentence.
    pub open spec fn text(&self) -> Seq<char> {
        match self {
            ClientError::Transport(text) => text@,
            ClientError::Decode(text) => text@,
            ClientError::Auth(AuthError::Rejected) => "Login was not successful!"@,
            ClientError::Auth(AuthError::NotLoggedIn) => "Not logged in!"@,
            ClientError::UnexpectedReply => "Unexpected reply!"@,
        }
    }

    pub fn message(&self) -> (r: String)
        ensures
            r@ == self.text(),
    {
        match self {
            ClientError::Transport(text) => text.clone(),
            ClientError::Decode(text) => text.clone(),
            ClientError::Auth(AuthError::Rejected) => LoginError.message(),
            ClientError::Auth(AuthError::NotLoggedIn) => "Not logged in!".to_owned(),
            ClientError::UnexpectedReply => "Unexpected reply!".to_owned(),
        }
    }
}

} // verus!
