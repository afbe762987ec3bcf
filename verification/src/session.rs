//! A player's connection as the login and account flows see it, and the
//! reasons for which the server closes a connection.
use vstd::prelude::*;

verus! {

/// How far a connection has come.
#[derive(Clone, Copy, Debug, PartialEq, Eq, Structural)]
pub enum ClientState {
    Uninitialized,
    Initialized,
    Accepted,
    LoggedIn,
    EnteringGame,
    Playing,
}

/// The state of a player's connection that the login and account flows
/// read and change.
#[derive(Debug)]
pub struct Session {
    pub state: ClientState,
    pub login_attempts: i32,
    pub account_id: i32,
    pub session_id: Option<i32>,
    pub email_pin: Option<String>,
}

/// An outside operation that failed, and that closes the connection.
#[derive(Clone, Copy, Debug, PartialEq, Eq, Structural)]
pub enum Failure {
    GetConnection,
    GetSessionId,
    CheckAccountExists,
    CheckAccountBanned,
    GetPasswordHash,
    UpdateLastLoginIp,
    GetCharacterList,
    CreateAccount,
    UpdatePasswordHash,
    SendRecoveryEmail,
}

/// Why the server closes a connection.
#[derive(Debug, PartialEq, Eq)]
pub enum CloseReason {
    /// A login request before the connection was accepted.
    NotAccepted,
    /// The server holds as many players as it takes.
    ServerBusy,
    /// Too many failed login attempts.
    TooManyLoginAttempts,
    /// The account is banned.
    AccountBanned,
    /// The connection holds no session id to check a request against.
    NoSessionId,
    /// The session id of a request is not the one the server handed out.
    WrongSessionId { expected: i32, got: i32 },
    /// The client's sequence number is not the one expected.
    InvalidSequence { got: u32, expected: u32 },
    /// The packet's action byte names no action.
    InvalidPacketAction,
    /// The packet's family byte names no family.
    InvalidPacketFamily,
    /// An outside operation failed, with its error text.
    Failed(Failure, String),
}

} // verus!
