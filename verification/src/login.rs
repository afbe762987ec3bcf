//! The login family of packets: logging in, and recovering an account by
//! email. Each request that waits on the database or the world is a state
//! machine: a step takes the answer to the last thing asked for, changes
//! the connection's state, and says what to ask or send next.
use crate::data::{AccountSettings, ServerSettings};
use crate::packets::{decode_login_request, login_request_fields, LoginRequestPacket};
use crate::session::{ClientState, CloseReason, Failure, Session};
use vstd::prelude::*;

verus! {

/// The answer to a login request.
#[derive(Clone, Copy, Debug, PartialEq, Eq, Structural)]
pub enum LoginReply {
    WrongUser,
    WrongUserPassword,
    OK,
    Banned,
    LoggedIn,
    Busy,
}

/// Where a login request stands.
#[derive(Clone, Copy, Debug, PartialEq, Eq, Structural)]
pub enum LoginStage {
    AwaitPlayerCount,
    AwaitConnection,
    AwaitAccountExists,
    AwaitAccountBanned,
    AwaitPasswordHash,
    AwaitPasswordCheck { account_id: i32 },
    AwaitLoggedInCheck { account_id: i32 },
    AwaitLastLoginIp { account_id: i32 },
    AwaitCharacterList { account_id: i32 },
    Finished,
}

/// An answer from the world or the database.
#[derive(Debug, PartialEq, Eq)]
pub enum LoginEvent {
    /// How many players are online.
    PlayerCount(i32),
    /// Whether a database connection was had, or its error.
    Connection(Result<(), String>),
    /// Whether the account exists.
    AccountExists(Result<bool, String>),
    /// Whether the account is banned.
    AccountBanned(Result<bool, String>),
    /// The account's id and password hash.
    PasswordHash(Result<(i32, String), String>),
    /// Whether the password matches the hash.
    PasswordValid(bool),
    /// Whether the account is logged in already.
    AccountLoggedIn(bool),
    /// Whether the last login address was recorded.
    LastLoginIpUpdated(Result<(), String>),
    /// Whether the account's character list was read.
    CharacterList(Result<(), String>),
}

/// What the login request does next.
#[derive(Debug, PartialEq, Eq)]
pub enum LoginAction {
    GetPlayerCount,
    GetConnection,
    CheckAccountExists,
    CheckAccountBanned,
    GetPasswordHash,
    /// Check the password given for account `name` against the stored hash.
    ValidatePassword { name: String, password: String, hash: String },
    CheckLoggedIn(i32),
    UpdateLastLoginIp(i32),
    GetCharacterList(i32),
    /// Mark the account as logged in with the world.
    AddLoggedInAccount(i32),
    /// Send this reply (`OK` carries the character list just read).
    Reply(LoginReply),
    Close(CloseReason),
}

/// A login request in progress.
#[derive(Debug)]
pub struct LoginRequest {
    pub username: String,
    pub password: String,
    pub stage: LoginStage,
}

/// The close for a failed outside operation.
pub open spec fn fail_close(f: Failure, e: String) -> Seq<LoginAction> {
    seq![LoginAction::Close(CloseReason::Failed(f, e))]
}

/// What a failed attempt leads to: the close when the attempts reach the
/// limit, else the reply.
pub open spec fn failed_attempt(attempts: int, max_attempts: i32, reply: LoginReply) -> Seq<LoginAction> {
    if attempts >= max_attempts {
        seq![LoginAction::Close(CloseReason::TooManyLoginAttempts)]
    } else {
        seq![LoginAction::Reply(reply)]
    }
}

/// One step of a login request: the next stage, the login attempts
/// counted, the account that logs in (if it does now), and the actions.
pub open spec fn login_step(
    stage: LoginStage,
    attempts: int,
    event: LoginEvent,
    username: String,
    password: String,
    server: ServerSettings,
) -> (
    LoginStage,
    int,
    Option<i32>,
    Seq<LoginAction>,
) {
    match (stage, event) {
        (LoginStage::AwaitPlayerCount, LoginEvent::PlayerCount(n)) => if n >= server.max_players {
            (
                LoginStage::Finished,
                attempts,
                None,
                seq![LoginAction::Reply(LoginReply::Busy), LoginAction::Close(CloseReason::ServerBusy)],
            )
        } else {
            (LoginStage::AwaitConnection, attempts, None, seq![LoginAction::GetConnection])
        },
        (LoginStage::AwaitConnection, LoginEvent::Connection(r)) => match r {
            Ok(_) => (LoginStage::AwaitAccountExists, attempts, None, seq![LoginAction::CheckAccountExists]),
            Err(e) => (LoginStage::Finished, attempts, None, fail_close(Failure::GetConnection, e)),
        },
        (LoginStage::AwaitAccountExists, LoginEvent::AccountExists(r)) => match r {
            Ok(exists) => if exists {
                (LoginStage::AwaitAccountBanned, attempts + 1, None, seq![LoginAction::CheckAccountBanned])
            } else {
                (
                    LoginStage::Finished,
                    attempts + 1,
                    None,
                    failed_attempt(attempts + 1, server.max_login_attempts, LoginReply::WrongUser),
                )
            },
            Err(e) => (LoginStage::Finished, attempts, None, fail_close(Failure::CheckAccountExists, e)),
        },
        (LoginStage::AwaitAccountBanned, LoginEvent::AccountBanned(r)) => match r {
            Ok(banned) => if banned {
                (
                    LoginStage::Finished,
                    attempts,
                    None,
                    seq![LoginAction::Reply(LoginReply::Banned), LoginAction::Close(CloseReason::AccountBanned)],
                )
            } else {
                (LoginStage::AwaitPasswordHash, attempts, None, seq![LoginAction::GetPasswordHash])
            },
            Err(e) => (LoginStage::Finished, attempts, None, fail_close(Failure::CheckAccountBanned, e)),
        },
        (LoginStage::AwaitPasswordHash, LoginEvent::PasswordHash(r)) => match r {
            Ok((id, hash)) => (
                LoginStage::AwaitPasswordCheck { account_id: id },
                attempts,
                None,
                seq![LoginAction::ValidatePassword { name: username, password, hash }],
            ),
            Err(e) => (LoginStage::Finished, attempts, None, fail_close(Failure::GetPasswordHash, e)),
        },
        (LoginStage::AwaitPasswordCheck { account_id }, LoginEvent::PasswordValid(valid)) => if valid {
            (LoginStage::AwaitLoggedInCheck { account_id }, attempts, None, seq![LoginAction::CheckLoggedIn(account_id)])
        } else {
            (
                LoginStage::Finished,
                attempts,
                None,
                failed_attempt(attempts, server.max_login_attempts, LoginReply::WrongUserPassword),
            )
        },
        (LoginStage::AwaitLoggedInCheck { account_id }, LoginEvent::AccountLoggedIn(logged_in)) => if logged_in {
            (
                LoginStage::Finished,
                attempts,
                None,
                failed_attempt(attempts, server.max_login_attempts, LoginReply::LoggedIn),
            )
        } else {
            (LoginStage::AwaitLastLoginIp { account_id }, attempts, None, seq![LoginAction::UpdateLastLoginIp(account_id)])
        },
        (LoginStage::AwaitLastLoginIp { account_id }, LoginEvent::LastLoginIpUpdated(r)) => match r {
            Ok(_) => (
                LoginStage::AwaitCharacterList { account_id },
                attempts,
                None,
                seq![LoginAction::GetCharacterList(account_id)],
            ),
            Err(e) => (LoginStage::Finished, attempts, None, fail_close(Failure::UpdateLastLoginIp, e)),
        },
        (LoginStage::AwaitCharacterList { account_id }, LoginEvent::CharacterList(r)) => match r {
            Ok(_) => (
                LoginStage::Finished,
                attempts,
                Some(account_id),
                seq![LoginAction::AddLoggedInAccount(account_id), LoginAction::Reply(LoginReply::OK)],
            ),
            Err(e) => (LoginStage::Finished, attempts, None, fail_close(Failure::GetCharacterList, e)),
        },
        _ => (LoginStage::Finished, attempts, None, Seq::empty()),
    }
}


/// A login request run through the answers `events` in turn: the final
/// stage, the attempts counted, the account that logged in (if one did),
/// and all the actions.
pub open spec fn login_run(
    stage: LoginStage,
    attempts: int,
    events: Seq<LoginEvent>,
    username: String,
    password: String,
    server: ServerSettings,
) -> (
    LoginStage,
    int,
    Option<i32>,
    Seq<LoginAction>,
)
    decreases events.len(),
{
    if events.len() == 0 {
        (stage, attempts, None, Seq::empty())
    } else {
        let r = login_step(stage, attempts, events[0], username, password, server);
        let rest = login_run(r.0, r.1, events.drop_first(), username, password, server);
        (rest.0, rest.1, if r.2 is Some { r.2 } else { rest.2 }, r.3 + rest.3)
    }
}

/// The account that a login passing every check from `stage` on logs in:
/// the server has room, the database answers, the account exists and is
/// not banned, the password matches, the account is not logged in
/// already, and its login address and character list are stored and
/// read. `None` when a check fails.
pub open spec fn login_passes(stage: LoginStage, events: Seq<LoginEvent>, server: ServerSettings) -> Option<i32>
    decreases events.len(),
{
    if events.len() == 0 {
        None
    } else {
        let rest = events.drop_first();
        match (stage, events[0]) {
            (LoginStage::AwaitPlayerCount, LoginEvent::PlayerCount(n)) => if n < server.max_players {
                login_passes(LoginStage::AwaitConnection, rest, server)
            } else {
                None
            },
            (LoginStage::AwaitConnection, LoginEvent::Connection(Ok(_))) => login_passes(
                LoginStage::AwaitAccountExists,
                rest,
                server,
            ),
            (LoginStage::AwaitAccountExists, LoginEvent::AccountExists(Ok(true))) => login_passes(
                LoginStage::AwaitAccountBanned,
                rest,
                server,
            ),
            (LoginStage::AwaitAccountBanned, LoginEvent::AccountBanned(Ok(false))) => login_passes(
                LoginStage::AwaitPasswordHash,
                rest,
                server,
            ),
            (LoginStage::AwaitPasswordHash, LoginEvent::PasswordHash(Ok((id, _)))) => login_passes(
                LoginStage::AwaitPasswordCheck { account_id: id },
                rest,
                server,
            ),
            (LoginStage::AwaitPasswordCheck { account_id }, LoginEvent::PasswordValid(true)) => login_passes(
                LoginStage::AwaitLoggedInCheck { account_id },
                rest,
                server,
            ),
            (LoginStage::AwaitLoggedInCheck { account_id }, LoginEvent::AccountLoggedIn(false)) => login_passes(
                LoginStage::AwaitLastLoginIp { account_id },
                rest,
                server,
            ),
            (LoginStage::AwaitLastLoginIp { account_id }, LoginEvent::LastLoginIpUpdated(Ok(_))) => login_passes(
                LoginStage::AwaitCharacterList { account_id },
                rest,
                server,
            ),
            (LoginStage::AwaitCharacterList { account_id }, LoginEvent::CharacterList(Ok(_))) => Some(account_id),
            _ => None,
        }
    }
}

/// A finished request does nothing more.
pub proof fn lemma_finished_run(
    attempts: int,
    events: Seq<LoginEvent>,
    username: String,
    password: String,
    server: ServerSettings,
)
    ensures
        login_run(LoginStage::Finished, attempts, events, username, password, server).2 is None,
        login_run(LoginStage::Finished, attempts, events, username, password, server).1 == attempts,
        login_run(LoginStage::Finished, attempts, events, username, password, server).3.len() == 0,
    decreases events.len(),
{
    if events.len() > 0 {
        lemma_finished_run(attempts, events.drop_first(), username, password, server);
    }
}

/// A login request logs an account in exactly when every check passes, in
/// order, whatever the attempts counted so far.
pub proof fn law_login_only_when_every_check_passes(
    stage: LoginStage,
    attempts: int,
    events: Seq<LoginEvent>,
    username: String,
    password: String,
    server: ServerSettings,
)
    ensures
        login_run(stage, attempts, events, username, password, server).2 == login_passes(stage, events, server),
    decreases events.len(),
{
    if events.len() > 0 {
        let r = login_step(stage, attempts, events[0], username, password, server);
        law_login_only_when_every_check_passes(r.0, r.1, events.drop_first(), username, password, server);
        if r.0 == LoginStage::Finished {
            lemma_finished_run(r.1, events.drop_first(), username, password, server);
        }
    }
}

/// A login request marks an account logged in with the world only for
/// the account it logs in: every `AddLoggedInAccount` of a run names the
/// account that passed every check.
pub proof fn law_marks_only_the_account_logged_in(
    stage: LoginStage,
    attempts: int,
    events: Seq<LoginEvent>,
    username: String,
    password: String,
    server: ServerSettings,
    k: int,
    id: i32,
)
    requires
        0 <= k < login_run(stage, attempts, events, username, password, server).3.len(),
        login_run(stage, attempts, events, username, password, server).3[k] == LoginAction::AddLoggedInAccount(id),
    ensures
        login_passes(stage, events, server) == Some(id),
    decreases events.len(),
{
    law_login_only_when_every_check_passes(stage, attempts, events, username, password, server);
    if events.len() > 0 {
        let r = login_step(stage, attempts, events[0], username, password, server);
        let rest = login_run(r.0, r.1, events.drop_first(), username, password, server);
        if r.0 == LoginStage::Finished {
            lemma_finished_run(r.1, events.drop_first(), username, password, server);
        }
        if k < r.3.len() {
            assert(r.3[k] == LoginAction::AddLoggedInAccount(id));
        } else {
            assert(rest.3[k - r.3.len()] == LoginAction::AddLoggedInAccount(id));
            law_marks_only_the_account_logged_in(r.0, r.1, events.drop_first(), username, password, server, k - r.3.len(), id);
        }
    }
}

/// Whether a request at `stage` has yet to check that the account exists.
pub open spec fn before_account_check(stage: LoginStage) -> bool {
    stage == LoginStage::AwaitPlayerCount || stage == LoginStage::AwaitConnection || stage
        == LoginStage::AwaitAccountExists
}

/// A login request counts at most one attempt, and none once the account
/// check is behind it.
pub proof fn law_one_attempt_per_request(
    stage: LoginStage,
    attempts: int,
    events: Seq<LoginEvent>,
    username: String,
    password: String,
    server: ServerSettings,
)
    ensures
        attempts <= login_run(stage, attempts, events, username, password, server).1 <= attempts + if before_account_check(stage) {
            1int
        } else {
            0int
        },
    decreases events.len(),
{
    if events.len() > 0 {
        let r = login_step(stage, attempts, events[0], username, password, server);
        law_one_attempt_per_request(r.0, r.1, events.drop_first(), username, password, server);
    }
}

fn fail(f: Failure, e: String) -> (actions: Vec<LoginAction>)
    ensures
        actions@ == fail_close(f, e),
{
    let mut actions: Vec<LoginAction> = Vec::new();
    actions.push(LoginAction::Close(CloseReason::Failed(f, e)));
    actions
}

fn one(a: LoginAction) -> (actions: Vec<LoginAction>)
    ensures
        actions@ == seq![a],
{
    let mut actions: Vec<LoginAction> = Vec::new();
    actions.push(a);
    actions
}

fn two(a: LoginAction, b: LoginAction) -> (actions: Vec<LoginAction>)
    ensures
        actions@ == seq![a, b],
{
    let mut actions: Vec<LoginAction> = Vec::new();
    actions.push(a);
    actions.push(b);
    actions
}

fn attempt_failed(attempts: i32, max_attempts: i32, reply: LoginReply) -> (actions: Vec<LoginAction>)
    ensures
        actions@ == failed_attempt(attempts as int, max_attempts, reply),
{
    if attempts >= max_attempts {
        one(LoginAction::Close(CloseReason::TooManyLoginAttempts))
    } else {
        one(LoginAction::Reply(reply))
    }
}

/// Starts a login request from its packet payload. A payload that is not
/// a login request is dropped; a connection not yet accepted is closed;
/// otherwise the request asks for the number of players online.
pub fn login_request(session: &Session, payload: &Vec<u8>) -> (r: (Option<LoginRequest>, Vec<LoginAction>))
    ensures
        login_request_fields(payload@) is None ==> r.0 is None && r.1@.len() == 0,
        login_request_fields(payload@) matches Some((name, password)) ==> if session.state
            == ClientState::Accepted {
            &&& r.1@ == seq![LoginAction::GetPlayerCount]
            &&& r.0 matches Some(req) && {
                &&& req.username@ == name
                &&& req.password@ == password
                &&& req.stage == LoginStage::AwaitPlayerCount
            }
        } else {
            &&& r.0 is None
            &&& r.1@ == seq![LoginAction::Close(CloseReason::NotAccepted)]
        },
{
    match decode_login_request(payload) {
        Some(packet) => start_login(session, packet),
        None => (None, Vec::new()),
    }
}

/// Starts a login request read from a packet: a connection not yet
/// accepted is closed; otherwise the request asks for the number of
/// players online.
pub fn start_login(session: &Session, packet: LoginRequestPacket) -> (r: (Option<LoginRequest>, Vec<LoginAction>))
    ensures
        if session.state == ClientState::Accepted {
            &&& r.1@ == seq![LoginAction::GetPlayerCount]
            &&& r.0 matches Some(req) && {
                &&& req.username == packet.username
                &&& req.password == packet.password
                &&& req.stage == LoginStage::AwaitPlayerCount
            }
        } else {
            &&& r.0 is None
            &&& r.1@ == seq![LoginAction::Close(CloseReason::NotAccepted)]
        },
{
    if session.state != ClientState::Accepted {
        return (None, one(LoginAction::Close(CloseReason::NotAccepted)));
    }
    (
        Some(LoginRequest { username: packet.username, password: packet.password, stage: LoginStage::AwaitPlayerCount }),
        one(LoginAction::GetPlayerCount),
    )
}

impl LoginRequest {
    /// Takes the answer to what the request asked for last (see
    /// `login_step`): failed attempts count towards the connection's
    /// limit, and a login that gets through every check marks the
    /// connection logged in with the account.
    pub fn step(&mut self, session: &mut Session, event: LoginEvent, server: &ServerSettings) -> (actions: Vec<LoginAction>)
        requires
            (old(self).stage == LoginStage::AwaitAccountExists && (event matches LoginEvent::AccountExists(Ok(_))))
                ==> old(session).login_attempts < i32::MAX,
        ensures
            ({
                let r = login_step(
                    old(self).stage,
                    old(session).login_attempts as int,
                    event,
                    old(self).username,
                    old(self).password,
                    *server,
                );
                &&& final(self).stage == r.0
                &&& final(session).login_attempts == r.1
                &&& actions@ == r.3
                &&& match r.2 {
                    Some(id) => final(session).account_id == id && final(session).state == ClientState::LoggedIn,
                    None => final(session).account_id == old(session).account_id && final(session).state == old(
                        session,
                    ).state,
                }
            }),
            final(self).username == old(self).username,
            final(self).password == old(self).password,
            final(session).session_id == old(session).session_id,
            final(session).email_pin == old(session).email_pin,
    {
        match (self.stage, event) {
            (LoginStage::AwaitPlayerCount, LoginEvent::PlayerCount(n)) => {
                self.stage = LoginStage::Finished;
                if n >= server.max_players {
                    two(LoginAction::Reply(LoginReply::Busy), LoginAction::Close(CloseReason::ServerBusy))
                } else {
                    self.stage = LoginStage::AwaitConnection;
                    one(LoginAction::GetConnection)
                }
            },
            (LoginStage::AwaitConnection, LoginEvent::Connection(r)) => match r {
                Ok(_) => {
                    self.stage = LoginStage::AwaitAccountExists;
                    one(LoginAction::CheckAccountExists)
                },
                Err(e) => {
                    self.stage = LoginStage::Finished;
                    fail(Failure::GetConnection, e)
                },
            },
            (LoginStage::AwaitAccountExists, LoginEvent::AccountExists(r)) => match r {
                Ok(exists) => {
                    session.login_attempts = session.login_attempts + 1;
                    if exists {
                        self.stage = LoginStage::AwaitAccountBanned;
                        one(LoginAction::CheckAccountBanned)
                    } else {
                        self.stage = LoginStage::Finished;
                        attempt_failed(session.login_attempts, server.max_login_attempts, LoginReply::WrongUser)
                    }
                },
                Err(e) => {
                    self.stage = LoginStage::Finished;
                    fail(Failure::CheckAccountExists, e)
                },
            },
            (LoginStage::AwaitAccountBanned, LoginEvent::AccountBanned(r)) => match r {
                Ok(banned) => {
                    if banned {
                        self.stage = LoginStage::Finished;
                        two(LoginAction::Reply(LoginReply::Banned), LoginAction::Close(CloseReason::AccountBanned))
                    } else {
                        self.stage = LoginStage::AwaitPasswordHash;
                        one(LoginAction::GetPasswordHash)
                    }
                },
                Err(e) => {
                    self.stage = LoginStage::Finished;
                    fail(Failure::CheckAccountBanned, e)
                },
            },
            (LoginStage::AwaitPasswordHash, LoginEvent::PasswordHash(r)) => match r {
                Ok((id, hash)) => {
                    self.stage = LoginStage::AwaitPasswordCheck { account_id: id };
                    one(LoginAction::ValidatePassword {
                        name: self.username.clone(),
                        password: self.password.clone(),
                        hash,
                    })
                },
                Err(e) => {
                    self.stage = LoginStage::Finished;
                    fail(Failure::GetPasswordHash, e)
                },
            },
            (LoginStage::AwaitPasswordCheck { account_id }, LoginEvent::PasswordValid(valid)) => {
                if valid {
                    self.stage = LoginStage::AwaitLoggedInCheck { account_id };
                    one(LoginAction::CheckLoggedIn(account_id))
                } else {
                    self.stage = LoginStage::Finished;
                    attempt_failed(session.login_attempts, server.max_login_attempts, LoginReply::WrongUserPassword)
                }
            },
            (LoginStage::AwaitLoggedInCheck { account_id }, LoginEvent::AccountLoggedIn(logged_in)) => {
                if logged_in {
                    self.stage = LoginStage::Finished;
                    attempt_failed(session.login_attempts, server.max_login_attempts, LoginReply::LoggedIn)
                } else {
                    self.stage = LoginStage::AwaitLastLoginIp { account_id };
                    one(LoginAction::UpdateLastLoginIp(account_id))
                }
            },
            (LoginStage::AwaitLastLoginIp { account_id }, LoginEvent::LastLoginIpUpdated(r)) => match r {
                Ok(_) => {
                    self.stage = LoginStage::AwaitCharacterList { account_id };
                    one(LoginAction::GetCharacterList(account_id))
                },
                Err(e) => {
                    self.stage = LoginStage::Finished;
                    fail(Failure::UpdateLastLoginIp, e)
                },
            },
            (LoginStage::AwaitCharacterList { account_id }, LoginEvent::CharacterList(r)) => match r {
                Ok(_) => {
                    self.stage = LoginStage::Finished;
                    session.account_id = account_id;
                    session.state = ClientState::LoggedIn;
                    two(LoginAction::AddLoggedInAccount(account_id), LoginAction::Reply(LoginReply::OK))
                },
                Err(e) => {
                    self.stage = LoginStage::Finished;
                    fail(Failure::GetCharacterList, e)
                },
            },
            _ => {
                self.stage = LoginStage::Finished;
                Vec::new()
            },
        }
    }
}


/// The answer to an account recovery request.
#[derive(Clone, Copy, Debug, PartialEq, Eq, Structural)]
pub enum AccountRecoverReply {
    RequestAccepted,
    RequestAcceptedShowEmail,
    RecoveryDisabled,
    AccountNotFound,
}

/// The answer to a recovery pin.
#[derive(Clone, Copy, Debug, PartialEq, Eq, Structural)]
pub enum AccountRecoverPinReply {
    OK,
    WrongPin,
}

/// The answer to setting a new password after recovery.
#[derive(Clone, Copy, Debug, PartialEq, Eq, Structural)]
pub enum AccountRecoverUpdateReply {
    OK,
    Error,
}

/// The email address a recovery reply shows: as stored, or masked.
#[derive(Debug, PartialEq, Eq)]
pub enum RecoveryEmail {
    Plain(String),
    Masked(String),
}

/// The reply to a recovery request.
#[derive(Debug, PartialEq, Eq)]
pub struct LoginCreateReply {
    pub reply_code: AccountRecoverReply,
    pub email_address: Option<RecoveryEmail>,
}

/// Answers a recovery check: whether recovery is on. A packet that could
/// not be read (`packet_read` false) gets no answer.
pub fn login_take(packet_read: bool, account: &AccountSettings) -> (reply: Option<AccountRecoverReply>)
    ensures
        reply == if !packet_read {
            None
        } else if account.recovery {
            Some(AccountRecoverReply::RequestAccepted)
        } else {
            Some(AccountRecoverReply::RecoveryDisabled)
        },
{
    if !packet_read {
        return None;
    }
    Some(
        if account.recovery {
            AccountRecoverReply::RequestAccepted
        } else {
            AccountRecoverReply::RecoveryDisabled
        },
    )
}

/// Where an account recovery request stands.
#[derive(Clone, Copy, Debug, PartialEq, Eq, Structural)]
pub enum RecoverStage {
    AwaitConnection,
    AwaitAccountEmail,
    AwaitEmailPin,
    AwaitEmailSent,
    Finished,
}

/// An answer from the database or the mailer.
#[derive(Debug, PartialEq, Eq)]
pub enum RecoverEvent {
    Connection(Result<(), String>),
    /// The account's row, if found: its id and email, each if readable.
    AccountEmail(Result<Option<(Option<i32>, Option<String>)>, String>),
    /// The pin generated for the email.
    EmailPin(String),
    EmailSent(Result<(), String>),
}

/// What the recovery request does next.
#[derive(Debug, PartialEq, Eq)]
pub enum RecoverAction {
    GetConnection,
    GetAccountEmail,
    GenerateEmailPin,
    /// Send the recovery email with this pin to the address found.
    SendRecoveryEmail(String),
    Reply(LoginCreateReply),
    Close(CloseReason),
}

/// An account recovery request in progress.
#[derive(Debug)]
pub struct AccountRecovery {
    pub account_name: String,
    pub email: String,
    pub stage: RecoverStage,
}

/// The reply once the recovery email is sent.
pub open spec fn recovery_reply(email: Seq<char>, account: AccountSettings) -> (AccountRecoverReply, Option<(bool, Seq<char>)>) {
    if account.recovery_show_email {
        (AccountRecoverReply::RequestAcceptedShowEmail, Some((account.recovery_mask_email, email)))
    } else {
        (AccountRecoverReply::RequestAccepted, None)
    }
}

/// Starts an account recovery request for `account_name` (`None` when the
/// packet could not be read, which gets no answer).
pub fn login_create(account_name: Option<String>) -> (r: (Option<AccountRecovery>, Vec<RecoverAction>))
    ensures
        account_name is None ==> r.0 is None && r.1@.len() == 0,
        account_name matches Some(name) ==> {
            &&& r.1@ == seq![RecoverAction::GetConnection]
            &&& r.0 matches Some(req) && req.account_name == name && req.stage == RecoverStage::AwaitConnection
        },
{
    match account_name {
        None => (None, Vec::new()),
        Some(name) => {
            let mut actions: Vec<RecoverAction> = Vec::new();
            actions.push(RecoverAction::GetConnection);
            (Some(AccountRecovery { account_name: name, email: String::new(), stage: RecoverStage::AwaitConnection }), actions)
        },
    }
}

impl AccountRecovery {
    /// Takes the next answer. A failed connection or lookup ends the
    /// request without a reply; an unknown account is told so; a found
    /// account becomes the connection's account, gets a pin (which the
    /// connection keeps) and an email; a failed email closes the
    /// connection; a sent one is acknowledged, with the address shown
    /// (masked or not) when the settings say so.
    pub fn step(&mut self, session: &mut Session, event: RecoverEvent, account: &AccountSettings) -> (actions: Vec<RecoverAction>)
        ensures
            final(self).account_name == old(self).account_name,
            final(session).state == old(session).state,
            final(session).login_attempts == old(session).login_attempts,
            final(session).session_id == old(session).session_id,
            match (old(self).stage, event) {
                (RecoverStage::AwaitConnection, RecoverEvent::Connection(Ok(_))) => {
                    &&& final(self).stage == RecoverStage::AwaitAccountEmail
                    &&& actions@ == seq![RecoverAction::GetAccountEmail]
                    &&& *final(session) == *old(session)
                },
                (RecoverStage::AwaitAccountEmail, RecoverEvent::AccountEmail(Ok(None))) => {
                    &&& final(self).stage == RecoverStage::Finished
                    &&& actions@ == seq![
                        RecoverAction::Reply(
                            LoginCreateReply { reply_code: AccountRecoverReply::AccountNotFound, email_address: None },
                        ),
                    ]
                    &&& *final(session) == *old(session)
                },
                (RecoverStage::AwaitAccountEmail, RecoverEvent::AccountEmail(Ok(Some((Some(id), email))))) => {
                    &&& final(session).account_id == id
                    &&& final(session).email_pin == old(session).email_pin
                    &&& match email {
                        Some(e) => {
                            &&& final(self).stage == RecoverStage::AwaitEmailPin
                            &&& final(self).email == e
                            &&& actions@ == seq![RecoverAction::GenerateEmailPin]
                        },
                        None => final(self).stage == RecoverStage::Finished && actions@.len() == 0,
                    }
                },
                (RecoverStage::AwaitEmailPin, RecoverEvent::EmailPin(pin)) => {
                    &&& final(self).stage == RecoverStage::AwaitEmailSent
                    &&& final(self).email == old(self).email
                    &&& final(session).email_pin == Some(pin)
                    &&& final(session).account_id == old(session).account_id
                    &&& actions@ == seq![RecoverAction::SendRecoveryEmail(pin)]
                },
                (RecoverStage::AwaitEmailSent, RecoverEvent::EmailSent(Err(e))) => {
                    &&& final(self).stage == RecoverStage::Finished
                    &&& *final(session) == *old(session)
                    &&& actions@ == seq![RecoverAction::Close(CloseReason::Failed(Failure::SendRecoveryEmail, e))]
                },
                (RecoverStage::AwaitEmailSent, RecoverEvent::EmailSent(Ok(_))) => {
                    let (code, shown) = recovery_reply(old(self).email@, *account);
                    &&& final(self).stage == RecoverStage::Finished
                    &&& *final(session) == *old(session)
                    &&& actions@.len() == 1
                    &&& actions@[0] matches RecoverAction::Reply(reply) && reply.reply_code == code && match shown {
                        None => reply.email_address is None,
                        Some((true, e)) => reply.email_address matches Some(RecoveryEmail::Masked(m)) && m@ == e,
                        Some((false, e)) => reply.email_address matches Some(RecoveryEmail::Plain(m)) && m@ == e,
                    }
                    &&& actions@[0] matches RecoverAction::Reply(reply) && if account.recovery_show_email {
                        &&& reply.reply_code == AccountRecoverReply::RequestAcceptedShowEmail
                        &&& if account.recovery_mask_email {
                            reply.email_address matches Some(RecoveryEmail::Masked(m)) && m@ == old(self).email@
                        } else {
                            reply.email_address matches Some(RecoveryEmail::Plain(m)) && m@ == old(self).email@
                        }
                    } else {
                        &&& reply.reply_code == AccountRecoverReply::RequestAccepted
                        &&& reply.email_address is None
                    }
                },
                _ => {
                    &&& final(self).stage == RecoverStage::Finished
                    &&& *final(session) == *old(session)
                    &&& actions@.len() == 0
                },
            },
    {
        let mut actions: Vec<RecoverAction> = Vec::new();
        match (self.stage, event) {
            (RecoverStage::AwaitConnection, RecoverEvent::Connection(Ok(_))) => {
                self.stage = RecoverStage::AwaitAccountEmail;
                actions.push(RecoverAction::GetAccountEmail);
            },
            (RecoverStage::AwaitAccountEmail, RecoverEvent::AccountEmail(Ok(None))) => {
                self.stage = RecoverStage::Finished;
                actions.push(
                    RecoverAction::Reply(
                        LoginCreateReply { reply_code: AccountRecoverReply::AccountNotFound, email_address: None },
                    ),
                );
            },
            (RecoverStage::AwaitAccountEmail, RecoverEvent::AccountEmail(Ok(Some((Some(id), email))))) => {
                session.account_id = id;
                match email {
                    Some(e) => {
                        self.email = e;
                        self.stage = RecoverStage::AwaitEmailPin;
                        actions.push(RecoverAction::GenerateEmailPin);
                    },
                    None => {
                        self.stage = RecoverStage::Finished;
                    },
                }
            },
            (RecoverStage::AwaitEmailPin, RecoverEvent::EmailPin(pin)) => {
                session.email_pin = Some(pin.clone());
                self.stage = RecoverStage::AwaitEmailSent;
                actions.push(RecoverAction::SendRecoveryEmail(pin));
            },
            (RecoverStage::AwaitEmailSent, RecoverEvent::EmailSent(Err(e))) => {
                self.stage = RecoverStage::Finished;
                actions.push(RecoverAction::Close(CloseReason::Failed(Failure::SendRecoveryEmail, e)));
            },
            (RecoverStage::AwaitEmailSent, RecoverEvent::EmailSent(Ok(_))) => {
                self.stage = RecoverStage::Finished;
                let reply = if account.recovery_show_email {
                    let email = self.email.clone();
                    LoginCreateReply {
                        reply_code: AccountRecoverReply::RequestAcceptedShowEmail,
                        email_address: Some(
                            if account.recovery_mask_email {
                                RecoveryEmail::Masked(email)
                            } else {
                                RecoveryEmail::Plain(email)
                            },
                        ),
                    }
                } else {
                    LoginCreateReply { reply_code: AccountRecoverReply::RequestAccepted, email_address: None }
                };
                actions.push(RecoverAction::Reply(reply));
            },
            _ => {
                self.stage = RecoverStage::Finished;
            },
        }
        actions
    }
}

/// The answer to recovery pin `given` on a connection that keeps `kept`.
pub open spec fn pin_reply(kept: Option<String>, given: Option<String>) -> Option<AccountRecoverPinReply> {
    match (kept, given) {
        (Some(kept), Some(given)) => Some(
            if kept@ != given@ {
                AccountRecoverPinReply::WrongPin
            } else {
                AccountRecoverPinReply::OK
            },
        ),
        _ => None,
    }
}

/// A pin is accepted exactly when it is the one the recovery request
/// stored on the connection.
pub proof fn law_pin_accepted_iff_stored(stored: String, given: String)
    ensures
        pin_reply(Some(stored), Some(given)) == Some(AccountRecoverPinReply::OK) <==> given@ == stored@,
{
}

/// Checks a recovery pin against the one the connection keeps. A packet
/// that could not be read (`pin` is `None`), or a connection without a
/// pin, gets no answer.
pub fn login_accept(session: &Session, pin: Option<String>) -> (reply: Option<AccountRecoverPinReply>)
    ensures
        reply == pin_reply(session.email_pin, pin),
{
    let given = match pin {
        Some(p) => p,
        None => return None,
    };
    match &session.email_pin {
        None => None,
        Some(kept) => Some(
            if *kept != given {
                AccountRecoverPinReply::WrongPin
            } else {
                AccountRecoverPinReply::OK
            },
        ),
    }
}

/// The reply that a failed password reset gets.
pub fn send_login_agree_error() -> (reply: AccountRecoverUpdateReply)
    ensures
        reply == AccountRecoverUpdateReply::Error,
{
    AccountRecoverUpdateReply::Error
}

/// Where a password reset stands.
#[derive(Clone, Copy, Debug, PartialEq, Eq, Structural)]
pub enum ResetStage {
    AwaitConnection,
    AwaitPasswordUpdate,
    Finished,
}

/// An answer from the database.
#[derive(Debug, PartialEq, Eq)]
pub enum ResetEvent {
    Connection(Result<(), String>),
    PasswordUpdated(Result<(), String>),
}

/// What the password reset does next.
#[derive(Debug, PartialEq, Eq)]
pub enum ResetAction {
    GetConnection,
    /// Store the hash of `name` and `password` for account `account_id`.
    UpdatePasswordHash { account_id: i32, name: String, password: String },
    Reply(AccountRecoverUpdateReply),
}

/// A password reset in progress.
#[derive(Debug)]
pub struct PasswordReset {
    pub account_name: String,
    pub password: String,
    pub account_id: i32,
    pub stage: ResetStage,
}

/// Starts setting a new password after recovery (`packet` is the account
/// name and password, or `None` when the packet could not be read). It
/// fails at once without a packet or without an account found by a
/// recovery request.
pub fn login_agree(session: &Session, packet: Option<(String, String)>) -> (r: (Option<PasswordReset>, Vec<ResetAction>))
    ensures
        (packet is None || session.account_id == 0) ==> {
            &&& r.0 is None
            &&& r.1@ == seq![ResetAction::Reply(AccountRecoverUpdateReply::Error)]
        },
        match packet {
            Some((name, password)) => session.account_id != 0 ==> {
                &&& r.1@ == seq![ResetAction::GetConnection]
                &&& r.0 matches Some(req) && {
                    &&& req.account_name == name
                    &&& req.password == password
                    &&& req.account_id == session.account_id
                    &&& req.stage == ResetStage::AwaitConnection
                }
            },
            None => true,
        },
{
    let mut actions: Vec<ResetAction> = Vec::new();
    match packet {
        None => {
            actions.push(ResetAction::Reply(send_login_agree_error()));
            (None, actions)
        },
        Some((name, password)) => {
            if session.account_id == 0 {
                actions.push(ResetAction::Reply(send_login_agree_error()));
                return (None, actions);
            }
            actions.push(ResetAction::GetConnection);
            (
                Some(PasswordReset { account_name: name, password, account_id: session.account_id, stage: ResetStage::AwaitConnection }),
                actions,
            )
        },
    }
}

/// One step of a password reset: with a connection, the new hash of
/// `name` and `password` is stored for the account; any failure is
/// answered with `Error`, a stored hash with `OK`; an answer that does
/// not fit the stage ends the reset.
pub open spec fn reset_step(
    stage: ResetStage,
    event: ResetEvent,
    account_id: i32,
    name: String,
    password: String,
) -> (ResetStage, Seq<ResetAction>) {
    match (stage, event) {
        (ResetStage::AwaitConnection, ResetEvent::Connection(Ok(_))) => (
            ResetStage::AwaitPasswordUpdate,
            seq![ResetAction::UpdatePasswordHash { account_id, name, password }],
        ),
        (ResetStage::AwaitConnection, ResetEvent::Connection(Err(_)))
        | (ResetStage::AwaitPasswordUpdate, ResetEvent::PasswordUpdated(Err(_))) => (
            ResetStage::Finished,
            seq![ResetAction::Reply(AccountRecoverUpdateReply::Error)],
        ),
        (ResetStage::AwaitPasswordUpdate, ResetEvent::PasswordUpdated(Ok(_))) => (
            ResetStage::Finished,
            seq![ResetAction::Reply(AccountRecoverUpdateReply::OK)],
        ),
        _ => (ResetStage::Finished, Seq::empty()),
    }
}

/// The answers among a reset's actions, in order.
pub open spec fn reset_replies(actions: Seq<ResetAction>) -> Seq<AccountRecoverUpdateReply>
    decreases actions.len(),
{
    if actions.len() == 0 {
        Seq::empty()
    } else {
        let rest = reset_replies(actions.drop_last());
        match actions.last() {
            ResetAction::Reply(r) => rest.push(r),
            _ => rest,
        }
    }
}

/// A password reset, given the answers it asks for, answers exactly once:
/// `OK` when a connection was had and the new hash stored, `Error`
/// otherwise; and it is then finished.
pub proof fn law_reset_answers_once(
    account_id: i32,
    name: String,
    password: String,
    connection: Result<(), String>,
    update: Result<(), String>,
)
    ensures
        ({
            let first = reset_step(ResetStage::AwaitConnection, ResetEvent::Connection(connection), account_id, name, password);
            let last = if first.0 == ResetStage::AwaitPasswordUpdate {
                reset_step(first.0, ResetEvent::PasswordUpdated(update), account_id, name, password)
            } else {
                (first.0, Seq::empty())
            };
            &&& last.0 == ResetStage::Finished
            &&& reset_replies(first.1 + last.1) == seq![
                if connection is Ok && update is Ok {
                    AccountRecoverUpdateReply::OK
                } else {
                    AccountRecoverUpdateReply::Error
                },
            ]
        }),
{
    let first = reset_step(ResetStage::AwaitConnection, ResetEvent::Connection(connection), account_id, name, password);
    let last = if first.0 == ResetStage::AwaitPasswordUpdate {
        reset_step(first.0, ResetEvent::PasswordUpdated(update), account_id, name, password)
    } else {
        (first.0, Seq::empty())
    };
    let all = first.1 + last.1;
    reveal_with_fuel(reset_replies, 3);
    if connection is Ok {
        assert(all.drop_last() =~= first.1);
        assert(first.1.drop_last() =~= Seq::<ResetAction>::empty());
    } else {
        assert(all =~= first.1);
        assert(first.1.drop_last() =~= Seq::<ResetAction>::empty());
    }
}

impl PasswordReset {
    /// Takes the next answer: with a connection, the new hash is stored;
    /// any failure is answered with `Error`, a stored hash with `OK`.
    pub fn step(&mut self, event: ResetEvent) -> (actions: Vec<ResetAction>)
        ensures
            final(self).account_name == old(self).account_name,
            final(self).password == old(self).password,
            final(self).account_id == old(self).account_id,
            (final(self).stage, actions@) == reset_step(
                old(self).stage,
                event,
                old(self).account_id,
                old(self).account_name,
                old(self).password,
            ),
    {
        let mut actions: Vec<ResetAction> = Vec::new();
        match (self.stage, event) {
            (ResetStage::AwaitConnection, ResetEvent::Connection(Ok(_))) => {
                self.stage = ResetStage::AwaitPasswordUpdate;
                actions.push(
                    ResetAction::UpdatePasswordHash {
                        account_id: self.account_id,
                        name: self.account_name.clone(),
                        password: self.password.clone(),
                    },
                );
            },
            (ResetStage::AwaitConnection, ResetEvent::Connection(Err(_))) => {
                self.stage = ResetStage::Finished;
                actions.push(ResetAction::Reply(send_login_agree_error()));
            },
            (ResetStage::AwaitPasswordUpdate, ResetEvent::PasswordUpdated(Err(_))) => {
                self.stage = ResetStage::Finished;
                actions.push(ResetAction::Reply(send_login_agree_error()));
            },
            (ResetStage::AwaitPasswordUpdate, ResetEvent::PasswordUpdated(Ok(_))) => {
                self.stage = ResetStage::Finished;
                actions.push(ResetAction::Reply(AccountRecoverUpdateReply::OK));
            },
            _ => {
                self.stage = ResetStage::Finished;
            },
        }
        actions
    }
}

/// The handler of a login-family packet.
#[derive(Clone, Copy, Debug, PartialEq, Eq, Structural)]
pub enum LoginHandler {
    Request,
    Take,
    Create,
    Accept,
    Agree,
}

/// The handler for a login packet with action byte `action`: Request
/// (1), Take (9), Create (6), Accept (2) or Agree (5); other actions are
/// not handled.
pub fn handle_login(action: u8) -> (h: Option<LoginHandler>)
    ensures
        h == if action == 1 {
            Some(LoginHandler::Request)
        } else if action == 9 {
            Some(LoginHandler::Take)
        } else if action == 6 {
            Some(LoginHandler::Create)
        } else if action == 2 {
            Some(LoginHandler::Accept)
        } else if action == 5 {
            Some(LoginHandler::Agree)
        } else {
            None
        },
{
    if action == 1 {
        Some(LoginHandler::Request)
    } else if action == 9 {
        Some(LoginHandler::Take)
    } else if action == 6 {
        Some(LoginHandler::Create)
    } else if action == 2 {
        Some(LoginHandler::Accept)
    } else if action == 5 {
        Some(LoginHandler::Agree)
    } else {
        None
    }
}

} // verus!
