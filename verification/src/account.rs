//! The account family of packets: asking for an account name, creating
//! the account, and changing its password. Like the login flow, each
//! request is a state machine driven by the answers of the database.
use crate::packets::{
    account_agree_fields, account_create_fields, account_request_fields, decode_account_agree,
    decode_account_create, decode_account_request, AccountAgreePacket, AccountCreatePacket,
};
use crate::session::{ClientState, CloseReason, Failure, Session};
use vstd::prelude::*;

verus! {

/// The answer to an account request.
#[derive(Clone, Copy, Debug, PartialEq, Eq, Structural)]
pub enum AccountReply {
    Exists,
    Created,
    ChangeFailed,
    Changed,
    /// The name is free: the session id to create it with, and where the
    /// packet sequence starts.
    Default { session_id: i32, sequence_start: i32 },
}

/// An answer from the database or the connection.
#[derive(Debug, PartialEq, Eq)]
pub enum AccountEvent {
    Connection(Result<(), String>),
    AccountExists(Result<bool, String>),
    AccountCreated(Result<(), String>),
    /// A new session id (which the connection keeps) and the start of its
    /// packet sequence.
    NewSession { session_id: i32, sequence_start: i32 },
    /// The account's id and password hash.
    PasswordHash(Result<(i32, String), String>),
    PasswordValid(bool),
    PasswordUpdated(Result<(), String>),
}

/// What an account request does next.
#[derive(Debug, PartialEq, Eq)]
pub enum AccountAction {
    GetConnection,
    CheckAccountExists,
    /// Store the account of the request's packet, with the hash of its
    /// name and password.
    CreateAccount,
    GenerateSession,
    GetPasswordHash,
    /// Check the password given for account `name` against the stored hash.
    ValidatePassword { name: String, password: String, hash: String },
    /// Store the hash of `name` and `password` for account `account_id`.
    UpdatePasswordHash { account_id: i32, name: String, password: String },
    Reply(AccountReply),
    Close(CloseReason),
}

/// Where an account request stands.
#[derive(Clone, Copy, Debug, PartialEq, Eq, Structural)]
pub enum AccountStage {
    AwaitConnection,
    AwaitAccountExists,
    AwaitAccountCreated,
    AwaitNewSession,
    AwaitPasswordHash,
    AwaitPasswordCheck { account_id: i32 },
    AwaitPasswordUpdate,
    Finished,
}

fn one(a: AccountAction) -> (actions: Vec<AccountAction>)
    ensures
        actions@ == seq![a],
{
    let mut actions: Vec<AccountAction> = Vec::new();
    actions.push(a);
    actions
}

fn failed(f: Failure, e: String) -> (actions: Vec<AccountAction>)
    ensures
        actions@ == seq![AccountAction::Close(CloseReason::Failed(f, e))],
{
    one(AccountAction::Close(CloseReason::Failed(f, e)))
}

/// The session check of an account creation, given the session id that
/// the connection holds and the one in the packet: the session id is
/// taken from the connection (what it holds after), and the creation goes
/// on to the account check only when the two match.
pub open spec fn session_check(held: Option<i32>, given: i32) -> (Option<i32>, Seq<AccountAction>) {
    (
        None,
        match held {
            None => seq![AccountAction::Close(CloseReason::NoSessionId)],
            Some(id) => if id != given {
                seq![AccountAction::Close(CloseReason::WrongSessionId { expected: id, got: given })]
            } else {
                seq![AccountAction::CheckAccountExists]
            },
        },
    )
}

/// A session id handed out with a free account name admits one account
/// creation: a creation with that id passes the session check, and any
/// creation after it finds no session id.
pub proof fn law_session_id_admits_one_creation(session_id: i32, later: i32)
    ensures
        session_check(Some(session_id), session_id).1 == seq![AccountAction::CheckAccountExists],
        session_check(session_check(Some(session_id), session_id).0, later).1 == seq![
            AccountAction::Close(CloseReason::NoSessionId),
        ],
{
}

/// An account creation in progress.
#[derive(Debug)]
pub struct AccountCreate {
    pub packet: AccountCreatePacket,
    pub stage: AccountStage,
}

/// Starts an account creation from its packet payload: it goes on (asking
/// for a database connection) only when the payload is an account
/// creation and the connection is accepted.
pub fn account_create(session: &Session, payload: &Vec<u8>) -> (r: (Option<AccountCreate>, Vec<AccountAction>))
    ensures
        (account_create_fields(payload@) is None || session.state != ClientState::Accepted) ==> {
            &&& r.0 is None
            &&& r.1@.len() == 0
        },
        match account_create_fields(payload@) {
            Some(f) => session.state == ClientState::Accepted ==> {
                &&& r.1@ == seq![AccountAction::GetConnection]
                &&& r.0 matches Some(req) && req.stage == AccountStage::AwaitConnection
                    && req.packet.session_id == f.0 && req.packet.username@ == f.1 && req.packet.password@ == f.2
                    && req.packet.full_name@ == f.3 && req.packet.location@ == f.4 && req.packet.email@ == f.5
                    && req.packet.computer@ == f.6 && req.packet.hdid@ == f.7
            },
            None => true,
        },
{
    match decode_account_create(payload) {
        Some(packet) => AccountCreate::start(session, packet),
        None => (None, Vec::new()),
    }
}

impl AccountCreate {
    /// Starts an account creation read from a packet: it goes on (asking
    /// for a database connection) only when the connection is accepted.
    pub fn start(session: &Session, packet: AccountCreatePacket) -> (r: (Option<AccountCreate>, Vec<AccountAction>))
        ensures
            session.state != ClientState::Accepted ==> r.0 is None && r.1@.len() == 0,
            session.state == ClientState::Accepted ==> {
                &&& r.1@ == seq![AccountAction::GetConnection]
                &&& r.0 matches Some(req) && req.stage == AccountStage::AwaitConnection && req.packet == packet
            },
    {
        if session.state != ClientState::Accepted {
            return (None, Vec::new());
        }
        (Some(AccountCreate { packet, stage: AccountStage::AwaitConnection }), one(AccountAction::GetConnection))
    }

    /// Takes the next answer. With a connection, the session id the server
    /// handed out is taken from the connection and must match the
    /// packet's; then a taken name is answered `Exists`, a free one is
    /// created and answered `Created`. A failure closes the connection.
    pub fn step(&mut self, session: &mut Session, event: AccountEvent) -> (actions: Vec<AccountAction>)
        ensures
            final(self).packet == old(self).packet,
            final(session).state == old(session).state,
            final(session).account_id == old(session).account_id,
            final(session).login_attempts == old(session).login_attempts,
            final(session).email_pin == old(session).email_pin,
            match (old(self).stage, event) {
                (AccountStage::AwaitConnection, AccountEvent::Connection(Err(e))) => {
                    &&& final(self).stage == AccountStage::Finished
                    &&& final(session).session_id == old(session).session_id
                    &&& actions@ == seq![AccountAction::Close(CloseReason::Failed(Failure::GetConnection, e))]
                },
                (AccountStage::AwaitConnection, AccountEvent::Connection(Ok(_))) => {
                    let check = session_check(old(session).session_id, old(self).packet.session_id);
                    &&& final(session).session_id == check.0
                    &&& actions@ == check.1
                    &&& final(self).stage == if old(session).session_id == Some(old(self).packet.session_id) {
                        AccountStage::AwaitAccountExists
                    } else {
                        AccountStage::Finished
                    }
                },
                (AccountStage::AwaitAccountExists, AccountEvent::AccountExists(r)) => {
                    &&& final(session).session_id == old(session).session_id
                    &&& match r {
                        Ok(true) => final(self).stage == AccountStage::Finished && actions@ == seq![
                            AccountAction::Reply(AccountReply::Exists),
                        ],
                        Ok(false) => final(self).stage == AccountStage::AwaitAccountCreated && actions@ == seq![
                            AccountAction::CreateAccount,
                        ],
                        Err(e) => final(self).stage == AccountStage::Finished && actions@ == seq![
                            AccountAction::Close(CloseReason::Failed(Failure::CheckAccountExists, e)),
                        ],
                    }
                },
                (AccountStage::AwaitAccountCreated, AccountEvent::AccountCreated(r)) => {
                    &&& final(self).stage == AccountStage::Finished
                    &&& final(session).session_id == old(session).session_id
                    &&& actions@ == match r {
                        Ok(_) => seq![AccountAction::Reply(AccountReply::Created)],
                        Err(e) => seq![AccountAction::Close(CloseReason::Failed(Failure::CreateAccount, e))],
                    }
                },
                _ => {
                    &&& final(self).stage == AccountStage::Finished
                    &&& final(session).session_id == old(session).session_id
                    &&& actions@.len() == 0
                },
            },
    {
        match (self.stage, event) {
            (AccountStage::AwaitConnection, AccountEvent::Connection(Err(e))) => {
                self.stage = AccountStage::Finished;
                failed(Failure::GetConnection, e)
            },
            (AccountStage::AwaitConnection, AccountEvent::Connection(Ok(_))) => {
                self.stage = AccountStage::Finished;
                let taken = session.session_id;
                session.session_id = None;
                match taken {
                    None => one(AccountAction::Close(CloseReason::NoSessionId)),
                    Some(id) => {
                        if id != self.packet.session_id {
                            one(AccountAction::Close(CloseReason::WrongSessionId { expected: id, got: self.packet.session_id }))
                        } else {
                            self.stage = AccountStage::AwaitAccountExists;
                            one(AccountAction::CheckAccountExists)
                        }
                    },
                }
            },
            (AccountStage::AwaitAccountExists, AccountEvent::AccountExists(r)) => {
                self.stage = AccountStage::Finished;
                match r {
                    Ok(true) => one(AccountAction::Reply(AccountReply::Exists)),
                    Ok(false) => {
                        self.stage = AccountStage::AwaitAccountCreated;
                        one(AccountAction::CreateAccount)
                    },
                    Err(e) => failed(Failure::CheckAccountExists, e),
                }
            },
            (AccountStage::AwaitAccountCreated, AccountEvent::AccountCreated(r)) => {
                self.stage = AccountStage::Finished;
                match r {
                    Ok(_) => one(AccountAction::Reply(AccountReply::Created)),
                    Err(e) => failed(Failure::CreateAccount, e),
                }
            },
            _ => {
                self.stage = AccountStage::Finished;
                Vec::new()
            },
        }
    }
}

/// An account-name request in progress.
#[derive(Debug)]
pub struct AccountRequest {
    pub username: String,
    pub stage: AccountStage,
}

/// Starts an account-name request from its packet payload: it goes on
/// only when the payload is such a request and the connection is accepted.
pub fn account_request(session: &Session, payload: &Vec<u8>) -> (r: (Option<AccountRequest>, Vec<AccountAction>))
    ensures
        (account_request_fields(payload@) is None || session.state != ClientState::Accepted) ==> {
            &&& r.0 is None
            &&& r.1@.len() == 0
        },
        match account_request_fields(payload@) {
            Some(name) => session.state == ClientState::Accepted ==> {
                &&& r.1@ == seq![AccountAction::GetConnection]
                &&& r.0 matches Some(req) && req.stage == AccountStage::AwaitConnection && req.username@ == name
            },
            None => true,
        },
{
    match decode_account_request(payload) {
        Some(username) => AccountRequest::start(session, username),
        None => (None, Vec::new()),
    }
}

impl AccountRequest {
    /// Starts an account-name request for `username`, read from a packet:
    /// it goes on only when the connection is accepted.
    pub fn start(session: &Session, username: String) -> (r: (Option<AccountRequest>, Vec<AccountAction>))
        ensures
            session.state != ClientState::Accepted ==> r.0 is None && r.1@.len() == 0,
            session.state == ClientState::Accepted ==> {
                &&& r.1@ == seq![AccountAction::GetConnection]
                &&& r.0 matches Some(req) && req.stage == AccountStage::AwaitConnection && req.username == username
            },
    {
        if session.state != ClientState::Accepted {
            return (None, Vec::new());
        }
        (Some(AccountRequest { username, stage: AccountStage::AwaitConnection }), one(AccountAction::GetConnection))
    }

    /// Takes the next answer: a taken name is answered `Exists`; a free one
    /// gets a new session id, which the connection keeps, sent with the
    /// start of the packet sequence. A failure closes the connection.
    pub fn step(&mut self, session: &mut Session, event: AccountEvent) -> (actions: Vec<AccountAction>)
        ensures
            final(self).username == old(self).username,
            final(session).state == old(session).state,
            final(session).account_id == old(session).account_id,
            final(session).login_attempts == old(session).login_attempts,
            final(session).email_pin == old(session).email_pin,
            match (old(self).stage, event) {
                (AccountStage::AwaitConnection, AccountEvent::Connection(r)) => {
                    &&& final(session).session_id == old(session).session_id
                    &&& match r {
                        Ok(_) => final(self).stage == AccountStage::AwaitAccountExists && actions@ == seq![
                            AccountAction::CheckAccountExists,
                        ],
                        Err(e) => final(self).stage == AccountStage::Finished && actions@ == seq![
                            AccountAction::Close(CloseReason::Failed(Failure::GetConnection, e)),
                        ],
                    }
                },
                (AccountStage::AwaitAccountExists, AccountEvent::AccountExists(r)) => {
                    &&& final(session).session_id == old(session).session_id
                    &&& match r {
                        Ok(true) => final(self).stage == AccountStage::Finished && actions@ == seq![
                            AccountAction::Reply(AccountReply::Exists),
                        ],
                        Ok(false) => final(self).stage == AccountStage::AwaitNewSession && actions@ == seq![
                            AccountAction::GenerateSession,
                        ],
                        Err(e) => final(self).stage == AccountStage::Finished && actions@ == seq![
                            AccountAction::Close(CloseReason::Failed(Failure::CheckAccountExists, e)),
                        ],
                    }
                },
                (AccountStage::AwaitNewSession, AccountEvent::NewSession { session_id, sequence_start }) => {
                    &&& final(self).stage == AccountStage::Finished
                    &&& final(session).session_id == Some(session_id)
                    &&& actions@ == seq![AccountAction::Reply(AccountReply::Default { session_id, sequence_start })]
                },
                _ => {
                    &&& final(self).stage == AccountStage::Finished
                    &&& final(session).session_id == old(session).session_id
                    &&& actions@.len() == 0
                },
            },
    {
        match (self.stage, event) {
            (AccountStage::AwaitConnection, AccountEvent::Connection(r)) => match r {
                Ok(_) => {
                    self.stage = AccountStage::AwaitAccountExists;
                    one(AccountAction::CheckAccountExists)
                },
                Err(e) => {
                    self.stage = AccountStage::Finished;
                    failed(Failure::GetConnection, e)
                },
            },
            (AccountStage::AwaitAccountExists, AccountEvent::AccountExists(r)) => {
                self.stage = AccountStage::Finished;
                match r {
                    Ok(true) => one(AccountAction::Reply(AccountReply::Exists)),
                    Ok(false) => {
                        self.stage = AccountStage::AwaitNewSession;
                        one(AccountAction::GenerateSession)
                    },
                    Err(e) => failed(Failure::CheckAccountExists, e),
                }
            },
            (AccountStage::AwaitNewSession, AccountEvent::NewSession { session_id, sequence_start }) => {
                self.stage = AccountStage::Finished;
                session.session_id = Some(session_id);
                one(AccountAction::Reply(AccountReply::Default { session_id, sequence_start }))
            },
            _ => {
                self.stage = AccountStage::Finished;
                Vec::new()
            },
        }
    }
}

/// A password change in progress.
#[derive(Debug)]
pub struct AccountAgree {
    pub packet: AccountAgreePacket,
    pub stage: AccountStage,
}

/// Starts a password change from its packet payload: it goes on only when
/// the payload is such a request and the connection is logged in.
pub fn account_agree(session: &Session, payload: &Vec<u8>) -> (r: (Option<AccountAgree>, Vec<AccountAction>))
    ensures
        (account_agree_fields(payload@) is None || session.state != ClientState::LoggedIn) ==> {
            &&& r.0 is None
            &&& r.1@.len() == 0
        },
        match account_agree_fields(payload@) {
            Some(f) => session.state == ClientState::LoggedIn ==> {
                &&& r.1@ == seq![AccountAction::GetConnection]
                &&& r.0 matches Some(req) && req.stage == AccountStage::AwaitConnection && req.packet.username@
                    == f.0 && req.packet.old_password@ == f.1 && req.packet.new_password@ == f.2
            },
            None => true,
        },
{
    match decode_account_agree(payload) {
        Some(packet) => AccountAgree::start(session, packet),
        None => (None, Vec::new()),
    }
}

impl AccountAgree {
    /// Starts a password change read from a packet: it goes on only when
    /// the connection is logged in.
    pub fn start(session: &Session, packet: AccountAgreePacket) -> (r: (Option<AccountAgree>, Vec<AccountAction>))
        ensures
            session.state != ClientState::LoggedIn ==> r.0 is None && r.1@.len() == 0,
            session.state == ClientState::LoggedIn ==> {
                &&& r.1@ == seq![AccountAction::GetConnection]
                &&& r.0 matches Some(req) && req.stage == AccountStage::AwaitConnection && req.packet == packet
            },
    {
        if session.state != ClientState::LoggedIn {
            return (None, Vec::new());
        }
        (Some(AccountAgree { packet, stage: AccountStage::AwaitConnection }), one(AccountAction::GetConnection))
    }

    /// Takes the next answer. An account that does not exist is answered
    /// `Exists`, as the server always has; a hash that cannot be read or an
    /// old password that does not match is answered `ChangeFailed`; else
    /// the new hash is stored and the answer is `Changed`. A failed
    /// connection, lookup or store closes the connection.
    pub fn step(&mut self, event: AccountEvent) -> (actions: Vec<AccountAction>)
        ensures
            final(self).packet == old(self).packet,
            match (old(self).stage, event) {
                (AccountStage::AwaitConnection, AccountEvent::Connection(r)) => match r {
                    Ok(_) => final(self).stage == AccountStage::AwaitAccountExists && actions@ == seq![
                        AccountAction::CheckAccountExists,
                    ],
                    Err(e) => final(self).stage == AccountStage::Finished && actions@ == seq![
                        AccountAction::Close(CloseReason::Failed(Failure::GetConnection, e)),
                    ],
                },
                (AccountStage::AwaitAccountExists, AccountEvent::AccountExists(r)) => match r {
                    Ok(true) => final(self).stage == AccountStage::AwaitPasswordHash && actions@ == seq![
                        AccountAction::GetPasswordHash,
                    ],
                    Ok(false) => final(self).stage == AccountStage::Finished && actions@ == seq![
                        AccountAction::Reply(AccountReply::Exists),
                    ],
                    Err(e) => final(self).stage == AccountStage::Finished && actions@ == seq![
                        AccountAction::Close(CloseReason::Failed(Failure::CheckAccountExists, e)),
                    ],
                },
                (AccountStage::AwaitPasswordHash, AccountEvent::PasswordHash(r)) => match r {
                    Ok((id, hash)) => final(self).stage == AccountStage::AwaitPasswordCheck { account_id: id }
                        && actions@ == seq![
                        AccountAction::ValidatePassword {
                            name: old(self).packet.username,
                            password: old(self).packet.old_password,
                            hash,
                        },
                    ],
                    Err(_) => final(self).stage == AccountStage::Finished && actions@ == seq![
                        AccountAction::Reply(AccountReply::ChangeFailed),
                    ],
                },
                (AccountStage::AwaitPasswordCheck { account_id }, AccountEvent::PasswordValid(valid)) => if valid {
                    final(self).stage == AccountStage::AwaitPasswordUpdate && actions@ == seq![
                        AccountAction::UpdatePasswordHash {
                            account_id,
                            name: old(self).packet.username,
                            password: old(self).packet.new_password,
                        },
                    ]
                } else {
                    final(self).stage == AccountStage::Finished && actions@ == seq![
                        AccountAction::Reply(AccountReply::ChangeFailed),
                    ]
                },
                (AccountStage::AwaitPasswordUpdate, AccountEvent::PasswordUpdated(r)) => {
                    &&& final(self).stage == AccountStage::Finished
                    &&& actions@ == match r {
                        Ok(_) => seq![AccountAction::Reply(AccountReply::Changed)],
                        Err(e) => seq![AccountAction::Close(CloseReason::Failed(Failure::UpdatePasswordHash, e))],
                    }
                },
                _ => final(self).stage == AccountStage::Finished && actions@.len() == 0,
            },
    {
        match (self.stage, event) {
            (AccountStage::AwaitConnection, AccountEvent::Connection(r)) => match r {
                Ok(_) => {
                    self.stage = AccountStage::AwaitAccountExists;
                    one(AccountAction::CheckAccountExists)
                },
                Err(e) => {
                    self.stage = AccountStage::Finished;
                    failed(Failure::GetConnection, e)
                },
            },
            (AccountStage::AwaitAccountExists, AccountEvent::AccountExists(r)) => {
                self.stage = AccountStage::Finished;
                match r {
                    Ok(true) => {
                        self.stage = AccountStage::AwaitPasswordHash;
                        one(AccountAction::GetPasswordHash)
                    },
                    Ok(false) => one(AccountAction::Reply(AccountReply::Exists)),
                    Err(e) => failed(Failure::CheckAccountExists, e),
                }
            },
            (AccountStage::AwaitPasswordHash, AccountEvent::PasswordHash(r)) => match r {
                Ok((id, hash)) => {
                    self.stage = AccountStage::AwaitPasswordCheck { account_id: id };
                    one(AccountAction::ValidatePassword {
                        name: self.packet.username.clone(),
                        password: self.packet.old_password.clone(),
                        hash,
                    })
                },
                Err(_) => {
                    self.stage = AccountStage::Finished;
                    one(AccountAction::Reply(AccountReply::ChangeFailed))
                },
            },
            (AccountStage::AwaitPasswordCheck { account_id }, AccountEvent::PasswordValid(valid)) => {
                if valid {
                    self.stage = AccountStage::AwaitPasswordUpdate;
                    one(AccountAction::UpdatePasswordHash {
                        account_id,
                        name: self.packet.username.clone(),
                        password: self.packet.new_password.clone(),
                    })
                } else {
                    self.stage = AccountStage::Finished;
                    one(AccountAction::Reply(AccountReply::ChangeFailed))
                }
            },
            (AccountStage::AwaitPasswordUpdate, AccountEvent::PasswordUpdated(r)) => {
                self.stage = AccountStage::Finished;
                match r {
                    Ok(_) => one(AccountAction::Reply(AccountReply::Changed)),
                    Err(e) => failed(Failure::UpdatePasswordHash, e),
                }
            },
            _ => {
                self.stage = AccountStage::Finished;
                Vec::new()
            },
        }
    }
}

/// The handler of an account-family packet.
#[derive(Clone, Copy, Debug, PartialEq, Eq, Structural)]
pub enum AccountHandler {
    Create,
    Request,
    Agree,
}

/// The handler for an account packet with action byte `action`: Create
/// (6), Request (1) or Agree (5); other actions are not handled.
pub fn handle_account(action: u8) -> (h: Option<AccountHandler>)
    ensures
        h == if action == 6 {
            Some(AccountHandler::Create)
        } else if action == 1 {
            Some(AccountHandler::Request)
        } else if action == 5 {
            Some(AccountHandler::Agree)
        } else {
            None
        },
{
    if action == 6 {
        Some(AccountHandler::Create)
    } else if action == 1 {
        Some(AccountHandler::Request)
    } else if action == 5 {
        Some(AccountHandler::Agree)
    } else {
        None
    }
}

} // verus!
