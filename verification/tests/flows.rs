use reoserv::account::{
    account_agree, account_create, account_request, handle_account, AccountAction, AccountAgree, AccountCreate,
    AccountEvent, AccountHandler, AccountReply, AccountRequest, AccountStage,
};
use reoserv::packets::{AccountAgreePacket, AccountCreatePacket, LoginRequestPacket};
use reoserv::chat::broadcast_server_message;
use reoserv::codec::{decode_char, encode_number};
use reoserv::create::{create, create_reply, CreateReply};
use reoserv::data::{AccountSettings, ServerSettings};
use reoserv::login::{
    handle_login, login_accept, login_agree, login_create, login_request, login_take, send_login_agree_error, start_login,
    AccountRecoverPinReply, AccountRecoverReply, AccountRecoverUpdateReply, LoginAction, LoginEvent, LoginHandler,
    LoginReply, LoginStage, RecoverAction, RecoverEvent, RecoverStage, RecoveryEmail, ResetAction, ResetEvent,
};
use reoserv::packet::{handle_packet, handled_family, PacketEvent, PacketStage, PacketStep};
use reoserv::session::{ClientState, CloseReason, Failure, Session};

fn session(state: ClientState) -> Session {
    Session { state, login_attempts: 0, account_id: 0, session_id: None, email_pin: None }
}

fn server() -> ServerSettings {
    ServerSettings { enforce_sequence: true, max_players: 10, max_login_attempts: 3 }
}

fn chunks(parts: &[&[u8]]) -> Vec<u8> {
    let mut v = Vec::new();
    for p in parts {
        v.extend_from_slice(p);
        v.push(0xFF);
    }
    v
}

fn login_payload() -> Vec<u8> {
    chunks(&[b"alice", b"secret"])
}

#[test]
fn login_request_reads_packet() {
    let s = session(ClientState::Accepted);
    let (req, actions) = login_request(&s, &login_payload());
    let req = req.unwrap();
    assert_eq!(req.username, "alice");
    assert_eq!(req.password, "secret");
    assert_eq!(req.stage, LoginStage::AwaitPlayerCount);
    assert_eq!(actions, vec![LoginAction::GetPlayerCount]);
}

#[test]
fn login_before_accept_closes() {
    let s = session(ClientState::Initialized);
    let (req, actions) = login_request(&s, &login_payload());
    assert!(req.is_none());
    assert_eq!(actions, vec![LoginAction::Close(CloseReason::NotAccepted)]);
}

#[test]
fn login_happy_path_logs_in() {
    let mut s = session(ClientState::Accepted);
    let (req, _) = login_request(&s, &login_payload());
    let mut req = req.unwrap();
    let sv = server();
    assert_eq!(req.step(&mut s, LoginEvent::PlayerCount(3), &sv), vec![LoginAction::GetConnection]);
    assert_eq!(req.step(&mut s, LoginEvent::Connection(Ok(())), &sv), vec![LoginAction::CheckAccountExists]);
    assert_eq!(req.step(&mut s, LoginEvent::AccountExists(Ok(true)), &sv), vec![LoginAction::CheckAccountBanned]);
    assert_eq!(s.login_attempts, 1);
    assert_eq!(req.step(&mut s, LoginEvent::AccountBanned(Ok(false)), &sv), vec![LoginAction::GetPasswordHash]);
    assert_eq!(
        req.step(&mut s, LoginEvent::PasswordHash(Ok((42, "hash".to_string()))), &sv),
        vec![LoginAction::ValidatePassword {
            name: "alice".to_string(),
            password: "secret".to_string(),
            hash: "hash".to_string(),
        }]
    );
    assert_eq!(req.step(&mut s, LoginEvent::PasswordValid(true), &sv), vec![LoginAction::CheckLoggedIn(42)]);
    assert_eq!(req.step(&mut s, LoginEvent::AccountLoggedIn(false), &sv), vec![LoginAction::UpdateLastLoginIp(42)]);
    assert_eq!(req.step(&mut s, LoginEvent::LastLoginIpUpdated(Ok(())), &sv), vec![LoginAction::GetCharacterList(42)]);
    assert_eq!(s.state, ClientState::Accepted);
    assert_eq!(
        req.step(&mut s, LoginEvent::CharacterList(Ok(())), &sv),
        vec![LoginAction::AddLoggedInAccount(42), LoginAction::Reply(LoginReply::OK)]
    );
    assert_eq!(s.state, ClientState::LoggedIn);
    assert_eq!(s.account_id, 42);
    assert_eq!(req.stage, LoginStage::Finished);
    assert_eq!(req.step(&mut s, LoginEvent::PlayerCount(1), &sv), Vec::<LoginAction>::new());
}

#[test]
fn login_server_busy() {
    let mut s = session(ClientState::Accepted);
    let mut req = login_request(&s, &login_payload()).0.unwrap();
    assert_eq!(
        req.step(&mut s, LoginEvent::PlayerCount(10), &server()),
        vec![LoginAction::Reply(LoginReply::Busy), LoginAction::Close(CloseReason::ServerBusy)]
    );
}

#[test]
fn login_wrong_user_until_too_many() {
    let mut s = session(ClientState::Accepted);
    let sv = server();
    for attempt in 1..=3 {
        let mut req = login_request(&s, &login_payload()).0.unwrap();
        req.step(&mut s, LoginEvent::PlayerCount(0), &sv);
        req.step(&mut s, LoginEvent::Connection(Ok(())), &sv);
        let actions = req.step(&mut s, LoginEvent::AccountExists(Ok(false)), &sv);
        assert_eq!(s.login_attempts, attempt);
        if attempt < 3 {
            assert_eq!(actions, vec![LoginAction::Reply(LoginReply::WrongUser)]);
        } else {
            assert_eq!(actions, vec![LoginAction::Close(CloseReason::TooManyLoginAttempts)]);
        }
    }
}

#[test]
fn login_banned_wrong_password_and_logged_in() {
    let sv = server();
    let mut s = session(ClientState::Accepted);
    let mut req = login_request(&s, &login_payload()).0.unwrap();
    req.step(&mut s, LoginEvent::PlayerCount(0), &sv);
    req.step(&mut s, LoginEvent::Connection(Ok(())), &sv);
    req.step(&mut s, LoginEvent::AccountExists(Ok(true)), &sv);
    assert_eq!(
        req.step(&mut s, LoginEvent::AccountBanned(Ok(true)), &sv),
        vec![LoginAction::Reply(LoginReply::Banned), LoginAction::Close(CloseReason::AccountBanned)]
    );
    let mut req = login_request(&s, &login_payload()).0.unwrap();
    req.step(&mut s, LoginEvent::PlayerCount(0), &sv);
    req.step(&mut s, LoginEvent::Connection(Ok(())), &sv);
    req.step(&mut s, LoginEvent::AccountExists(Ok(true)), &sv);
    req.step(&mut s, LoginEvent::AccountBanned(Ok(false)), &sv);
    req.step(&mut s, LoginEvent::PasswordHash(Ok((5, "h".to_string()))), &sv);
    assert_eq!(
        req.step(&mut s, LoginEvent::PasswordValid(false), &sv),
        vec![LoginAction::Reply(LoginReply::WrongUserPassword)]
    );
    let mut req = login_request(&s, &login_payload()).0.unwrap();
    req.step(&mut s, LoginEvent::PlayerCount(0), &sv);
    req.step(&mut s, LoginEvent::Connection(Ok(())), &sv);
    req.step(&mut s, LoginEvent::AccountExists(Ok(true)), &sv);
    req.step(&mut s, LoginEvent::AccountBanned(Ok(false)), &sv);
    req.step(&mut s, LoginEvent::PasswordHash(Ok((5, "h".to_string()))), &sv);
    req.step(&mut s, LoginEvent::PasswordValid(true), &sv);
    // third attempt: the limit is reached
    assert_eq!(
        req.step(&mut s, LoginEvent::AccountLoggedIn(true), &sv),
        vec![LoginAction::Close(CloseReason::TooManyLoginAttempts)]
    );
    assert_eq!(s.state, ClientState::Accepted);
}

#[test]
fn login_database_failures_close() {
    let sv = server();
    let mut s = session(ClientState::Accepted);
    let mut req = login_request(&s, &login_payload()).0.unwrap();
    req.step(&mut s, LoginEvent::PlayerCount(0), &sv);
    assert_eq!(
        req.step(&mut s, LoginEvent::Connection(Err("down".to_string())), &sv),
        vec![LoginAction::Close(CloseReason::Failed(Failure::GetConnection, "down".to_string()))]
    );
    assert_eq!(s.login_attempts, 0);
}

#[test]
fn login_take_follows_settings() {
    let on = AccountSettings { recovery: true, recovery_show_email: false, recovery_mask_email: false };
    let off = AccountSettings { recovery: false, recovery_show_email: false, recovery_mask_email: false };
    assert_eq!(login_take(true, &on), Some(AccountRecoverReply::RequestAccepted));
    assert_eq!(login_take(true, &off), Some(AccountRecoverReply::RecoveryDisabled));
    assert_eq!(login_take(false, &on), None);
}

#[test]
fn recovery_then_pin() {
    let account = AccountSettings { recovery: true, recovery_show_email: true, recovery_mask_email: true };
    let mut s = session(ClientState::Accepted);
    let (req, actions) = login_create(Some("alice".to_string()));
    assert_eq!(actions, vec![RecoverAction::GetConnection]);
    let mut req = req.unwrap();
    assert_eq!(req.step(&mut s, RecoverEvent::Connection(Ok(())), &account), vec![RecoverAction::GetAccountEmail]);
    assert_eq!(
        req.step(&mut s, RecoverEvent::AccountEmail(Ok(Some((Some(7), Some("a@b.c".to_string()))))), &account),
        vec![RecoverAction::GenerateEmailPin]
    );
    assert_eq!(s.account_id, 7);
    assert_eq!(
        req.step(&mut s, RecoverEvent::EmailPin("1234".to_string()), &account),
        vec![RecoverAction::SendRecoveryEmail("1234".to_string())]
    );
    let actions = req.step(&mut s, RecoverEvent::EmailSent(Ok(())), &account);
    match &actions[..] {
        [RecoverAction::Reply(reply)] => {
            assert_eq!(reply.reply_code, AccountRecoverReply::RequestAcceptedShowEmail);
            assert_eq!(reply.email_address, Some(RecoveryEmail::Masked("a@b.c".to_string())));
        },
        other => panic!("unexpected {:?}", other),
    }
    assert_eq!(req.stage, RecoverStage::Finished);
    assert_eq!(login_accept(&s, Some("1234".to_string())), Some(AccountRecoverPinReply::OK));
    assert_eq!(login_accept(&s, Some("9999".to_string())), Some(AccountRecoverPinReply::WrongPin));
    assert_eq!(login_accept(&s, None), None);
    assert_eq!(login_accept(&session(ClientState::Accepted), Some("1234".to_string())), None);
}

#[test]
fn recovery_failures() {
    let account = AccountSettings { recovery: true, recovery_show_email: false, recovery_mask_email: false };
    assert!(login_create(None).0.is_none());
    let mut s = session(ClientState::Accepted);
    let mut req = login_create(Some("x".to_string())).0.unwrap();
    req.step(&mut s, RecoverEvent::Connection(Ok(())), &account);
    let actions = req.step(&mut s, RecoverEvent::AccountEmail(Ok(None)), &account);
    match &actions[..] {
        [RecoverAction::Reply(reply)] => {
            assert_eq!(reply.reply_code, AccountRecoverReply::AccountNotFound);
            assert_eq!(reply.email_address, None);
        },
        other => panic!("unexpected {:?}", other),
    }
    let mut req = login_create(Some("x".to_string())).0.unwrap();
    req.step(&mut s, RecoverEvent::Connection(Ok(())), &account);
    req.step(&mut s, RecoverEvent::AccountEmail(Ok(Some((Some(3), Some("e".to_string()))))), &account);
    req.step(&mut s, RecoverEvent::EmailPin("1".to_string()), &account);
    assert_eq!(
        req.step(&mut s, RecoverEvent::EmailSent(Err("smtp".to_string())), &account),
        vec![RecoverAction::Close(CloseReason::Failed(Failure::SendRecoveryEmail, "smtp".to_string()))]
    );
    let mut req = login_create(Some("x".to_string())).0.unwrap();
    assert!(req.step(&mut s, RecoverEvent::Connection(Err("down".to_string())), &account).is_empty());
}

#[test]
fn password_reset_flow() {
    let mut s = session(ClientState::Accepted);
    let (req, actions) = login_agree(&s, Some(("alice".to_string(), "new".to_string())));
    assert!(req.is_none());
    assert_eq!(actions, vec![ResetAction::Reply(AccountRecoverUpdateReply::Error)]);
    s.account_id = 7;
    let (req, actions) = login_agree(&s, Some(("alice".to_string(), "new".to_string())));
    assert_eq!(actions, vec![ResetAction::GetConnection]);
    let mut req = req.unwrap();
    assert_eq!(req.step(ResetEvent::Connection(Ok(()))), vec![ResetAction::UpdatePasswordHash {
            account_id: 7,
            name: "alice".to_string(),
            password: "new".to_string(),
        }]);
    assert_eq!(
        req.step(ResetEvent::PasswordUpdated(Ok(()))),
        vec![ResetAction::Reply(AccountRecoverUpdateReply::OK)]
    );
    let mut req = login_agree(&s, Some(("a".to_string(), "b".to_string()))).0.unwrap();
    assert_eq!(
        req.step(ResetEvent::Connection(Err("x".to_string()))),
        vec![ResetAction::Reply(AccountRecoverUpdateReply::Error)]
    );
    assert_eq!(login_agree(&s, None).1, vec![ResetAction::Reply(AccountRecoverUpdateReply::Error)]);
    assert_eq!(send_login_agree_error(), AccountRecoverUpdateReply::Error);
}

#[test]
fn login_and_account_dispatch() {
    assert_eq!(handle_login(1), Some(LoginHandler::Request));
    assert_eq!(handle_login(9), Some(LoginHandler::Take));
    assert_eq!(handle_login(6), Some(LoginHandler::Create));
    assert_eq!(handle_login(2), Some(LoginHandler::Accept));
    assert_eq!(handle_login(5), Some(LoginHandler::Agree));
    assert_eq!(handle_login(3), None);
    assert_eq!(handle_account(6), Some(AccountHandler::Create));
    assert_eq!(handle_account(1), Some(AccountHandler::Request));
    assert_eq!(handle_account(5), Some(AccountHandler::Agree));
    assert_eq!(handle_account(9), None);
}

#[test]
fn account_request_grants_session() {
    let mut s = session(ClientState::Accepted);
    let (req, actions) = account_request(&s, &b"bob".to_vec());
    let mut req = req.unwrap();
    assert_eq!(req.username, "bob");
    assert_eq!(actions, vec![AccountAction::GetConnection]);
    req.step(&mut s, AccountEvent::Connection(Ok(())));
    assert_eq!(req.step(&mut s, AccountEvent::AccountExists(Ok(false))), vec![AccountAction::GenerateSession]);
    assert_eq!(
        req.step(&mut s, AccountEvent::NewSession { session_id: 1234, sequence_start: 9 }),
        vec![AccountAction::Reply(AccountReply::Default { session_id: 1234, sequence_start: 9 })]
    );
    assert_eq!(s.session_id, Some(1234));
    let mut req = account_request(&s, &b"bob".to_vec()).0.unwrap();
    req.step(&mut s, AccountEvent::Connection(Ok(())));
    assert_eq!(
        req.step(&mut s, AccountEvent::AccountExists(Ok(true))),
        vec![AccountAction::Reply(AccountReply::Exists)]
    );
    assert!(account_request(&session(ClientState::LoggedIn), &b"bob".to_vec()).0.is_none());
}

fn create_payload(session_id: u8) -> Vec<u8> {
    // session id as an EO short: value + 1, then 254
    let mut v = vec![session_id + 1, 254, 0xFF];
    v.extend(chunks(&[b"bob", b"pw", b"Bob B", b"Here", b"b@x", b"pc", b"123"]));
    v
}

#[test]
fn account_create_checks_session() {
    let mut s = session(ClientState::Accepted);
    s.session_id = Some(5);
    let (req, actions) = account_create(&s, &create_payload(5));
    let mut req = req.unwrap();
    assert_eq!(req.packet.session_id, 5);
    assert_eq!(req.packet.username, "bob");
    assert_eq!(req.packet.email, "b@x");
    assert_eq!(req.packet.full_name, "Bob B");
    assert_eq!(req.packet.location, "Here");
    assert_eq!(req.packet.computer, "pc");
    assert_eq!(req.packet.hdid, "123");
    assert_eq!(actions, vec![AccountAction::GetConnection]);
    assert_eq!(req.step(&mut s, AccountEvent::Connection(Ok(()))), vec![AccountAction::CheckAccountExists]);
    assert_eq!(s.session_id, None);
    assert_eq!(req.step(&mut s, AccountEvent::AccountExists(Ok(false))), vec![AccountAction::CreateAccount]);
    assert_eq!(
        req.step(&mut s, AccountEvent::AccountCreated(Ok(()))),
        vec![AccountAction::Reply(AccountReply::Created)]
    );
    assert_eq!(req.stage, AccountStage::Finished);
}

#[test]
fn account_create_wrong_or_missing_session() {
    let mut s = session(ClientState::Accepted);
    s.session_id = Some(6);
    let mut req = account_create(&s, &create_payload(5)).0.unwrap();
    assert_eq!(
        req.step(&mut s, AccountEvent::Connection(Ok(()))),
        vec![AccountAction::Close(CloseReason::WrongSessionId { expected: 6, got: 5 })]
    );
    let mut req = account_create(&s, &create_payload(5)).0.unwrap();
    assert_eq!(
        req.step(&mut s, AccountEvent::Connection(Ok(()))),
        vec![AccountAction::Close(CloseReason::NoSessionId)]
    );
    assert!(account_create(&session(ClientState::Initialized), &create_payload(5)).0.is_none());
}

#[test]
fn session_id_admits_one_creation() {
    let mut s = session(ClientState::Accepted);
    let mut req = account_request(&s, &b"bob".to_vec()).0.unwrap();
    req.step(&mut s, AccountEvent::Connection(Ok(())));
    req.step(&mut s, AccountEvent::AccountExists(Ok(false)));
    req.step(&mut s, AccountEvent::NewSession { session_id: 7, sequence_start: 1 });
    let mut first = account_create(&s, &create_payload(7)).0.unwrap();
    assert_eq!(first.step(&mut s, AccountEvent::Connection(Ok(()))), vec![AccountAction::CheckAccountExists]);
    let mut second = account_create(&s, &create_payload(7)).0.unwrap();
    assert_eq!(
        second.step(&mut s, AccountEvent::Connection(Ok(()))),
        vec![AccountAction::Close(CloseReason::NoSessionId)]
    );
}

#[test]
fn account_agree_changes_password() {
    let s = session(ClientState::LoggedIn);
    let payload = chunks(&[b"bob", b"old", b"new"]);
    let (req, _) = account_agree(&s, &payload);
    let mut req = req.unwrap();
    assert_eq!(req.packet.old_password, "old");
    req.step(AccountEvent::Connection(Ok(())));
    assert_eq!(req.step(AccountEvent::AccountExists(Ok(true))), vec![AccountAction::GetPasswordHash]);
    assert_eq!(
        req.step(AccountEvent::PasswordHash(Ok((3, "h".to_string())))),
        vec![AccountAction::ValidatePassword {
            name: "bob".to_string(),
            password: "old".to_string(),
            hash: "h".to_string(),
        }]
    );
    assert_eq!(req.step(AccountEvent::PasswordValid(true)), vec![AccountAction::UpdatePasswordHash {
            account_id: 3,
            name: "bob".to_string(),
            password: "new".to_string(),
        }]);
    assert_eq!(
        req.step(AccountEvent::PasswordUpdated(Ok(()))),
        vec![AccountAction::Reply(AccountReply::Changed)]
    );
    let mut req = account_agree(&s, &payload).0.unwrap();
    req.step(AccountEvent::Connection(Ok(())));
    req.step(AccountEvent::AccountExists(Ok(true)));
    req.step(AccountEvent::PasswordHash(Ok((3, "h".to_string()))));
    assert_eq!(
        req.step(AccountEvent::PasswordValid(false)),
        vec![AccountAction::Reply(AccountReply::ChangeFailed)]
    );
    let mut req = account_agree(&s, &payload).0.unwrap();
    req.step(AccountEvent::Connection(Ok(())));
    assert_eq!(
        req.step(AccountEvent::AccountExists(Ok(false))),
        vec![AccountAction::Reply(AccountReply::Exists)]
    );
    assert!(account_agree(&session(ClientState::Accepted), &payload).0.is_none());
}

#[test]
fn packet_header_and_sequence() {
    // Walk (6) with action Player (8), sequence char 5 encoded as 6
    let (p, steps) = handle_packet(vec![8, 6, 6, 1, 2]);
    assert_eq!(steps, vec![PacketStep::GetState]);
    let mut p = p.unwrap();
    assert_eq!(p.step(PacketEvent::State(ClientState::Playing), true), vec![PacketStep::GenSequence]);
    assert_eq!(
        p.step(PacketEvent::Sequence(5), true),
        vec![PacketStep::Dispatch { family: 6, action: 8, payload_start: 3 }, PacketStep::ClearBusy]
    );
    assert_eq!(p.stage, PacketStage::Finished);
}

#[test]
fn packet_wrong_sequence_closes_but_dispatches() {
    let mut p = handle_packet(vec![8, 6, 6]).0.unwrap();
    p.step(PacketEvent::State(ClientState::Playing), true);
    assert_eq!(
        p.step(PacketEvent::Sequence(9), true),
        vec![
            PacketStep::Close(CloseReason::InvalidSequence { got: 5, expected: 9 }),
            PacketStep::Dispatch { family: 6, action: 8, payload_start: 3 },
            PacketStep::ClearBusy,
        ]
    );
    let mut p = handle_packet(vec![8, 6, 6]).0.unwrap();
    p.step(PacketEvent::State(ClientState::Playing), false);
    assert_eq!(p.step(PacketEvent::Sequence(9), false).len(), 2);
}

#[test]
fn packet_ping_init_and_uninitialized() {
    let mut p = handle_packet(vec![240, 1, 1]).0.unwrap();
    assert_eq!(
        p.step(PacketEvent::State(ClientState::Playing), true),
        vec![PacketStep::PongNewSequence, PacketStep::GenSequence]
    );
    let mut p = handle_packet(vec![255, 255, 1]).0.unwrap();
    assert_eq!(
        p.step(PacketEvent::State(ClientState::Initialized), true),
        vec![PacketStep::SkipSequence]
    );
    assert_eq!(
        p.step(PacketEvent::Sequence(4), true),
        vec![PacketStep::Dispatch { family: 255, action: 255, payload_start: 2 }, PacketStep::ClearBusy]
    );
    let mut p = handle_packet(vec![1, 255]).0.unwrap();
    assert_eq!(
        p.step(PacketEvent::State(ClientState::Uninitialized), true),
        vec![PacketStep::Dispatch { family: 255, action: 1, payload_start: 2 }, PacketStep::ClearBusy]
    );
    // Jukebox (21) has no handler
    let mut p = handle_packet(vec![1, 21]).0.unwrap();
    assert_eq!(
        p.step(PacketEvent::State(ClientState::Uninitialized), true),
        vec![PacketStep::Unhandled { family: 21, action: 1 }, PacketStep::ClearBusy]
    );
    assert!(!handled_family(21));
    assert!(handled_family(36));
}

#[test]
fn packet_unknown_header_closes() {
    assert_eq!(handle_packet(vec![100, 6]).1, vec![PacketStep::Close(CloseReason::InvalidPacketAction)]);
    assert_eq!(handle_packet(vec![8, 100]).1, vec![PacketStep::Close(CloseReason::InvalidPacketFamily)]);
}

#[test]
fn broadcast_reaches_players_in_game() {
    let players = vec![(1, ClientState::Playing), (2, ClientState::LoggedIn), (3, ClientState::Playing)];
    let (bytes, to) = broadcast_server_message(&"Hi".to_string(), &players);
    assert_eq!(bytes, b"Hi".to_vec());
    assert_eq!(to, vec![1, 3]);
}

#[test]
fn character_create_reads_request() {
    // session 3, gender male (1), hair 2, colour 4, skin 0, then the name
    let payload = vec![4, 254, 2, 254, 3, 254, 5, 254, 1, 254, 0xFF, b'b', b'o', b'b', 0xFF];
    let req = create(&payload).unwrap();
    assert_eq!(
        (req.session_id, req.gender, req.hair_style, req.hair_color, req.skin, req.name.as_str()),
        (3, 1, 2, 4, 0, "bob")
    );
    assert_eq!(create_reply(None), CreateReply::Rejected);
    assert_eq!(create_reply(Some(vec![1, 2])), CreateReply::World(vec![1, 2]));
}

#[test]
fn eo_numbers() {
    assert_eq!(encode_number(42), [43, 254, 254, 254]);
    assert_eq!(encode_number(533), [28, 3, 254, 254]);
    assert_eq!(encode_number(888888), [100, 225, 14, 254]);
    assert_eq!(encode_number(18994242), [15, 189, 44, 2]);
    assert_eq!(decode_char(&[43]), 42);
    assert_eq!(decode_char(&[254]), 0);
    assert_eq!(decode_char(&[0]), 0);
    assert_eq!(decode_char(&[]), 0);
    for n in 0..253u32 {
        assert_eq!(decode_char(&encode_number(n)[..1]), n);
    }
}

#[test]
fn requests_start_from_read_packets() {
    let login = || LoginRequestPacket { username: "alice".to_string(), password: "pw".to_string() };
    let (req, actions) = start_login(&session(ClientState::Accepted), login());
    assert_eq!(req.unwrap().username, "alice");
    assert_eq!(actions, vec![LoginAction::GetPlayerCount]);
    let (req, actions) = start_login(&session(ClientState::LoggedIn), login());
    assert!(req.is_none());
    assert_eq!(actions, vec![LoginAction::Close(CloseReason::NotAccepted)]);

    let (req, actions) = AccountRequest::start(&session(ClientState::Accepted), "bob".to_string());
    assert_eq!(req.unwrap().username, "bob");
    assert_eq!(actions, vec![AccountAction::GetConnection]);
    assert!(AccountRequest::start(&session(ClientState::Initialized), "bob".to_string()).1.is_empty());

    let create = || AccountCreatePacket {
        session_id: 3,
        username: "bob".to_string(),
        password: "pw".to_string(),
        full_name: "Bob".to_string(),
        location: "Here".to_string(),
        email: "b@x".to_string(),
        computer: "pc".to_string(),
        hdid: "1".to_string(),
    };
    let (req, actions) = AccountCreate::start(&session(ClientState::Accepted), create());
    assert_eq!(req.unwrap().packet.session_id, 3);
    assert_eq!(actions, vec![AccountAction::GetConnection]);
    assert!(AccountCreate::start(&session(ClientState::LoggedIn), create()).0.is_none());

    let agree = || AccountAgreePacket {
        username: "bob".to_string(),
        old_password: "a".to_string(),
        new_password: "b".to_string(),
    };
    let (req, actions) = AccountAgree::start(&session(ClientState::LoggedIn), agree());
    assert_eq!(req.unwrap().packet.new_password, "b");
    assert_eq!(actions, vec![AccountAction::GetConnection]);
    assert!(AccountAgree::start(&session(ClientState::Accepted), agree()).0.is_none());
}

#[test]
fn packet_action_and_family_bytes_known_to_the_protocol() {
    // action 19 and family 10 are not in the protocol
    let (p, steps) = handle_packet(vec![19, 1, 5]);
    assert!(p.is_none());
    assert_eq!(steps, vec![PacketStep::Close(CloseReason::InvalidPacketAction)]);
    let (p, steps) = handle_packet(vec![240, 10, 5]);
    assert!(p.is_none());
    assert_eq!(steps, vec![PacketStep::Close(CloseReason::InvalidPacketFamily)]);
    let (p, steps) = handle_packet(vec![244, 51, 5]);
    assert!(p.is_some());
    assert_eq!(steps, vec![PacketStep::GetState]);
}

#[test]
fn packet_failed_answers_return_the_error() {
    let mut p = handle_packet(vec![8, 36, 5]).0.unwrap();
    assert_eq!(
        p.step(PacketEvent::Failed("gone".to_string()), true),
        vec![PacketStep::ReturnError("gone".to_string())]
    );
    let mut p = handle_packet(vec![8, 36, 5]).0.unwrap();
    p.step(PacketEvent::State(ClientState::Playing), true);
    assert_eq!(
        p.step(PacketEvent::Failed("no sequence".to_string()), true),
        vec![PacketStep::ReturnError("no sequence".to_string())]
    );
    let mut p = handle_packet(vec![255, 255, 1]).0.unwrap();
    p.step(PacketEvent::State(ClientState::Initialized), true);
    assert_eq!(
        p.step(PacketEvent::Failed("x".to_string()), true),
        vec![PacketStep::ReturnError("x".to_string())]
    );
    assert_eq!(p.stage, PacketStage::Finished);
}
