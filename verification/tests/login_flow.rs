use ragnarok::account::db::AccountDB;
use ragnarok::character::server_list::ServerList;
use ragnarok::character::{ServerActivity, ServerInfo, ServerType};
use ragnarok::codec::{DecodeResult, EncodeResult};
use ragnarok::account::mmo_account::{AccountState, Sex};
use ragnarok::databases::account::InMemoryAccountDB;
use ragnarok::login::agent::LoginAgent;
use ragnarok::login::codec::LoginCodec;
use ragnarok::login::credentials::LoginCredentials;
use ragnarok::login::error::Error;
use ragnarok::login::request::Request;
use ragnarok::login::response::{CharacterSelectionInfo, LoginAborted, LoginFailed, Response};

fn field(text: &str, width: usize) -> Vec<u8> {
    let mut bytes = text.as_bytes().to_vec();
    bytes.resize(width, 0);
    bytes
}

fn cleartext_frame(user: &str, password: &str) -> Vec<u8> {
    let mut frame = vec![0x64, 0x00, 9, 9, 9, 9];
    frame.extend(field(user, 24));
    frame.extend(field(password, 24));
    frame.push(7);
    frame
}

fn decode_login(frame: &[u8]) -> LoginCredentials {
    match LoginCodec.decode(frame) {
        (n, DecodeResult::Item(Request::ClientLogin(credentials))) => {
            assert_eq!(n, frame.len());
            credentials
        }
        other => panic!("unexpected {:?}", other),
    }
}

fn agent() -> LoginAgent<InMemoryAccountDB> {
    LoginAgent::new(InMemoryAccountDB::new(false).unwrap())
}

#[test]
fn happy_path_cleartext_login() {
    let frame = cleartext_frame("sadroeck", "olasenor");
    assert_eq!(frame.len(), 55);
    let credentials = decode_login(&frame);
    match &credentials {
        LoginCredentials::ClearText { client_type, username, password } => {
            assert_eq!(*client_type, 7);
            assert_eq!(&username[..], &field("sadroeck", 24)[..]);
            assert_eq!(&password[..], &field("olasenor", 24)[..]);
        }
        other => panic!("unexpected {:?}", other),
    }
    let mut agent = agent();
    let account = agent.authenticate_at(credentials, 1_000).unwrap();
    assert_eq!(account.account_id, 2_000_042);
    assert_eq!(account.login_count, 1);
    assert_eq!(account.lastlogin, 1_000);
    let stored = agent.account_db.get_account_by_id(2_000_042).unwrap();
    assert_eq!(stored.login_count, 1);
    assert_eq!(stored.lastlogin, 1_000);

    agent.create_session_at(account.account_id, 1_000);
    assert_eq!(agent.session_expiry(2_000_042), Some(1_900));
    assert_eq!(agent.session_expiry(1), None);

    let info = CharacterSelectionInfo {
        account_id: account.account_id,
        authentication_code: 0x0102_0304,
        user_level: 0x0a0b_0c0d,
        sex: account.sex,
        web_auth_token: [0x55; 16],
        char_servers: ServerList::new(),
    };
    let mut buf = [0xeeu8; 100];
    match LoginCodec.encode(&Response::LoginSuccessV3(info), &mut buf) {
        EncodeResult::Written(n) => assert_eq!(n, 64),
        other => panic!("unexpected {:?}", other),
    }
    assert_eq!(&buf[..4], &[0xc4, 0x0a, 64, 0]);
    assert_eq!(&buf[4..8], &[0x04, 0x03, 0x02, 0x01]);
    assert_eq!(&buf[8..12], &2_000_042u32.to_le_bytes());
    assert_eq!(&buf[12..16], &[0x0d, 0x0c, 0x0b, 0x0a]);
    assert_eq!(&buf[16..46], &[0u8; 30]);
    assert_eq!(buf[46], 1);
    assert_eq!(&buf[47..63], &[0x55; 16]);
    assert_eq!(buf[63], 0);
    assert_eq!(&buf[64..], &[0xee; 36]);
}

#[test]
fn wrong_password() {
    let credentials = decode_login(&cleartext_frame("sadroeck", "WRONG"));
    let mut agent = agent();
    let failure = agent.authenticate_at(credentials, 1_000).unwrap_err();
    assert!(matches!(failure, LoginFailed::IncorrectPassword));
    let mut buf = [0xeeu8; 40];
    match LoginCodec.encode(&Response::LoginFailed(failure), &mut buf) {
        EncodeResult::Written(n) => assert_eq!(n, 26),
        other => panic!("unexpected {:?}", other),
    }
    assert_eq!(&buf[..2], &[0x3e, 0x08]);
    assert_eq!(&buf[2..6], &[1, 0, 0, 0]);
    assert_eq!(&buf[6..26], &[0u8; 20]);
    assert_eq!(&buf[26..], &[0xee; 14]);
    let stored = agent.account_db.get_account_by_id(2_000_042).unwrap();
    assert_eq!(stored.login_count, 0);
}

#[test]
fn unknown_user_cleartext() {
    let credentials = decode_login(&cleartext_frame("nobody", "olasenor"));
    let mut agent = agent();
    let failure = agent.authenticate_at(credentials, 1_000).unwrap_err();
    match &failure {
        LoginFailed::UnregisteredId(name) => assert_eq!(name, "nobody"),
        other => panic!("unexpected {:?}", other),
    }
    let mut buf = [0xeeu8; 26];
    match LoginCodec.encode(&Response::LoginFailed(failure), &mut buf) {
        EncodeResult::Written(n) => assert_eq!(n, 26),
        other => panic!("unexpected {:?}", other),
    }
    assert_eq!(&buf[..2], &[0x3e, 0x08]);
    assert_eq!(&buf[2..6], &[0, 0, 0, 0]);
    assert_eq!(&buf[6..26], &[0u8; 20]);
}

#[test]
fn banned_until_is_written_as_text() {
    let mut buf = [0xeeu8; 26];
    // 2021-03-04 05:06:07 UTC
    let failure = LoginFailed::BannedUntil(1_614_834_367);
    match LoginCodec.encode(&Response::LoginFailed(failure), &mut buf) {
        EncodeResult::Written(n) => assert_eq!(n, 26),
        other => panic!("unexpected {:?}", other),
    }
    assert_eq!(&buf[..2], &[0x3e, 0x08]);
    assert_eq!(&buf[2..6], &[6, 0, 0, 0]);
    assert_eq!(&buf[6..22], b"2021-03-04 05:06");
    assert_eq!(&buf[22..26], &[0u8; 4]);
}

#[test]
fn encode_overflow_writes_nothing() {
    let mut buf = [0xeeu8; 25];
    match LoginCodec.encode(&Response::LoginFailed(LoginFailed::IdIsExpired), &mut buf) {
        EncodeResult::Overflow(needed) => assert_eq!(needed, 26),
        other => panic!("unexpected {:?}", other),
    }
    assert_eq!(buf, [0xeeu8; 25]);
    let mut small = [0xeeu8; 2];
    match LoginCodec.encode(&Response::LoginAborted(LoginAborted::ServerClosed), &mut small) {
        EncodeResult::Overflow(needed) => assert_eq!(needed, 3),
        other => panic!("unexpected {:?}", other),
    }
    assert_eq!(small, [0xeeu8; 2]);
    let mut exact = [0xeeu8; 3];
    match LoginCodec.encode(&Response::LoginAborted(LoginAborted::AlreadyOnline), &mut exact) {
        EncodeResult::Written(n) => assert_eq!(n, 3),
        other => panic!("unexpected {:?}", other),
    }
    assert_eq!(exact, [0x81, 0x00, 8]);
}

#[test]
fn login_success_lists_servers() {
    let servers = vec![
        ServerInfo {
            ip_addr: 0x7f00_0001,
            port: 6121,
            name: "Midgard".to_string(),
            active_users: 3,
            server_type: ServerType::Paying,
            server_activity: ServerActivity::Busy,
        };
        7
    ];
    let list = ServerList::from_infos(&servers);
    assert_eq!(list.len(), 5);
    assert_eq!(list.get(4).unwrap().port, 6121);
    assert!(list.get(5).is_none());
    let info = CharacterSelectionInfo {
        account_id: 1,
        authentication_code: 2,
        user_level: 3,
        sex: Sex::Female,
        web_auth_token: [0; 16],
        char_servers: list,
    };
    let mut buf = vec![0xeeu8; 64 + 160 * 5];
    match LoginCodec.encode(&Response::LoginSuccessV3(info), &mut buf) {
        EncodeResult::Written(n) => assert_eq!(n, 864),
        other => panic!("unexpected {:?}", other),
    }
    assert_eq!(&buf[2..4], &864u16.to_le_bytes());
    assert_eq!(buf[46], 0);
    for i in 0..5 {
        let record = &buf[64 + 160 * i..64 + 160 * (i + 1)];
        assert_eq!(&record[..4], &[127, 0, 0, 1]);
        assert_eq!(&record[4..6], &6121u16.to_le_bytes());
        assert_eq!(&record[6..13], b"Midgard");
        assert_eq!(&record[13..26], &[0u8; 13]);
        assert_eq!(&record[26..28], &[2, 0]);
        assert_eq!(&record[28..30], &[3, 0]);
        assert_eq!(&record[30..], &[0u8; 130]);
    }
}

#[test]
fn login_decoder_boundaries() {
    assert!(matches!(LoginCodec.decode(&[]), (0, DecodeResult::UnexpectedEnd)));
    assert!(matches!(LoginCodec.decode(&[0x64]), (0, DecodeResult::UnexpectedEnd)));
    let frame = cleartext_frame("sadroeck", "olasenor");
    assert!(matches!(LoginCodec.decode(&frame[..54]), (0, DecodeResult::UnexpectedEnd)));
    let mut longer = frame.clone();
    longer.extend([1, 2, 3]);
    match LoginCodec.decode(&longer) {
        (55, DecodeResult::Item(Request::ClientLogin(LoginCredentials::ClearText {
            client_type,
            ..
        }))) => assert_eq!(client_type, 7),
        other => panic!("unexpected {:?}", other),
    }
    match LoginCodec.decode(&[0xff, 0xff, 0, 0]) {
        (0, DecodeResult::Failed(Error::InvalidCommand(code))) => assert_eq!(code, 0xffff),
        other => panic!("unexpected {:?}", other),
    }
    let mut keep_alive = vec![0x00, 0x02];
    keep_alive.extend([0u8; 24]);
    assert!(matches!(LoginCodec.decode(&keep_alive), (26, DecodeResult::Item(Request::KeepAlive))));
    let mut hash = vec![0x04, 0x02];
    hash.extend(1..=16u8);
    match LoginCodec.decode(&hash) {
        (18, DecodeResult::Item(Request::UpdateClientHash(bytes))) => {
            assert_eq!(bytes, [1, 2, 3, 4, 5, 6, 7, 8, 9, 10, 11, 12, 13, 14, 15, 16])
        }
        other => panic!("unexpected {:?}", other),
    }
    assert!(matches!(LoginCodec.decode(&[0xdb, 0x01]), (2, DecodeResult::Item(Request::CodeKey))));
    assert!(matches!(
        LoginCodec.decode(&[0xcf, 0x0a]),
        (2, DecodeResult::Item(Request::OneTimeToken))
    ));
    assert!(matches!(
        LoginCodec.decode(&[0x10, 0x27]),
        (2, DecodeResult::Item(Request::ConnectChar))
    ));
}

#[test]
fn lapsed_ban_is_lifted() {
    let mut agent = agent();
    let mut account = agent.account_db.get_account_by_id(2_000_042).unwrap();
    account.state = AccountState::Banned(999);
    agent.account_db.save_account(&account).unwrap();
    let failure = agent
        .authenticate_at(decode_login(&cleartext_frame("sadroeck", "olasenor")), 999)
        .unwrap_err();
    assert!(matches!(failure, LoginFailed::BannedUntil(999)));
    let account = agent
        .authenticate_at(decode_login(&cleartext_frame("sadroeck", "olasenor")), 1_000)
        .unwrap();
    assert_eq!(account.state, AccountState::Normal);
    let stored = agent.account_db.get_account_by_id(2_000_042).unwrap();
    assert_eq!(stored.state, AccountState::Normal);
    assert_eq!(stored.login_count, 1);
}

#[test]
fn login_success_v1_has_no_wire_form() {
    let info = CharacterSelectionInfo {
        account_id: 1,
        authentication_code: 2,
        user_level: 3,
        sex: Sex::Male,
        web_auth_token: [0; 16],
        char_servers: ServerList::new(),
    };
    let response = Response::LoginSuccessV1(info);
    assert_eq!(response.command_code(), 0x69);
    let mut buf = [0xeeu8; 128];
    match LoginCodec.encode(&response, &mut buf) {
        EncodeResult::Failed(Error::InvalidCommand(code)) => assert_eq!(code, 0x69),
        other => panic!("unexpected {:?}", other),
    }
    assert_eq!(buf, [0xeeu8; 128]);
}

#[test]
fn login_session_follows_its_states() {
    let mut agent = agent();
    let mut tickets = ragnarok::databases::authentication::AuthenticationDB::new();
    let mut session = ragnarok::login::session::LoginSession::new(ServerList::new());
    let reply = session.process_request_at(&mut agent, &mut tickets, Request::KeepAlive, 5, 1, 2);
    assert!(reply.response.is_none() && !reply.close);
    let reply =
        session.process_request_at(&mut agent, &mut tickets, Request::UpdateClientHash([3; 16]), 5, 1, 2);
    assert!(reply.response.is_none() && !reply.close);
    assert_eq!(session.client_hash, Some([3; 16]));
    let wrong = decode_login(&cleartext_frame("sadroeck", "nope"));
    let reply =
        session.process_request_at(&mut agent, &mut tickets, Request::ClientLogin(wrong), 5, 1, 2);
    assert!(!reply.close);
    assert!(matches!(
        reply.response,
        Some(Response::LoginFailed(LoginFailed::IncorrectPassword))
    ));
    assert_eq!(agent.session_expiry(2_000_042), None);
    let right = decode_login(&cleartext_frame("sadroeck", "olasenor"));
    let reply =
        session.process_request_at(&mut agent, &mut tickets, Request::ClientLogin(right), 5, 11, 22);
    assert!(reply.close);
    match reply.response {
        Some(Response::LoginSuccessV3(info)) => {
            assert_eq!(info.account_id, 2_000_042);
            assert_eq!(info.authentication_code, 11);
            assert_eq!(info.user_level, 22);
            assert_eq!(info.sex, Sex::Male);
            assert_eq!(info.char_servers.len(), 0);
        }
        _ => panic!("unexpected response"),
    }
    assert_eq!(agent.session_expiry(2_000_042), Some(905));
    let presented = ragnarok::character::request::AccountInfo {
        account_id: 2_000_042,
        authentication_code: 11,
        user_level: 22,
        sex: Sex::Male,
    };
    assert!(tickets.check_if_authenticated(presented, 904));
    let reply = session.process_request_at(&mut agent, &mut tickets, Request::KeepAlive, 6, 1, 2);
    assert!(reply.response.is_none() && reply.close);

    for request in [Request::CodeKey, Request::OneTimeToken, Request::ConnectChar] {
        let mut session = ragnarok::login::session::LoginSession::new(ServerList::new());
        let reply = session.process_request_at(&mut agent, &mut tickets, request, 5, 1, 2);
        assert!(reply.close);
        let mut buf = [0u8; 3];
        match LoginCodec.encode(&reply.response.unwrap(), &mut buf) {
            EncodeResult::Written(3) => assert_eq!(buf, [0x81, 0x00, 1]),
            other => panic!("unexpected {:?}", other),
        }
    }
    let mut session = ragnarok::login::session::LoginSession::new(ServerList::new());
    let reply = session.process_request(
        &mut agent,
        &mut tickets,
        Request::ClientLogin(decode_login(&cleartext_frame("sadroeck", "olasenor"))),
    );
    match reply.response {
        Some(Response::LoginSuccessV3(info)) => {
            assert!(info.authentication_code != 0 && info.user_level != 0);
        }
        _ => panic!("unexpected response"),
    }
}
