use ragnarok::account::mmo_account::Sex;
use ragnarok::character::attributes::{Class, Location, Point};
use ragnarok::character::codec::CharacterCodec;
use ragnarok::character::db::CharacterDB;
use ragnarok::character::request::{AccountInfo, Request};
use ragnarok::character::response::Response;
use ragnarok::character::server::CharacterServer;
use ragnarok::character::session::{CharCreationError, CharacterSession, SessionState};
use ragnarok::codec::{DecodeResult, EncodeResult};
use ragnarok::config::character::{StartingCharacter, StartingCharacterConfig};
use ragnarok::databases::account::InMemoryAccountDB;
use ragnarok::databases::authentication::{AuthenticatedSession, AuthenticationDB};
use ragnarok::databases::character::InMemoryCharacterDB;
use ragnarok::databases::inventory::{InMemoryInventoryDB, InventoryDB};
use ragnarok::error::PacketError;
use ragnarok::inventory::{Item, ItemId};
use ragnarok::login::agent::LoginAgent;
use ragnarok::login::codec::LoginCodec;
use ragnarok::login::request::Request as LoginRequest;
use ragnarok::login::response::Response as LoginResponse;
use ragnarok::login::session::LoginSession;
use ragnarok::character::server_list::ServerList;
use ragnarok::map::{MapName, Maps};
use ragnarok::pincode::PincodeStatus;

type Server = CharacterServer<InMemoryCharacterDB, InMemoryInventoryDB>;

fn item(id: u32, slot: u16) -> Item {
    Item { id: ItemId(id), slot, amount: 1, identified: true, equipped_slot: None }
}

fn location() -> Location {
    Location { map_server_id: 0, last_location: Point { map_id: 1, x: 5, y: 6 }, save: None, memo: None }
}

fn server() -> Server {
    CharacterServer::new(
        AuthenticationDB::new(),
        InMemoryCharacterDB::new(false).unwrap(),
        InMemoryInventoryDB::new(false),
        StartingCharacterConfig {
            novice: StartingCharacter { items: vec![item(501, 0), item(1201, 1)], location: location() },
            doram: StartingCharacter { items: vec![item(569, 0)], location: location() },
        },
    )
}

fn codec() -> CharacterCodec {
    CharacterCodec::new(Maps::new(vec![
        MapName::new("prontera.gat".to_string()),
        MapName::new("izlude.gat".to_string()),
    ]))
}

fn ticket(expires_at: u64) -> AuthenticatedSession {
    AuthenticatedSession {
        account_id: 2_000_042,
        authentication_code: 7,
        user_level: 3,
        sex: Sex::Male,
        web_auth_token: [0; 16],
        expires_at,
    }
}

fn connect_frame() -> Vec<u8> {
    let mut frame = vec![0x65, 0x00];
    frame.extend(2_000_042u32.to_le_bytes());
    frame.extend(7u32.to_le_bytes());
    frame.extend(3u32.to_le_bytes());
    frame.extend([0, 0]);
    frame.push(1);
    frame
}

fn create_frame(name: &str, slot: u8, class: u16) -> Vec<u8> {
    let mut frame = vec![0x67, 0x00];
    let mut field = name.as_bytes().to_vec();
    field.resize(24, 0);
    frame.extend(field);
    frame.push(slot);
    frame.extend(2u16.to_le_bytes());
    frame.extend(5u16.to_le_bytes());
    frame.extend(class.to_le_bytes());
    frame.extend([0, 0]);
    frame.push(1);
    frame
}

fn decode(frame: &[u8]) -> Request {
    match codec().decode(frame) {
        (n, DecodeResult::Item(request)) => {
            assert_eq!(n, frame.len());
            request
        }
        other => panic!("unexpected {:?}", other),
    }
}

fn encode(response: &Response) -> Vec<u8> {
    let mut buf = vec![0xeeu8; 4096];
    match codec().encode(response, &mut buf) {
        EncodeResult::Written(n) => {
            assert!(buf[n..].iter().all(|b| *b == 0xee));
            buf.truncate(n);
            buf
        }
        other => panic!("unexpected {:?}", other),
    }
}

#[test]
fn connect_client_without_ticket() {
    let frame = connect_frame();
    assert_eq!(frame.len(), 17);
    let request = decode(&frame);
    match &request {
        Request::ConnectClient(info) => assert_eq!(
            *info,
            AccountInfo { account_id: 2_000_042, authentication_code: 7, user_level: 3, sex: Sex::Male }
        ),
        other => panic!("unexpected {:?}", other),
    }
    let mut server = server();
    let mut session = CharacterSession::new();
    let reply = session.process_request_at(&mut server, request, 1_000, 99);
    assert!(reply.close);
    assert!(reply.handoff.is_none());
    assert_eq!(reply.responses.len(), 1);
    assert_eq!(encode(&reply.responses[0]), vec![0x6c, 0x00, 0x00]);
    assert_eq!(session.state, SessionState::Closed);
    let reply = session.process_request_at(&mut server, Request::ListCharacters, 1_000, 99);
    assert!(reply.close);
    assert!(reply.responses.is_empty());
}

#[test]
fn connect_with_ticket_is_welcomed_once() {
    let mut server = server();
    server.authentication_db.authenticate(ticket(1_900));
    let mut session = CharacterSession::new();
    let reply = session.process_request_at(&mut server, decode(&connect_frame()), 1_000, 0x0a0b0c0d);
    assert!(!reply.close);
    assert_eq!(reply.responses.len(), 5);
    assert_eq!(encode(&reply.responses[0]), 2_000_042u32.to_le_bytes().to_vec());
    let mut slot_count = vec![0x2d, 0x08, 29, 0, 12, 12, 0, 12, 12];
    slot_count.extend([0u8; 20]);
    assert_eq!(encode(&reply.responses[1]), slot_count);
    let mut info = vec![0x6b, 0x00, 28, 0, 12, 12, 12, 12];
    info.extend([0u8; 20]);
    assert_eq!(encode(&reply.responses[2]), info);
    assert_eq!(encode(&reply.responses[3]), vec![0x0d, 0x02, 4, 0]);
    let mut pincode = vec![0xb9, 0x08, 0x0d, 0x0c, 0x0b, 0x0a];
    pincode.extend(2_000_042u32.to_le_bytes());
    pincode.extend([0, 0]);
    assert_eq!(encode(&reply.responses[4]), pincode);
    match &reply.responses[4] {
        Response::PincodeInfo(info) => assert_eq!(info.status, PincodeStatus::Correct),
        _ => panic!("unexpected response"),
    }
    assert!(matches!(session.state, SessionState::Idle(_)));

    // the same ticket on a second connection
    let mut second = CharacterSession::new();
    let reply = second.process_request_at(&mut server, decode(&connect_frame()), 1_001, 1);
    assert!(reply.close);
    assert_eq!(reply.responses.len(), 1);
    assert!(matches!(reply.responses[0], Response::Rejected));

    // a second ticket on the first connection
    server.authentication_db.authenticate(ticket(1_900));
    let reply = session.process_request_at(&mut server, decode(&connect_frame()), 1_002, 1);
    assert!(reply.close);
    assert!(matches!(reply.responses[0], Response::Rejected));
    assert_eq!(session.state, SessionState::Closed);
}

#[test]
fn mismatched_ticket_is_rejected_and_kept() {
    let mut server = server();
    let mut wrong = ticket(1_900);
    wrong.authentication_code = 8;
    server.authentication_db.authenticate(wrong);
    let info = AccountInfo { account_id: 2_000_042, authentication_code: 7, user_level: 3, sex: Sex::Male };
    assert!(!server.authentication_db.check_if_authenticated(info, 1_000));
    let right = AccountInfo { authentication_code: 8, ..info };
    let level = AccountInfo { user_level: 4, ..right };
    assert!(!server.authentication_db.check_if_authenticated(level, 1_000));
    assert!(server.authentication_db.check_if_authenticated(right, 1_000));
    assert!(!server.authentication_db.check_if_authenticated(right, 1_000));
}

#[test]
fn expired_ticket() {
    let mut accounts = LoginAgent::new(InMemoryAccountDB::new(false).unwrap());
    let mut server = server();
    let mut login = LoginSession::new(ServerList::new());
    let mut frame = vec![0x64, 0x00, 0, 0, 0, 0];
    let mut user = b"sadroeck".to_vec();
    user.resize(24, 0);
    let mut password = b"olasenor".to_vec();
    password.resize(24, 0);
    frame.extend(user);
    frame.extend(password);
    frame.push(0);
    let request = match LoginCodec.decode(&frame) {
        (55, DecodeResult::Item(request)) => request,
        other => panic!("unexpected {:?}", other),
    };
    assert!(matches!(request, LoginRequest::ClientLogin(_)));
    let reply = login.process_request_at(
        &mut accounts,
        &mut server.authentication_db,
        request,
        10_000,
        7,
        3,
    );
    assert!(reply.close);
    let (code, level) = match reply.response {
        Some(LoginResponse::LoginSuccessV3(info)) => {
            assert_eq!(info.account_id, 2_000_042);
            (info.authentication_code, info.user_level)
        }
        _ => panic!("unexpected response"),
    };
    assert_eq!((code, level), (7, 3));
    assert_eq!(accounts.session_expiry(2_000_042), Some(10_900));

    let mut session = CharacterSession::new();
    let reply = session.process_request_at(&mut server, decode(&connect_frame()), 10_901, 1);
    assert!(reply.close);
    assert_eq!(reply.responses.len(), 1);
    assert!(matches!(reply.responses[0], Response::Rejected));

    // the ticket is still on file, and good before its end
    let mut session = CharacterSession::new();
    let reply = session.process_request_at(&mut server, decode(&connect_frame()), 10_900, 1);
    assert!(reply.close);
    let mut session = CharacterSession::new();
    let reply = session.process_request_at(&mut server, decode(&connect_frame()), 10_899, 1);
    assert!(!reply.close);
    assert_eq!(reply.responses.len(), 5);
}

fn connected() -> (Server, CharacterSession) {
    let mut server = server();
    server.authentication_db.authenticate(ticket(1_900));
    let mut session = CharacterSession::new();
    let reply = session.process_request_at(&mut server, decode(&connect_frame()), 1_000, 1);
    assert_eq!(reply.responses.len(), 5);
    (server, session)
}

#[test]
fn character_creation() {
    let (mut server, mut session) = connected();
    let frame = create_frame("Hero", 0, 0);
    assert_eq!(frame.len(), 36);
    let reply = session.process_request_at(&mut server, decode(&frame), 1_001, 1);
    assert!(!reply.close);
    assert_eq!(reply.responses.len(), 1);
    let bytes = encode(&reply.responses[0]);
    assert_eq!(bytes.len(), 157);
    assert_eq!(&bytes[..2], &[0x6d, 0x00]);
    let body = &bytes[2..];
    let id = u32::from_le_bytes([body[0], body[1], body[2], body[3]]);
    assert!(id >= 2_000_000);
    assert_eq!(&body[110..112], &[0, 0]);
    assert_eq!(&body[56..58], &[0, 0]);
    assert_eq!(&body[80..84], b"Hero");
    assert_eq!(&body[84..104], &[0u8; 20]);
    assert_eq!(&body[58..60], &[5, 0]);
    assert_eq!(&body[76..78], &[2, 0]);
    assert_eq!(body[146], 1);

    let stored = server.character_db.get_by_id(id).unwrap();
    assert_eq!(stored.account_id, 2_000_042);
    assert_eq!(stored.name.0, "Hero");
    assert_eq!(stored.class, Class::Novice);
    assert_eq!(stored.stats.hp, 40);
    assert_eq!(stored.stats.sp, 11);
    assert_eq!(stored.stats.str, 1);
    let inventory = server.inventory_db.get(id).unwrap();
    assert_eq!(inventory.character_id, id);
    assert_eq!(inventory.items, vec![item(501, 0), item(1201, 1)]);

    let reply = session.process_request_at(&mut server, decode(&[0xa1, 0x09]), 1_002, 1);
    assert_eq!(reply.responses.len(), 1);
    let list = encode(&reply.responses[0]);
    assert_eq!(list.len(), 4 + 155);
    assert_eq!(&list[..4], &[0x9d, 0x09, 159, 0]);
    assert_eq!(&list[4..], body);
}

#[test]
fn character_creation_is_refused() {
    let (mut server, mut session) = connected();
    let create = |server: &mut Server, session: &CharacterSession, name: &str, slot: u8, class: u16| {
        match decode(&create_frame(name, slot, class)) {
            Request::CreateCharacter(new_character) => session.create_character(server, new_character),
            other => panic!("unexpected {:?}", other),
        }
    };
    assert_eq!(create(&mut server, &session, "a", 12, 0).unwrap_err(), CharCreationError::InvalidSlot(12));
    assert_eq!(
        create(&mut server, &session, "a", 0, 1).unwrap_err(),
        CharCreationError::InvalidClass(Class::Swordman)
    );
    let doram = create(&mut server, &session, "cat", 3, 4218).unwrap();
    assert_eq!(doram.class, Class::Summoner);
    assert_eq!(doram.slot, 3);
    assert_eq!(server.inventory_db.get(doram.id).unwrap().items, vec![item(569, 0)]);
    assert_eq!(create(&mut server, &session, "b", 3, 0).unwrap_err(), CharCreationError::InvalidSlot(3));
    assert_eq!(create(&mut server, &session, "", 1, 0).unwrap_err(), CharCreationError::InvalidName);
    assert_eq!(create(&mut server, &session, "", 1, 1).unwrap_err(), CharCreationError::InvalidClass(Class::Swordman));
    let reply = session.process_request_at(&mut server, decode(&create_frame("", 1, 0)), 1_003, 1);
    assert!(!reply.close);
    assert_eq!(reply.responses.len(), 1);
    assert!(matches!(reply.responses[0], Response::Rejected));
    assert!(matches!(session.state, SessionState::Idle(_)));
    assert_eq!(server.character_db.get_by_account_id(2_000_042).unwrap().len(), 1);
    for slot in 0..12u8 {
        if slot != 3 {
            create(&mut server, &session, "x", slot, 0).unwrap();
        }
    }
    assert_eq!(server.character_db.get_by_account_id(2_000_042).unwrap().len(), 12);
    assert_eq!(
        create(&mut server, &session, "y", 5, 0).unwrap_err(),
        CharCreationError::TooManyCharacters(12)
    );
    // a refusal keeps the connection
    let reply = session.process_request_at(&mut server, decode(&create_frame("y", 5, 0)), 1_003, 1);
    assert!(!reply.close);
    assert!(matches!(reply.responses[0], Response::Rejected));
    assert_eq!(server.character_db.get_by_account_id(2_000_042).unwrap().len(), 12);
}

#[test]
fn select_character_hands_off() {
    let (mut server, mut session) = connected();
    let reply = session.process_request_at(&mut server, decode(&[0x66, 0x00, 4]), 1_001, 1);
    assert!(!reply.close);
    assert!(matches!(reply.responses[0], Response::Rejected));
    assert!(matches!(session.state, SessionState::Idle(_)));
    session.process_request_at(&mut server, decode(&create_frame("Hero", 4, 0)), 1_002, 1);
    let reply = session.process_request_at(&mut server, decode(&[0x66, 0x00, 4]), 1_003, 1);
    assert!(reply.responses.is_empty());
    assert_eq!(reply.handoff.unwrap().name.0, "Hero");
    assert!(matches!(session.state, SessionState::CharacterPicked(_)));
    let reply = session.process_request_at(&mut server, Request::KeepAlive, 1_004, 1);
    assert!(reply.close);
    assert_eq!(session.state, SessionState::Closed);
}

#[test]
fn other_requests_are_rejected_but_served() {
    let (mut server, mut session) = connected();
    for opcode in [0x68u16, 0x1fb, 0x28d, 0x7e5, 0x7e7, 0x8d4, 0x827, 0x829, 0x82b, 0x8b8, 0x8c5, 0x8be, 0x8ba] {
        let reply = session.process_request_at(&mut server, decode(&opcode.to_le_bytes()), 1_001, 1);
        assert!(!reply.close);
        assert_eq!(reply.responses.len(), 1);
        assert!(matches!(reply.responses[0], Response::Rejected));
    }
    let reply = session.process_request_at(&mut server, decode(&[0x87, 0x01, 1, 2, 3, 4]), 1_001, 1);
    assert!(!reply.close);
    assert!(reply.responses.is_empty());
    let mut fresh = CharacterSession::new();
    let reply = fresh.process_request_at(&mut server, Request::KeepAlive, 1_001, 1);
    assert!(!reply.close);
    let reply = fresh.process_request_at(&mut server, Request::ListCharacters, 1_001, 1);
    assert!(reply.close);
    assert!(matches!(reply.responses[0], Response::Rejected));
}

#[test]
fn character_decoder_boundaries() {
    let mut codec = codec();
    assert!(matches!(codec.decode(&[0x65]), (0, DecodeResult::UnexpectedEnd)));
    assert!(matches!(codec.decode(&connect_frame()[..16]), (0, DecodeResult::UnexpectedEnd)));
    match codec.decode(&[0x34, 0x12, 0, 0]) {
        (0, DecodeResult::Failed(PacketError::InvalidCommand(code))) => assert_eq!(code, 0x1234),
        other => panic!("unexpected {:?}", other),
    }
    let mut bad_sex = connect_frame();
    bad_sex[16] = 3;
    match codec.decode(&bad_sex) {
        (0, DecodeResult::Failed(PacketError::InvalidRequest(reason))) => assert_eq!(reason, "Invalid sex"),
        other => panic!("unexpected {:?}", other),
    }
    match codec.decode(&create_frame("Hero", 0, 31)) {
        (0, DecodeResult::Failed(PacketError::InvalidRequest(reason))) => assert_eq!(reason, "Invalid class"),
        other => panic!("unexpected {:?}", other),
    }
    match codec.decode(&create_frame("", 0, 0)) {
        (36, DecodeResult::Item(Request::CreateCharacter(new_character))) => {
            assert_eq!(new_character.name.0, "");
            assert_eq!(new_character.class, Class::Novice);
        }
        other => panic!("unexpected {:?}", other),
    }
    let mut longer = create_frame("Hero\0junk", 2, 4218);
    longer.extend([9, 9, 9]);
    match codec.decode(&longer) {
        (36, DecodeResult::Item(Request::CreateCharacter(new_character))) => {
            assert_eq!(new_character.name.0, "Hero");
            assert_eq!(new_character.slot, 2);
            assert_eq!(new_character.class, Class::Summoner);
            assert_eq!(new_character.sex, Sex::Male);
            assert_eq!(new_character.appearance.hair, 5);
            assert_eq!(new_character.appearance.hair_color, 2);
            assert_eq!(new_character.stats.max_hp, 40);
        }
        other => panic!("unexpected {:?}", other),
    }
    for opcode in [0x67u16, 0x970, 0xa39] {
        let mut frame = create_frame("Hero", 0, 0);
        frame[..2].copy_from_slice(&opcode.to_le_bytes());
        assert!(matches!(codec.decode(&frame), (36, DecodeResult::Item(Request::CreateCharacter(_)))));
    }
    assert!(matches!(
        codec.decode(&[0x66, 0x00, 9, 1]),
        (3, DecodeResult::Item(Request::SelectCharacter(9)))
    ));
}
