use ragnarok::account::mmo_account::Sex;
use ragnarok::character::attributes::{Class, HotkeyType, Weapon};
use ragnarok::character::codec::CharacterCodec;
use ragnarok::character::name::CharacterName;
use ragnarok::character::response::Response;
use ragnarok::character::{Character, ServerActivity, ServerType};
use ragnarok::character::request::encode_request as encode_character_request;
use ragnarok::codec::{
    fill_padded, ClientTcpCodec, DecodeResult, EncodeFixed, EncodeResult, EncodeStruct,
    RagnarokCodec,
};
use ragnarok::login::codec::LoginCodec;
use ragnarok::login::request::encode_request as encode_login_request;
use ragnarok::error::PacketError;
use ragnarok::login::request::{parse_cleartext_credentials, parse_hashed_credentials, LoginCommand};
use ragnarok::login::credentials::LoginCredentials;
use ragnarok::login::response::{LoginAborted, LoginFailed};
use ragnarok::map::{MapName, Maps};
use ragnarok::pincode::{PincodeInfo, PincodeStatus};
use ragnarok::text::{bytes_equal, copy_zero_terminated_buffer, text_bytes, text_len};
use ragnarok::utils::{parse_long, parse_word};

#[test]
fn integers_are_little_endian() {
    assert_eq!(parse_word(&[0x34, 0x12, 0xff]), 0x1234);
    assert_eq!(parse_long(&[0x78, 0x56, 0x34, 0x12, 0xff]), 0x1234_5678);
    assert_eq!(parse_word(&[0xff, 0xff]), 0xffff);
    assert_eq!(parse_long(&[0xff, 0xff, 0xff, 0xff]), u32::MAX);
    let mut buf = [0xeeu8; 16];
    let mut codec = ClientTcpCodec::new(&mut buf);
    assert_eq!(codec.capacity(), 16);
    assert_eq!(codec.len(), 0);
    codec.encode_u8(0xab);
    codec.encode_u16(0x1234);
    codec.encode_u32(0x1234_5678);
    codec.encode_u32_be(0x7f00_0001);
    codec.padding(2);
    codec.encode_padded(b"abcdef", 3);
    assert_eq!(codec.len(), 16);
    assert_eq!(buf, [0xab, 0x34, 0x12, 0x78, 0x56, 0x34, 0x12, 127, 0, 0, 1, 0, 0, b'a', b'b', b'c']);
}

#[test]
fn fixed_values_encode_through_the_traits() {
    let mut buf = [0xeeu8; 64];
    let mut codec = ClientTcpCodec::new(&mut buf);
    RagnarokCodec::encode(&mut codec, &0x11u8);
    RagnarokCodec::encode(&mut codec, &0x2233u16);
    RagnarokCodec::encode(&mut codec, &0x4455_6677u32);
    RagnarokCodec::encode(&mut codec, &0x0102_0304_0506_0708u64);
    RagnarokCodec::padding(&mut codec, 1);
    RagnarokCodec::encode(&mut codec, &MapName::new("iz.gat".to_string()));
    let pincode = PincodeInfo { status: PincodeStatus::Incorrect, account_id: 2, seed: 3 };
    codec.encode_struct(&pincode);
    assert_eq!(codec.len(), 42);
    assert_eq!(&buf[..7], &[0x11, 0x33, 0x22, 0x77, 0x66, 0x55, 0x44]);
    assert_eq!(&buf[7..15], &[8, 7, 6, 5, 4, 3, 2, 1]);
    assert_eq!(buf[15], 0);
    assert_eq!(&buf[16..22], b"iz.gat");
    assert_eq!(&buf[22..32], &[0u8; 10]);
    assert_eq!(&buf[32..42], &[3, 0, 0, 0, 2, 0, 0, 0, 8, 0]);
    assert_eq!(buf[42], 0xee);
    assert_eq!(EncodeFixed::size(&7u16), 2);
    let name = CharacterName::from_string("abcdefghijklmnopqrstuvwxyz".to_string());
    assert_eq!(EncodeFixed::size(&name), 24);
    let mut field = [0xeeu8; 24];
    EncodeFixed::encode(&name, &mut field);
    assert_eq!(&field, b"abcdefghijklmnopqrstuvwx");
    let mut short = [0xeeu8; 5];
    fill_padded(&mut short, b"ab");
    assert_eq!(short, [b'a', b'b', 0, 0, 0]);
    let mut out = [0u8; 10];
    let mut codec = ClientTcpCodec::new(&mut out);
    EncodeStruct::encode(&pincode, &mut codec);
    assert_eq!(out, [3, 0, 0, 0, 2, 0, 0, 0, 8, 0]);
}

#[test]
fn text_ends_at_the_first_zero() {
    assert_eq!(text_len(b"abc\0def\0"), 3);
    assert_eq!(text_len(b"abc"), 3);
    assert_eq!(text_len(b"\0abc"), 0);
    assert_eq!(text_len(b""), 0);
    assert_eq!(text_bytes(b"ab\0cd"), b"ab");
    let mut buffer = [9u8; 6];
    copy_zero_terminated_buffer(&mut buffer, b"xy\0z");
    assert_eq!(buffer, [b'x', b'y', 9, 9, 9, 9]);
    assert!(bytes_equal(b"abc", b"abc"));
    assert!(!bytes_equal(b"abc", b"abd"));
    assert!(!bytes_equal(b"abc", b"ab"));
    assert!(matches!(CharacterName::try_from(&[b'a'; 23][..]), Err(PacketError::PacketIncomplete(24))));
    let mut field = [0u8; 30];
    field[..3].copy_from_slice(&[0xff, b'o', b'k']);
    assert_eq!(CharacterName::try_from(&field[..]).unwrap().0, "\u{fffd}ok");
    assert_eq!(CharacterName::empty().0, "");
}

#[test]
fn credentials_are_read_from_fixed_fields() {
    let mut body = vec![1, 2, 3, 4];
    let mut user = b"user\0junk".to_vec();
    user.resize(24, 0);
    body.extend(user);
    let mut password = b"secret".to_vec();
    password.resize(24, 0);
    body.extend(password);
    body.extend([5u8; 29]);
    body.push(42);
    assert_eq!(body.len(), 82);
    match parse_cleartext_credentials(&body) {
        LoginCredentials::ClearText { client_type, username, password } => {
            assert_eq!(client_type, 42);
            let mut expected = [0u8; 24];
            expected[..4].copy_from_slice(b"user");
            assert_eq!(username, expected);
            let mut expected = [0u8; 24];
            expected[..6].copy_from_slice(b"secret");
            assert_eq!(password, expected);
        }
        other => panic!("unexpected {:?}", other),
    }
    let mut hashed = vec![0u8; 4];
    let mut user = b"user".to_vec();
    user.resize(24, 0);
    hashed.extend(user);
    hashed.extend([0xaa, 0, 0xbb, 0, 1, 2, 3, 4, 5, 6, 7, 8, 9, 10, 11, 12]);
    hashed.push(3);
    assert_eq!(hashed.len(), 45);
    match parse_hashed_credentials(&hashed) {
        LoginCredentials::Hashed { client_type, password, .. } => {
            assert_eq!(client_type, 3);
            assert_eq!(password, [0xaa, 0, 0xbb, 0, 1, 2, 3, 4, 5, 6, 7, 8, 9, 10, 11, 12]);
        }
        other => panic!("unexpected {:?}", other),
    }
    for (code, size) in [(0x0200u16, 24usize), (0x0204, 16), (0x0064, 53), (0x0277, 82), (0x02b0, 83), (0x01dd, 45), (0x01fa, 46), (0x027c, 58)] {
        let command = LoginCommand::try_from(code).unwrap();
        assert_eq!(command.command_code(), code);
        assert_eq!(command.body_size(), size);
        let body = vec![0u8; size];
        assert_eq!(command.parse(&body).unwrap().0, size);
        assert!(matches!(
            command.parse(&body[..size - 1]),
            Err(ragnarok::login::error::Error::PacketIncomplete(1))
        ));
    }
}

#[test]
fn enumerations_have_their_wire_values() {
    assert_eq!(Sex::Male.into_u8(), 1);
    assert_eq!(Sex::Female.into_u8(), 0);
    assert_eq!(Sex::Server.into_u8(), 2);
    assert_eq!(Sex::try_from_u8(2), Some(Sex::Server));
    assert_eq!(Sex::try_from_u8(3), None);
    assert_eq!(ServerActivity::Hidden.into_u16(), 4);
    assert_eq!(ServerActivity::Crowded.into_u16(), 3);
    assert_eq!(ServerType::F2P.into_u16(), 4);
    assert_eq!(ServerType::Maintenance.into_u16(), 1);
    assert_eq!(Class::Novice.int_value(), 0);
    assert_eq!(Class::Summoner.int_value(), 4218);
    assert_eq!(Class::from_int(4244), Some(Class::BabyStarEmperor2));
    assert_eq!(Class::from_int(4053), None);
    assert_eq!(Class::from_int(31), None);
    for n in 0..=u16::MAX {
        if let Some(class) = Class::from_int(n) {
            assert_eq!(class.int_value(), n);
        }
        if let Some(weapon) = Weapon::from_int(n) {
            assert_eq!(weapon.int_value(), n);
        }
    }
    assert_eq!(Weapon::from_int(24), None);
    assert_eq!(Weapon::SwordAndAxe.int_value(), 30);
    assert_eq!(HotkeyType::from_int(1), Some(HotkeyType::Skill));
    assert_eq!(PincodeStatus::from_int(8), Some(PincodeStatus::Incorrect));
    assert_eq!(PincodeStatus::from_int(9), None);
    assert_eq!(LoginAborted::ServerClosed.error_code(), 1);
    assert_eq!(LoginAborted::AlreadyLoggedIn.error_code(), 2);
    assert_eq!(LoginAborted::AlreadyOnline.error_code(), 8);
    let codes: Vec<u32> = vec![
        LoginFailed::UnregisteredId(String::new()).error_code(),
        LoginFailed::IncorrectPassword.error_code(),
        LoginFailed::IdIsExpired.error_code(),
        LoginFailed::RejectedFromServer.error_code(),
        LoginFailed::AccountPermanentlySuspended.error_code(),
        LoginFailed::GameExeNotUpToDate.error_code(),
        LoginFailed::BannedUntil(0).error_code(),
        LoginFailed::ServerOverpopulated.error_code(),
        LoginFailed::MaxCompanyCapacityReached.error_code(),
        LoginFailed::BannedByDBA.error_code(),
        LoginFailed::EmailNotConfirmed.error_code(),
        LoginFailed::BannedByGM.error_code(),
        LoginFailed::TemporaryBanForDBWork.error_code(),
        LoginFailed::SelfLock.error_code(),
        LoginFailed::GroupNotPermittedV1(0).error_code(),
        LoginFailed::GroupNotPermittedV2(0).error_code(),
        LoginFailed::IdErased.error_code(),
        LoginFailed::LoginInfoRelocated.error_code(),
        LoginFailed::LockedForHackingInvestigation.error_code(),
        LoginFailed::LockedForBugInvestigation.error_code(),
        LoginFailed::DeleteInProgressV1.error_code(),
        LoginFailed::DeleteInProgressV2.error_code(),
    ];
    assert_eq!(codes, vec![0, 1, 2, 3, 4, 5, 6, 7, 8, 9, 10, 11, 12, 13, 14, 15, 99, 100, 101, 102, 103, 104]);
}

fn sample() -> Character {
    let mut c = Character::new(0x0102_0304, 9);
    c.experience.base_exp = 0x1_1112_1314;
    c.currency.zeny = 0x2122_2324;
    c.experience.job_exp = 0x3132_3334;
    c.experience.job_level = 0x4142;
    c.status.option = 0x0000_0047;
    c.status.karma = Some(0x5152_5354);
    c.status.manner = None;
    c.experience.status_points = 0x6162;
    c.stats.hp = 0x7172_7374;
    c.stats.max_hp = 0x8182_8384;
    c.stats.sp = 0x9192;
    c.stats.max_sp = 0xa1a2;
    c.class = Class::Summoner;
    c.appearance.hair = 0xb1b2;
    c.appearance.body = 0xc1c2;
    c.equipment.weapon = 0xd1d2;
    c.experience.base_level = 0xe1e2;
    c.experience.skill_points = 0xf1f2;
    c.equipment.head_bottom = 0x0a0b;
    c.equipment.shield = 0x0c0d;
    c.equipment.head_top = 0x0e0f;
    c.equipment.head_mid = 0x1a1b;
    c.appearance.hair_color = 0x1c1d;
    c.appearance.clothes_color = 0x1e1f;
    c.name = CharacterName::from_string("Hero".to_string());
    c.stats.str = 1;
    c.stats.agi = 2;
    c.stats.vit = 3;
    c.stats.int = 4;
    c.stats.dex = 5;
    c.stats.luk = 6;
    c.slot = 0x0b;
    c.settings.rename = 0;
    c.location.last_location.map_id = 2;
    c.status.delete_date = Some(0x1_2a2b_2c2d);
    c.equipment.robe = 0x3a3b_3c3d;
    c.sex = Sex::Server;
    c
}

fn maps() -> Maps {
    Maps::new(vec![MapName::new("prontera.gat".to_string()), MapName::new("izlude.gat".to_string())])
}

fn frame_of(c: &Character) -> Vec<u8> {
    let mut buf = [0xeeu8; 160];
    let mut codec = ClientTcpCodec::new(&mut buf);
    c.encode(&mut codec, &maps());
    assert_eq!(codec.len(), 155);
    assert_eq!(&buf[155..], &[0xee; 5]);
    buf[..155].to_vec()
}

#[test]
fn character_frame_is_laid_out_field_by_field() {
    let frame = frame_of(&sample());
    assert_eq!(&frame[0..4], &[0x04, 0x03, 0x02, 0x01]);
    assert_eq!(&frame[4..8], &[0x14, 0x13, 0x12, 0x11]);
    assert_eq!(&frame[8..12], &[0x24, 0x23, 0x22, 0x21]);
    assert_eq!(&frame[12..16], &[0x34, 0x33, 0x32, 0x31]);
    assert_eq!(&frame[16..20], &[0x42, 0x41, 0, 0]);
    assert_eq!(&frame[20..28], &[0u8; 8]);
    assert_eq!(&frame[28..32], &[0x07, 0, 0, 0]);
    assert_eq!(&frame[32..36], &[0x54, 0x53, 0x52, 0x51]);
    assert_eq!(&frame[36..40], &[0, 0, 0, 0]);
    assert_eq!(&frame[40..42], &[0x62, 0x61]);
    assert_eq!(&frame[42..46], &[0x74, 0x73, 0x72, 0x71]);
    assert_eq!(&frame[46..50], &[0x84, 0x83, 0x82, 0x81]);
    assert_eq!(&frame[50..52], &[0x92, 0x91]);
    assert_eq!(&frame[52..54], &[0xa2, 0xa1]);
    assert_eq!(&frame[54..56], &150u16.to_le_bytes());
    assert_eq!(&frame[56..58], &4218u16.to_le_bytes());
    assert_eq!(&frame[58..60], &[0xb2, 0xb1]);
    assert_eq!(&frame[60..62], &[0xc2, 0xc1]);
    assert_eq!(&frame[62..64], &[0xd2, 0xd1]);
    assert_eq!(&frame[64..66], &[0xe2, 0xe1]);
    assert_eq!(&frame[66..68], &[0xf2, 0xf1]);
    assert_eq!(&frame[68..70], &[0x0b, 0x0a]);
    assert_eq!(&frame[70..72], &[0x0d, 0x0c]);
    assert_eq!(&frame[72..74], &[0x0f, 0x0e]);
    assert_eq!(&frame[74..76], &[0x1b, 0x1a]);
    assert_eq!(&frame[76..78], &[0x1d, 0x1c]);
    assert_eq!(&frame[78..80], &[0x1f, 0x1e]);
    assert_eq!(&frame[80..84], b"Hero");
    assert_eq!(&frame[84..104], &[0u8; 20]);
    assert_eq!(&frame[104..110], &[1, 2, 3, 4, 5, 6]);
    assert_eq!(&frame[110..112], &[0x0b, 0]);
    assert_eq!(&frame[112..114], &[1, 0]);
    assert_eq!(&frame[114..124], b"izlude.gat");
    assert_eq!(&frame[124..130], &[0u8; 6]);
    assert_eq!(&frame[130..134], &[0x2d, 0x2c, 0x2b, 0x2a]);
    assert_eq!(&frame[134..138], &[0x3d, 0x3c, 0x3b, 0x3a]);
    assert_eq!(&frame[138..142], &[1, 0, 0, 0]);
    assert_eq!(&frame[142..146], &[1, 0, 0, 0]);
    assert_eq!(frame[146], 2);
    assert_eq!(&frame[147..155], &[0u8; 8]);
}

#[test]
fn character_frame_hides_what_is_to_be_hidden() {
    let mut c = sample();
    c.status.option = 0x0008_0000;
    c.settings.rename = 1;
    c.location.last_location.map_id = 3;
    c.status.delete_date = None;
    c.name = CharacterName::from_string("x".repeat(30));
    let frame = frame_of(&c);
    assert_eq!(&frame[28..32], &[0, 0, 0x08, 0]);
    assert_eq!(&frame[62..64], &[0, 0]);
    assert_eq!(&frame[112..114], &[0, 0]);
    assert_eq!(&frame[114..130], &[0u8; 16]);
    assert_eq!(&frame[130..134], &[0u8; 4]);
    assert_eq!(&frame[80..104], &[b'x'; 24]);
    c.status.option = 0x20;
    assert_eq!(&frame_of(&c)[62..64], &[0, 0]);
    c.status.option = 0x40;
    let frame = frame_of(&c);
    assert_eq!(&frame[28..32], &[0, 0, 0, 0]);
    assert_eq!(&frame[62..64], &[0xd2, 0xd1]);
    c.location.last_location.map_id = 0;
    assert_eq!(&frame_of(&c)[114..130], &[0u8; 16]);
}

fn encode(response: &Response, size: usize) -> Result<Vec<u8>, usize> {
    let mut codec = CharacterCodec::new(maps());
    let mut buf = vec![0xeeu8; size];
    match codec.encode(response, &mut buf) {
        EncodeResult::Written(n) => {
            assert!(buf[n..].iter().all(|b| *b == 0xee));
            buf.truncate(n);
            Ok(buf)
        }
        EncodeResult::Overflow(needed) => {
            assert!(buf.iter().all(|b| *b == 0xee));
            Err(needed)
        }
        EncodeResult::Failed(_) => panic!("refused"),
    }
}

#[test]
fn character_lists_carry_their_size() {
    let one = frame_of(&sample());
    for n in 0..=12usize {
        let characters: Vec<Character> = (0..n).map(|_| sample()).collect();
        let list = encode(&Response::Characters(characters.clone()), 4096).unwrap();
        let trailer = if n == 3 { 4 } else { 0 };
        assert_eq!(list.len(), 4 + 155 * n + trailer);
        assert_eq!(&list[..2], &[0x9d, 0x09]);
        assert_eq!(&list[2..4], &(list.len() as u16).to_le_bytes());
        for i in 0..n {
            assert_eq!(&list[4 + 155 * i..4 + 155 * (i + 1)], &one[..]);
        }
        if n == 3 {
            assert_eq!(&list[469..], &[0x9d, 0x09, 4, 0]);
        }
        assert_eq!(encode(&Response::Characters(characters.clone()), list.len() - 1), Err(list.len()));
        assert_eq!(encode(&Response::Characters(characters.clone()), list.len()).unwrap(), list);

        let info = encode(&Response::CharacterInfo(characters.clone()), 4096).unwrap();
        assert_eq!(info.len(), 28 + 155 * n);
        assert_eq!(&info[..2], &[0x6b, 0x00]);
        assert_eq!(&info[2..4], &(info.len() as u16).to_le_bytes());
        assert_eq!(&info[4..8], &[12, 12, 12, 12]);
        assert_eq!(&info[8..28], &[0u8; 20]);
        for i in 0..n {
            assert_eq!(&info[28 + 155 * i..28 + 155 * (i + 1)], &one[..]);
        }
    }
    let too_many: Vec<Character> = (0..13).map(|_| sample()).collect();
    let mut codec = CharacterCodec::new(maps());
    let mut buf = vec![0xeeu8; 4096];
    assert!(matches!(codec.encode(&Response::Characters(too_many), &mut buf), EncodeResult::Failed(_)));
    assert!(buf.iter().all(|b| *b == 0xee));
}

#[test]
fn small_responses_have_fixed_frames() {
    assert_eq!(encode(&Response::AccountConnected(0x0102_0304), 4).unwrap(), vec![4, 3, 2, 1]);
    assert_eq!(encode(&Response::AccountConnected(1), 3), Err(4));
    assert_eq!(encode(&Response::Rejected, 3).unwrap(), vec![0x6c, 0, 0]);
    assert_eq!(encode(&Response::Rejected, 2), Err(3));
    assert_eq!(encode(&Response::CharacterPagesAvailable(5), 6).unwrap(), vec![0xa0, 0x09, 5, 0, 0, 0]);
    assert_eq!(encode(&Response::BannedCharacters, 4).unwrap(), vec![0x0d, 0x02, 4, 0]);
    assert_eq!(encode(&Response::CharacterSlotCount, 28), Err(29));
    assert_eq!(encode(&Response::NewCharacterInfo(sample()), 156), Err(157));
    let new = encode(&Response::NewCharacterInfo(sample()), 157).unwrap();
    assert_eq!(&new[..2], &[0x6d, 0]);
    assert_eq!(&new[2..], &frame_of(&sample())[..]);
    let pincode = PincodeInfo { status: PincodeStatus::AskForPin, account_id: 7, seed: 0x0a0b_0c0d };
    assert_eq!(
        encode(&Response::PincodeInfo(pincode), 12).unwrap(),
        vec![0xb9, 0x08, 0x0d, 0x0c, 0x0b, 0x0a, 7, 0, 0, 0, 1, 0]
    );
    assert_eq!(Response::Rejected.command_code(), Some(0x6c));
    assert_eq!(Response::AccountConnected(1).command_code(), None);
    let mut buf = [0xeeu8; 8];
    assert_eq!(Response::BannedCharacters.serialize(&mut buf, &maps()), Ok(2));
    assert_eq!(buf, [4, 0, 0xee, 0xee, 0xee, 0xee, 0xee, 0xee]);
    let mut buf = [0xeeu8; 1];
    assert_eq!(Response::BannedCharacters.serialize(&mut buf, &maps()), Err(2));
    assert_eq!(buf, [0xee]);
}

#[test]
fn login_frames_survive_decoding_and_encoding() {
    let name = |text: &str| {
        let mut field = text.as_bytes().to_vec();
        field.resize(24, 0);
        field
    };
    let mut frames: Vec<(u16, Vec<u8>)> = vec![
        (0x0200, vec![0u8; 24]),
        (0x0204, (1..=16u8).collect()),
        (0x01db, vec![]),
        (0x0acf, vec![]),
        (0x0825, vec![]),
        (0x2710, vec![]),
    ];
    for (code, size) in [(0x0064u16, 53usize), (0x0277, 82), (0x02b0, 83)] {
        let mut body = vec![0u8; 4];
        body.extend(name("sadroeck"));
        body.extend(name("olasenor"));
        body.extend(vec![0u8; size - 53]);
        body.push(0x17);
        frames.push((code, body));
    }
    for (code, size) in [(0x01ddu16, 45usize), (0x01fa, 46), (0x027c, 58)] {
        let mut body = vec![0u8; 4];
        body.extend(name("sadroeck"));
        body.extend([9, 0, 8, 0, 7, 6, 5, 4, 3, 2, 1, 0, 0xff, 0xfe, 0xfd, 0xfc]);
        body.extend(vec![0u8; size - 45]);
        body.push(0x18);
        frames.push((code, body));
    }
    for (code, body) in frames {
        let command = LoginCommand::try_from(code).unwrap();
        let mut frame = code.to_le_bytes().to_vec();
        frame.extend(&body);
        let mut longer = frame.clone();
        longer.extend([0xaa, 0xbb, 0xcc]);
        for input in [&frame, &longer] {
            match LoginCodec.decode(input) {
                (n, DecodeResult::Item(request)) => {
                    assert_eq!(n, frame.len());
                    assert_eq!(encode_login_request(&command, &request), frame);
                }
                other => panic!("unexpected {:?}", other),
            }
        }
        for cut in 0..frame.len() {
            assert!(matches!(LoginCodec.decode(&frame[..cut]), (0, DecodeResult::UnexpectedEnd)));
        }
    }
}

#[test]
fn character_frames_survive_decoding_and_encoding() {
    let mut connect = vec![];
    connect.extend(2_000_042u32.to_le_bytes());
    connect.extend(0xdead_beefu32.to_le_bytes());
    connect.extend(3u32.to_le_bytes());
    connect.extend([0, 0, 2]);
    let mut create = "H\u{e9}ro".as_bytes().to_vec();
    create.resize(24, 0);
    create.extend([11, 2, 1, 5, 0]);
    create.extend(4218u16.to_le_bytes());
    create.extend([0, 0, 0]);
    let mut frames: Vec<(u16, Vec<u8>)> = vec![
        (0x65, connect),
        (0x67, create.clone()),
        (0x970, create.clone()),
        (0xa39, create),
        (0x66, vec![7]),
        (0x187, vec![0, 0, 0, 0]),
    ];
    for code in [0x9a1u16, 0x68, 0x1fb, 0x28d, 0x7e5, 0x7e7, 0x8d4, 0x827, 0x829, 0x82b, 0x8b8, 0x8c5, 0x8be, 0x8ba] {
        frames.push((code, vec![]));
    }
    let mut codec = CharacterCodec::new(maps());
    for (code, body) in frames {
        let mut frame = code.to_le_bytes().to_vec();
        frame.extend(&body);
        let mut longer = frame.clone();
        longer.extend([0xaa, 0xbb, 0xcc]);
        for input in [&frame, &longer] {
            match codec.decode(input) {
                (n, DecodeResult::Item(request)) => {
                    assert_eq!(n, frame.len());
                    assert_eq!(encode_character_request(code, &request), frame);
                }
                other => panic!("unexpected {:?}", other),
            }
        }
        for cut in 0..frame.len() {
            assert!(matches!(codec.decode(&frame[..cut]), (0, DecodeResult::UnexpectedEnd)));
        }
    }
}

#[test]
fn wire_values_convert_with_into() {
    let sex: u8 = Sex::Server.into();
    assert_eq!(sex, 2);
    let activity: u16 = ServerActivity::Busy.into();
    assert_eq!(activity, 2);
    let server_type: u16 = ServerType::AdultOnly.into();
    assert_eq!(server_type, 2);
}
