use ragnarok::account::db::{AccountDB, DBError};
use ragnarok::account::mmo_account::{AccountState, MmoAccount, Password, Sex};
use ragnarok::character::db::{CharacterDB, DBError as CharacterDBError};
use ragnarok::character::server_list::ServerList;
use ragnarok::character::tcp::{TcpClient, TcpServer};
use ragnarok::character::{Character, CharacterServer, ServerActivity, ServerType};
use ragnarok::config::login::CharacterServerConfig;
use ragnarok::databases::account::InMemoryAccountDB;
use ragnarok::databases::character::InMemoryCharacterDB;
use ragnarok::databases::inventory::{Error as InventoryError, InMemoryInventoryDB, InventoryDB};
use ragnarok::inventory::item::default_is_identified;
use ragnarok::inventory::{Inventory, Item, ItemId};
use ragnarok::login::agent::LoginAgent;
use ragnarok::login::credentials::LoginCredentials;
use ragnarok::login::response::LoginFailed;
use ragnarok::login::server::LoginServer;
use ragnarok::map::{MapName, Maps};

#[test]
fn account_store_starts_with_the_development_account() {
    let db = InMemoryAccountDB::new(true).unwrap();
    let account = db.get_account_by_id(2_000_042).unwrap();
    assert_eq!(account.account_id, 2_000_042);
    assert_eq!(account.user_id, "sadroeck");
    assert!(matches!(&account.password, Password::Cleartext(text) if text == "olasenor"));
    assert_eq!(account.sex, Sex::Male);
    assert_eq!(account.email, "a@a.com");
    assert_eq!(account.char_slots, 10);
    assert_eq!(account.state, AccountState::Normal);
    assert_eq!(account.last_ip, 0x7f00_0001);
    let by_user = db.get_account_by_user(&"sadroeck".to_string()).unwrap();
    assert_eq!(by_user.account_id, 2_000_042);
    assert!(matches!(db.get_account_by_id(1), Err(DBError::NoSuchAccount(1))));
    assert!(matches!(db.get_account_by_user(&"nobody".to_string()), Err(DBError::NoSuchUser(name)) if name == "nobody"));
}

#[test]
fn new_account_has_documented_defaults() {
    let account = MmoAccount::new_at(5, 86_400 * 3 + 17);
    assert_eq!(account.account_id, 5);
    assert_eq!(account.user_id, "");
    assert!(matches!(account.password, Password::Unset));
    assert_eq!(account.group_id, None);
    assert_eq!(account.login_count, 0);
    assert_eq!(account.lastlogin, 86_400 * 3 + 17);
    assert_eq!(account.pincode_change, 86_400 * 3 + 17);
    assert_eq!(account.birth_date, 86_400 * 3);
    assert_eq!(account.pincode, [0; 4]);
    assert_eq!(account.web_auth_token, [0; 16]);
    assert_eq!(MmoAccount::new(9).account_id, 9);
    assert_eq!(MmoAccount::default().account_id, 0);
}

#[test]
fn account_store_creates_saves_and_deletes() {
    let mut db = InMemoryAccountDB::empty(false);
    let created = db.create_account().unwrap();
    let id = created.account_id;
    assert_eq!(db.get_account_by_id(id).unwrap().account_id, id);
    assert!(matches!(db.try_create(id, 0), Err(DBError::AccountAlreadyExists(taken)) if taken == id));
    let other = if id == 77 { 78 } else { 77 };
    assert_eq!(db.try_create(other, 12).unwrap().lastlogin, 12);

    let mut account = db.get_account_by_id(other).unwrap();
    account.user_id = "bob".to_string();
    account.web_auth_token = [9; 16];
    db.save_account(&account).unwrap();
    assert_eq!(db.get_account_by_user(&"bob".to_string()).unwrap().account_id, other);

    let mut stranger = MmoAccount::new_at(500, 0);
    stranger.user_id = "eve".to_string();
    assert!(matches!(db.save_account(&stranger), Err(DBError::NoSuchAccount(500))));
    assert!(matches!(db.get_account_by_id(500), Err(DBError::NoSuchAccount(500))));
    assert!(matches!(db.get_account_by_user(&"eve".to_string()), Err(DBError::NoSuchUser(_))));
    db.try_create(500, 0).unwrap();
    db.save_account(&stranger).unwrap();
    assert_eq!(db.get_account_by_user(&"eve".to_string()).unwrap().account_id, 500);

    assert!(db.enable_webtoken(other).is_ok());
    assert!(matches!(db.disable_webtoken(1_000), Err(DBError::NoSuchAccount(1_000))));
    db.remove_webtokens().unwrap();
    let cleared = db.get_account_by_id(other).unwrap();
    assert_eq!(cleared.web_auth_token, [0; 16]);
    assert_eq!(cleared.user_id, "bob");

    db.delete_account(other).unwrap();
    assert!(matches!(db.get_account_by_id(other), Err(DBError::NoSuchAccount(_))));
    assert!(matches!(db.get_account_by_user(&"bob".to_string()), Err(DBError::NoSuchUser(_))));
    db.delete_account(other).unwrap();
    assert_eq!(db.get_account_by_id(500).unwrap().user_id, "eve");
    assert_eq!(db.order, vec![id, 500]);
}

#[test]
fn user_names_stay_unique() {
    let mut db = InMemoryAccountDB::empty(false);
    for id in [3u32, 1, 2] {
        db.try_create(id, 0).unwrap();
    }
    // accounts without a user name may be many
    assert_eq!(db.get_account_by_user(&String::new()).unwrap().account_id, 3);
    let mut first = db.get_account_by_id(1).unwrap();
    first.user_id = "twin".to_string();
    db.save_account(&first).unwrap();
    let mut second = db.get_account_by_id(2).unwrap();
    second.user_id = "twin".to_string();
    assert!(matches!(db.save_account(&second), Err(DBError::AccountAlreadyExists(1))));
    assert_eq!(db.get_account_by_id(2).unwrap().user_id, "");
    assert_eq!(db.get_account_by_user(&"twin".to_string()).unwrap().account_id, 1);
    assert_eq!(db.clash_of(2, &"twin".to_string()), Some(1));
    assert_eq!(db.clash_of(1, &"twin".to_string()), None);
    assert_eq!(db.clash_of(2, &String::new()), None);
    assert_eq!(db.find_other_user(&String::new(), 3), Some(2));
    // saving an account again under its own name is no clash
    first.login_count = 7;
    db.save_account(&first).unwrap();
    assert_eq!(db.get_account_by_id(1).unwrap().login_count, 7);
    second.user_id = "other".to_string();
    db.save_account(&second).unwrap();
    assert_eq!(db.get_account_by_user(&"other".to_string()).unwrap().account_id, 2);
    assert_eq!(db.position_of(1), 1);
    assert_eq!(db.position_of(9), 3);

    // the development account is not installed over a user of its name
    let mut taken = db.get_account_by_id(3).unwrap();
    taken.user_id = "sadroeck".to_string();
    db.save_account(&taken).unwrap();
    assert!(matches!(db.init(), Err(DBError::AccountAlreadyExists(3))));
    assert!(matches!(db.get_account_by_id(2_000_042), Err(DBError::NoSuchAccount(_))));
    taken.user_id = "else".to_string();
    db.save_account(&taken).unwrap();
    db.init().unwrap();
    db.init().unwrap();
    assert_eq!(db.get_account_by_user(&"sadroeck".to_string()).unwrap().account_id, 2_000_042);
}

fn hashed(user: &str, hash: [u8; 16]) -> LoginCredentials {
    let mut username = [0u8; 24];
    username[..user.len()].copy_from_slice(user.as_bytes());
    LoginCredentials::Hashed { client_type: 0, username, password: hash }
}

fn cleartext(user: &str, password: &str) -> LoginCredentials {
    let mut username = [0u8; 24];
    username[..user.len()].copy_from_slice(user.as_bytes());
    let mut text = [0u8; 24];
    text[..password.len()].copy_from_slice(password.as_bytes());
    LoginCredentials::ClearText { client_type: 0, username, password: text }
}

#[test]
fn agent_judges_every_kind_of_credentials() {
    let mut db = InMemoryAccountDB::new(false).unwrap();
    let mut hashed_account = db.try_create(10, 0).unwrap();
    hashed_account.user_id = "hash".to_string();
    hashed_account.password = Password::MD5Hashed([7; 16]);
    hashed_account.login_count = isize::MAX;
    db.save_account(&hashed_account).unwrap();
    let mut expiring = db.try_create(11, 0).unwrap();
    expiring.user_id = "late".to_string();
    expiring.password = Password::Cleartext("pw".to_string());
    expiring.state = AccountState::ExpireOn(500);
    db.save_account(&expiring).unwrap();
    let mut agent = LoginAgent::new(db);

    assert!(matches!(agent.authenticate_at(hashed("nobody", [7; 16]), 1), Err(LoginFailed::RejectedFromServer)));
    assert!(matches!(agent.authenticate_at(hashed("hash", [8; 16]), 1), Err(LoginFailed::IncorrectPassword)));
    assert!(matches!(agent.authenticate_at(hashed("sadroeck", [7; 16]), 1), Err(LoginFailed::IncorrectPassword)));
    assert!(matches!(agent.authenticate_at(cleartext("hash", "pw"), 1), Err(LoginFailed::IncorrectPassword)));
    let account = agent.authenticate_at(hashed("hash", [7; 16]), 33).unwrap();
    assert_eq!(account.login_count, isize::MAX);
    assert_eq!(account.lastlogin, 33);

    assert!(matches!(agent.authenticate_at(cleartext("late", "pw"), 500), Err(LoginFailed::IdIsExpired)));
    assert!(matches!(agent.authenticate_at(cleartext("late", "pw2"), 1), Err(LoginFailed::IncorrectPassword)));
    assert!(matches!(agent.authenticate_at(cleartext("late", "p"), 1), Err(LoginFailed::IncorrectPassword)));
    let account = agent.authenticate_at(cleartext("late", "pw"), 499).unwrap();
    assert_eq!(account.state, AccountState::ExpireOn(500));
    assert_eq!(account.login_count, 1);

    let otp = LoginCredentials::OTP { client_type: 0, account_name: "sadroeck".to_string(), password: vec![1] };
    assert!(matches!(agent.authenticate_at(otp, 1), Err(LoginFailed::RejectedFromServer)));
    assert!(agent.authenticate(cleartext("sadroeck", "olasenor")).is_ok());

    agent.create_session_at(10, u64::MAX - 5);
    assert_eq!(agent.session_expiry(10), Some(u64::MAX));
    agent.create_session_at(10, 100);
    assert_eq!(agent.session_expiry(10), Some(1_000));
    agent.create_session(11);
    assert!(agent.session_expiry(11).unwrap() > 1_600_000_000);
}

#[test]
fn character_store_keeps_its_indexes_consistent() {
    let mut db = InMemoryCharacterDB::new(false).unwrap();
    db.init().unwrap();
    assert!(db.get_by_account_id(1).unwrap().is_empty());
    let first = db.create(1).unwrap();
    assert!(first >= 2_000_000);
    let fresh = db.get_by_id(first).unwrap();
    assert_eq!(fresh.account_id, 1);
    assert_eq!(fresh.slot, 0);
    assert_eq!(fresh.sex, Sex::Female);
    assert_eq!(fresh.name.0, "");
    assert_eq!(fresh.experience.status_points, 48);
    assert_eq!(fresh.experience.base_level, 1);
    assert_eq!(fresh.stats.hp, 40);
    assert_eq!(fresh.stats.max_sp, 11);
    assert_eq!(fresh.location.last_location.map_id, 0);

    assert!(matches!(db.try_create(1, first), Err(CharacterDBError::CharacterAlreadyExists(id)) if id == first));
    assert_eq!(db.try_create(1, 5).unwrap(), 5);
    assert_eq!(db.try_create(2, 6).unwrap(), 6);
    assert_eq!(db.ids_of(1), vec![first, 5]);

    let mut moved = db.get_by_id(5).unwrap();
    moved.slot = 7;
    db.update(&moved).unwrap();
    assert_eq!(db.get_by_slot(1, 7).unwrap().id, 5);
    assert_eq!(db.get_by_slot(1, 0).unwrap().id, first);
    assert!(matches!(db.get_by_slot(1, 3), Err(CharacterDBError::NoSuchSlot(3))));
    assert!(matches!(db.get_by_slot(2, 7), Err(CharacterDBError::NoSuchSlot(7))));

    moved.account_id = 2;
    assert!(matches!(db.update(&moved), Err(CharacterDBError::NoSuchCharacter(5))));
    assert!(matches!(db.update(&Character::new(99, 1)), Err(CharacterDBError::NoSuchCharacter(99))));
    assert_eq!(db.get_by_id(5).unwrap().account_id, 1);

    db.delete(first).unwrap();
    assert!(matches!(db.delete(first), Err(CharacterDBError::NoSuchCharacter(_))));
    assert!(matches!(db.get_by_id(first), Err(CharacterDBError::NoSuchCharacter(_))));
    let list = db.get_by_account_id(1).unwrap();
    assert_eq!(list.len(), 1);
    assert_eq!(list[0].id, 5);
    assert_eq!(list[0].slot, 7);

    for id in 100..111u32 {
        db.try_create(1, id).unwrap();
    }
    assert_eq!(db.get_by_account_id(1).unwrap().len(), 12);
    assert!(matches!(db.try_create(1, 200), Err(CharacterDBError::TooManyCharacters(1))));
    assert!(matches!(db.create(1), Err(CharacterDBError::TooManyCharacters(1))));
    assert_eq!(db.get_by_account_id(1).unwrap().len(), 12);
    for character in db.get_by_account_id(1).unwrap() {
        assert_eq!(db.get_by_id(character.id).unwrap().account_id, 1);
    }
}

#[test]
fn inventory_store_files_inventories() {
    let mut db = InMemoryInventoryDB::new(false);
    assert!(matches!(db.get(4), Err(InventoryError::NoSuchCharacter(4))));
    let empty = Inventory::new(4);
    assert_eq!(empty.character_id, 4);
    assert!(empty.items.is_empty());
    db.create(empty).unwrap();
    assert!(db.get(4).unwrap().items.is_empty());
    let item = Item { id: ItemId(501), slot: 2, amount: 3, identified: default_is_identified(), equipped_slot: Some(1) };
    db.update(&Inventory { character_id: 4, items: vec![item] }).unwrap();
    assert_eq!(db.get(4).unwrap().items, vec![item]);
    assert!(item.identified);
    db.create(Inventory::new(4)).unwrap();
    assert!(db.get(4).unwrap().items.is_empty());
}

#[test]
fn map_table_numbers_maps_from_one() {
    let maps = Maps::new(vec![
        MapName::new("prontera.gat".to_string()),
        MapName::new("izlude.gat".to_string()),
        MapName::new("prontera.gat".to_string()),
    ]);
    assert_eq!(maps.name(0), None);
    assert_eq!(maps.name(1).unwrap().0, "prontera.gat");
    assert_eq!(maps.name(2).unwrap().0, "izlude.gat");
    assert_eq!(maps.name(4), None);
    assert_eq!(maps.id(&MapName::new("izlude.gat".to_string())), Some(2));
    assert_eq!(maps.id(&MapName::new("prontera.gat".to_string())), Some(3));
    assert_eq!(maps.id(&MapName::new("geffen.gat".to_string())), None);
    let unique = Maps::new(vec![MapName::new("a.gat".to_string()), MapName::new("b.gat".to_string())]);
    for id in 1..=2u16 {
        assert_eq!(unique.id(&unique.name(id).unwrap()), Some(id));
    }
}

#[test]
fn login_server_lists_at_most_five_servers() {
    let config = |i: u16| CharacterServerConfig { name: format!("s{}", i), address: "10.0.0.1".to_string(), port: 6000 + i };
    let servers: Vec<TcpServer> = (0..7).map(|i| TcpServer::new(&config(i), 0x0a00_0001 + i as u32)).collect();
    let info = servers[2].info();
    assert_eq!(info.name, "s2");
    assert_eq!(info.port, 6002);
    assert_eq!(info.ip_addr, 0x0a00_0003);
    assert_eq!(info.server_activity, ServerActivity::Smooth);
    assert_eq!(info.server_type, ServerType::Normal);
    assert_eq!(info.active_users, 0);
    let login = LoginServer::new(LoginAgent::new(InMemoryAccountDB::new(false).unwrap()), servers);
    let list = login.character_server_info();
    assert_eq!(list.len(), 5);
    for i in 0..5 {
        assert_eq!(list.get(i).unwrap().port, 6000 + i as u16);
    }
    let copy = list.snapshot();
    assert_eq!(copy.len(), 5);
    assert_eq!(copy.get(3).unwrap().name, "s3");
    let client = TcpClient { name: "c".to_string(), ip_addr: 1, port: 2, server_type: ServerType::F2P, active_users: 9 };
    assert_eq!(client.info().server_activity, ServerActivity::Normal);
    assert_eq!(client.info().active_users, 9);
    let mut small = ServerList::new();
    assert!(small.try_push(client.info()));
    assert_eq!(small.len(), 1);
    let few = LoginServer::new(LoginAgent::new(InMemoryAccountDB::new(false).unwrap()), vec![client]);
    assert_eq!(few.character_server_info().len(), 1);
}
