//! The account record.

use vstd::prelude::*;
use vstd::string::*;
use crate::account::db::{AccountId, UserId};
use crate::clock::{current_time, day_of, start_of_day, Timestamp};

verus! {

/// Default number of character slots of an account.
pub const MAX_CHARS: u8 = 10;

/// Number of digits of a pincode.
pub const PINCODE_LENGTH: usize = 4;

/// Number of bytes of a web authentication token.
pub const WEB_AUTH_TOKEN_LENGTH: usize = 16;

/// 127.0.0.1 as a big-endian integer.
pub const LOCALHOST: u32 = 0x7f00_0001;

/// An account: who it belongs to, how it logs in, and what state it is in.
#[derive(Debug)]
pub struct MmoAccount {
    pub account_id: u32,
    pub user_id: UserId,
    pub password: Password,
    /// Gender
    pub sex: Sex,
    /// Email (by default a@a.com)
    pub email: String,
    /// Player group ID
    pub group_id: Option<usize>,
    /// Maximum number of character slots of this account
    pub char_slots: u8,
    pub state: AccountState,
    /// Number of successful authentications
    pub login_count: isize,
    /// Time of the last successful login
    pub lastlogin: Timestamp,
    /// IPv4 address of the last connection, as a big-endian integer
    pub last_ip: u32,
    /// Birth date, as midnight UTC of that day
    pub birth_date: Timestamp,
    pub pincode: [u8; PINCODE_LENGTH],
    /// Time of the last pincode change
    pub pincode_change: Timestamp,
    /// Web authentication token (randomized on each login)
    pub web_auth_token: [u8; WEB_AUTH_TOKEN_LENGTH],
}

/// The sex of an account or of a character.
#[derive(Debug, Clone, Copy, PartialEq, Eq, Structural)]
pub enum Sex {
    Male,
    Female,
    Server,
}

impl Sex {
    /// The byte that stands for this value on the wire.
    pub open spec fn wire_value(self) -> u8 {
        match self {
            Sex::Male => 1,
            Sex::Female => 0,
            Sex::Server => 2,
        }
    }

    /// The value that a wire byte stands for, if any.
    pub open spec fn of_wire(byte: u8) -> Option<Sex> {
        if byte == 0 {
            Some(Sex::Female)
        } else if byte == 1 {
            Some(Sex::Male)
        } else if byte == 2 {
            Some(Sex::Server)
        } else {
            None
        }
    }

    /// The byte that stands for this value on the wire.
    pub fn into_u8(self) -> (byte: u8)
        ensures
            byte == self.wire_value(),
    {
        match self {
            Sex::Male => 1,
            Sex::Female => 0,
            Sex::Server => 2,
        }
    }

    /// The value that a wire byte stands for, if any.
    pub fn try_from_u8(byte: u8) -> (sex: Option<Sex>)
        ensures
            sex == Sex::of_wire(byte),
    {
        if byte == 0 {
            Some(Sex::Female)
        } else if byte == 1 {
            Some(Sex::Male)
        } else if byte == 2 {
            Some(Sex::Server)
        } else {
            None
        }
    }
}

impl From<Sex> for u8 {
    fn from(sex: Sex) -> (byte: u8) {
        sex.into_u8()
    }
}

impl vstd::std_specs::convert::FromSpecImpl<Sex> for u8 {
    open spec fn obeys_from_spec() -> bool {
        true
    }

    open spec fn from_spec(sex: Sex) -> u8 {
        sex.wire_value()
    }
}

/// Every value survives a trip over the wire, and only 0, 1 and 2 decode.
pub proof fn lemma_sex_roundtrip(sex: Sex, byte: u8)
    ensures
        Sex::of_wire(sex.wire_value()) == Some(sex),
        Sex::of_wire(byte) matches Some(s) ==> s.wire_value() == byte,
        Sex::of_wire(byte) is Some <==> byte <= 2,
{
}

/// How an account proves who it is.
#[derive(Debug)]
pub enum Password {
    Cleartext(String),
    MD5Hashed([u8; 16]),
    /// Only set while an account is being initialized
    Unset,
}

impl Clone for Password {
    fn clone(&self) -> (copy: Self)
        ensures
            copy == *self,
    {
        match self {
            Password::Cleartext(text) => Password::Cleartext(text.clone()),
            Password::MD5Hashed(hash) => Password::MD5Hashed(*hash),
            Password::Unset => Password::Unset,
        }
    }
}

/// Whether an account may log in, and until or from when.
#[derive(Clone, Copy, Debug, PartialEq, Eq, Structural)]
pub enum AccountState {
    Normal,
    Banned(Timestamp),
    ExpireOn(Timestamp),
}

impl Clone for MmoAccount {
    fn clone(&self) -> (copy: Self)
        ensures
            copy == *self,
    {
        MmoAccount {
            account_id: self.account_id,
            user_id: self.user_id.clone(),
            password: self.password.clone(),
            sex: self.sex,
            email: self.email.clone(),
            group_id: self.group_id,
            char_slots: self.char_slots,
            state: self.state,
            login_count: self.login_count,
            lastlogin: self.lastlogin,
            last_ip: self.last_ip,
            birth_date: self.birth_date,
            pincode: self.pincode,
            pincode_change: self.pincode_change,
            web_auth_token: self.web_auth_token,
        }
    }
}

impl MmoAccount {
    /// What a newly made account with id `id` holds when made at `now`.
    pub open spec fn is_fresh(&self, id: AccountId, now: Timestamp) -> bool {
        &&& self.account_id == id
        &&& self.user_id@ == Seq::<char>::empty()
        &&& self.password is Unset
        &&& self.sex == Sex::Male
        &&& self.email@ == "a@a.com"@
        &&& self.group_id is None
        &&& self.char_slots == MAX_CHARS
        &&& self.state == AccountState::Normal
        &&& self.login_count == 0
        &&& self.lastlogin == now
        &&& self.last_ip == LOCALHOST
        &&& self.birth_date == start_of_day(now)
        &&& self.pincode@ == seq![0u8, 0u8, 0u8, 0u8]
        &&& self.pincode_change == now
        &&& self.web_auth_token@ == Seq::new(16, |i: int| 0u8)
    }

    /// A new account made at time `now`.
    pub fn new_at(id: AccountId, now: Timestamp) -> (account: Self)
        ensures
            account.is_fresh(id, now),
    {
        let account = MmoAccount {
            account_id: id,
            user_id: String::new(),
            password: Password::Unset,
            sex: Sex::Male,
            email: String::from_str("a@a.com"),
            group_id: None,
            char_slots: MAX_CHARS,
            state: AccountState::Normal,
            login_count: 0,
            lastlogin: now,
            last_ip: LOCALHOST,
            birth_date: day_of(now),
            pincode: [0u8; PINCODE_LENGTH],
            pincode_change: now,
            web_auth_token: [0u8; WEB_AUTH_TOKEN_LENGTH],
        };
        assert(account.pincode@ =~= seq![0u8, 0u8, 0u8, 0u8]);
        assert(account.web_auth_token@ =~= Seq::new(16, |i: int| 0u8));
        account
    }

    /// A new account made now.
    pub fn new(id: AccountId) -> (account: Self)
        ensures
            exists|now: Timestamp| account.is_fresh(id, now),
    {
        let now = current_time();
        MmoAccount::new_at(id, now)
    }
}

impl Default for MmoAccount {
    fn default() -> (account: Self)
        ensures
            exists|now: Timestamp| account.is_fresh(0, now),
    {
        MmoAccount::new(0)
    }
}

} // verus!
