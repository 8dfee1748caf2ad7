//! The bounded list of character servers that a login server hands to each
//! connection.

use vstd::prelude::*;
use crate::character::ServerInfo;

verus! {

/// The most servers that a list holds.
pub const MAX_SERVERS: usize = 5;

/// At most five [`ServerInfo`] records, stored inline in a
/// `stackvec::StackVec`.
#[verifier::external_body]
pub struct ServerList {
    servers: stackvec::StackVec<[ServerInfo; 5]>,
}

/// The records that a list holds, in the order in which they were added.
pub uninterp spec fn server_list_items(list: ServerList) -> Seq<ServerInfo>;

impl ServerList {
    /// `StackVec::new`: a list made this way holds nothing.
    #[verifier::external_body]
    fn raw_new() -> (list: ServerList)
        ensures
            server_list_items(list).len() == 0,
    {
        ServerList { servers: stackvec::StackVec::new() }
    }

    /// `StackVec::try_push`: a list of fewer than five records gets `info`
    /// at its end and the answer is `true`; a list of five stays as it is
    /// and the answer is `false`.
    #[verifier::external_body]
    fn raw_try_push(&mut self, info: ServerInfo) -> (pushed: bool)
        ensures
            pushed == (server_list_items(*old(self)).len() < MAX_SERVERS),
            pushed ==> server_list_items(*final(self)) == server_list_items(*old(self)).push(info),
            !pushed ==> server_list_items(*final(self)) == server_list_items(*old(self)),
    {
        self.servers.try_push(info).is_ok()
    }

    /// The length of the slice that a `StackVec` dereferences to: the number
    /// of records, which never exceeds the capacity of five.
    #[verifier::external_body]
    fn raw_len(&self) -> (n: usize)
        ensures
            n == server_list_items(*self).len(),
            n <= MAX_SERVERS,
    {
        self.servers.len()
    }

    /// Indexing the slice that a `StackVec` dereferences to: the record at
    /// position `index`.
    #[verifier::external_body]
    fn raw_get(&self, index: usize) -> (info: &ServerInfo)
        requires
            index < server_list_items(*self).len(),
        ensures
            *info == server_list_items(*self)[index as int],
    {
        &self.servers[index]
    }

    /// An empty list.
    pub fn new() -> (list: ServerList)
        ensures
            server_list_items(list) == Seq::<ServerInfo>::empty(),
    {
        let list = ServerList::raw_new();
        assert(server_list_items(list) =~= Seq::<ServerInfo>::empty());
        list
    }

    /// Adds `info` at the end if fewer than five records are held, and says
    /// whether it did.
    pub fn try_push(&mut self, info: ServerInfo) -> (pushed: bool)
        ensures
            pushed == (server_list_items(*old(self)).len() < MAX_SERVERS),
            pushed ==> server_list_items(*final(self)) == server_list_items(*old(self)).push(info),
            !pushed ==> server_list_items(*final(self)) == server_list_items(*old(self)),
    {
        self.raw_try_push(info)
    }

    /// Number of records held.
    pub fn len(&self) -> (n: usize)
        ensures
            n == server_list_items(*self).len(),
            n <= MAX_SERVERS,
    {
        self.raw_len()
    }

    /// The record at position `index`, if there is one.
    pub fn get(&self, index: usize) -> (info: Option<&ServerInfo>)
        ensures
            index < server_list_items(*self).len() ==> info == Some(
                &server_list_items(*self)[index as int],
            ),
            index >= server_list_items(*self).len() ==> info is None,
    {
        if index < self.raw_len() {
            Some(self.raw_get(index))
        } else {
            None
        }
    }

    /// The first five records of `servers`, in their order: what a connection
    /// is given as its snapshot of the configured character servers.
    pub fn from_infos(servers: &Vec<ServerInfo>) -> (list: ServerList)
        ensures
            server_list_items(list) == servers@.take(
                if servers@.len() < MAX_SERVERS {
                    servers@.len() as int
                } else {
                    MAX_SERVERS as int
                },
            ),
    {
        let mut list = ServerList::new();
        let mut i: usize = 0;
        while i < servers.len() && i < MAX_SERVERS
            invariant
                i <= servers@.len(),
                i <= MAX_SERVERS,
                server_list_items(list) == servers@.take(i as int),
            decreases servers@.len() - i,
        {
            list.raw_try_push(servers[i].clone());
            i = i + 1;
            assert(server_list_items(list) =~= servers@.take(i as int));
        }
        list
    }

    /// A copy of the list.
    pub fn snapshot(&self) -> (copy: ServerList)
        ensures
            server_list_items(copy) == server_list_items(*self),
    {
        let mut copy = ServerList::new();
        let n = self.raw_len();
        let mut i: usize = 0;
        while i < n
            invariant
                i <= n,
                n == server_list_items(*self).len(),
                n <= MAX_SERVERS,
                server_list_items(copy) == server_list_items(*self).take(i as int),
            decreases n - i,
        {
            copy.raw_try_push(self.raw_get(i).clone());
            i = i + 1;
            assert(server_list_items(copy) =~= server_list_items(*self).take(i as int));
        }
        assert(server_list_items(*self).take(n as int) =~= server_list_items(*self));
        copy
    }
}

} // verus!
