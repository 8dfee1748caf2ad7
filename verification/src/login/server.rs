//! The login server: the agent and the character servers that it
//! advertises.

use vstd::prelude::*;
use crate::account::db::AccountDB;
use crate::character::server_list::{server_list_items, ServerList, MAX_SERVERS};
use crate::character::CharacterServer;
use crate::login::agent::LoginAgent;

verus! {

/// The state of a login server that its connections share.
pub struct LoginServer<A: AccountDB, C: CharacterServer> {
    pub login_agent: LoginAgent<A>,
    pub char_servers: Vec<C>,
}

impl<A: AccountDB, C: CharacterServer> LoginServer<A, C> {
    /// A server over the given agent and character servers.
    pub fn new(login_agent: LoginAgent<A>, char_servers: Vec<C>) -> (server: Self)
        ensures
            server.login_agent == login_agent,
            server.char_servers == char_servers,
    {
        LoginServer { login_agent, char_servers }
    }

    /// What the first five character servers say of themselves, in their
    /// order: the snapshot that a new connection is given.
    pub fn character_server_info(&self) -> (list: ServerList)
        ensures
            server_list_items(list).len() == (if self.char_servers@.len() < MAX_SERVERS {
                self.char_servers@.len()
            } else {
                MAX_SERVERS as nat
            }),
            forall|i: int|
                0 <= i < server_list_items(list).len() ==> #[trigger] server_list_items(list)[i]
                    == self.char_servers@[i].spec_info(),
    {
        let mut list = ServerList::new();
        let mut i: usize = 0;
        while i < self.char_servers.len() && i < MAX_SERVERS
            invariant
                i <= self.char_servers@.len(),
                i <= MAX_SERVERS,
                server_list_items(list).len() == i,
                forall|j: int|
                    0 <= j < i ==> #[trigger] server_list_items(list)[j]
                        == self.char_servers@[j].spec_info(),
            decreases self.char_servers@.len() - i,
        {
            list.try_push(self.char_servers[i].info());
            i = i + 1;
        }
        list
    }
}

} // verus!
