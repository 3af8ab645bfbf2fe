//! An in-memory store of users, bots, servers, channels, invites and
//! memberships, with single-record operations keyed by id.

use vstd::prelude::*;
use crate::model::{contains_field, lemma_deleted_flag_set, Bot, BotType, Error, FieldsBot, PartialBot, User, USER_FLAG_DELETED};

verus! {

/// A server: a workspace that lists its channels.
#[derive(Clone, Debug, PartialEq, Eq)]
pub struct Server {
    pub id: String,
    /// User id of the owner.
    pub owner: String,
    pub name: String,
    /// Ids of the server's channels, in display order.
    pub channels: Vec<String>,
    /// Permission bitmask that members start with.
    pub default_permissions: i64,
}

/// A text channel of a server.
#[derive(Clone, Debug, PartialEq, Eq)]
pub struct Channel {
    pub id: String,
    /// Id of the server the channel belongs to.
    pub server: String,
    pub name: String,
}

/// An invite into a server, landing in one of its channels.
#[derive(Clone, Debug, PartialEq, Eq)]
pub struct Invite {
    pub code: String,
    pub server: String,
    /// User id of the invite's creator.
    pub creator: String,
    pub channel: String,
}

/// A user's membership of a server.
#[derive(Clone, Debug, PartialEq, Eq)]
pub struct Member {
    pub server: String,
    pub user: String,
}

/// The bots of `s` that satisfy `f`, in order.
pub open spec fn select_bots(s: Seq<Bot>, f: spec_fn(Bot) -> bool) -> Seq<Bot>
    decreases s.len(),
{
    if s.len() == 0 {
        Seq::empty()
    } else {
        let rest = select_bots(s.drop_last(), f);
        if f(s.last()) {
            rest.push(s.last())
        } else {
            rest
        }
    }
}

/// Bots owned by the given user.
pub open spec fn owned_by(owner: Seq<char>) -> spec_fn(Bot) -> bool {
    |b: Bot| b.owner@ == owner
}

/// Bots that are public or discoverable.
pub open spec fn listed() -> spec_fn(Bot) -> bool {
    |b: Bot| b.spec_visible()
}

/// Bots of the given type.
pub open spec fn of_type(t: BotType) -> spec_fn(Bot) -> bool {
    |b: Bot| b.bot_type == Some(t)
}

/// Bots whose id is among the given ids.
pub open spec fn among(ids: Seq<String>) -> spec_fn(Bot) -> bool {
    |b: Bot| exists|k: int| 0 <= k < ids.len() && (#[trigger] ids[k])@ == b.id@
}

/// The in-memory store.
pub struct Database {
    pub users: Vec<User>,
    pub bots: Vec<Bot>,
    pub servers: Vec<Server>,
    pub channels: Vec<Channel>,
    pub invites: Vec<Invite>,
    pub members: Vec<Member>,
}

impl Database {
    pub open spec fn has_user(self, id: Seq<char>) -> bool {
        exists|i: int| 0 <= i < self.users@.len() && (#[trigger] self.users@[i]).id@ == id
    }

    pub open spec fn has_bot(self, id: Seq<char>) -> bool {
        exists|i: int| 0 <= i < self.bots@.len() && (#[trigger] self.bots@[i]).id@ == id
    }

    pub open spec fn has_server(self, id: Seq<char>) -> bool {
        exists|i: int| 0 <= i < self.servers@.len() && (#[trigger] self.servers@[i]).id@ == id
    }

    pub open spec fn has_channel(self, id: Seq<char>) -> bool {
        exists|i: int| 0 <= i < self.channels@.len() && (#[trigger] self.channels@[i]).id@ == id
    }

    pub open spec fn has_invite(self, code: Seq<char>) -> bool {
        exists|i: int| 0 <= i < self.invites@.len() && (#[trigger] self.invites@[i]).code@ == code
    }

    pub open spec fn has_member(self, server: Seq<char>, user: Seq<char>) -> bool {
        exists|i: int|
            0 <= i < self.members@.len() && (#[trigger] self.members@[i]).server@ == server
                && self.members@[i].user@ == user
    }

    /// The user with the given id; meaningful where `has_user(id)`.
    pub open spec fn user(self, id: Seq<char>) -> User {
        let i = choose|i: int| 0 <= i < self.users@.len() && (#[trigger] self.users@[i]).id@ == id;
        self.users@[i]
    }

    /// The bot with the given id; meaningful where `has_bot(id)`.
    pub open spec fn bot(self, id: Seq<char>) -> Bot {
        let i = choose|i: int| 0 <= i < self.bots@.len() && (#[trigger] self.bots@[i]).id@ == id;
        self.bots@[i]
    }

    /// The server with the given id; meaningful where `has_server(id)`.
    pub open spec fn server(self, id: Seq<char>) -> Server {
        let i = choose|i: int|
            0 <= i < self.servers@.len() && (#[trigger] self.servers@[i]).id@ == id;
        self.servers@[i]
    }

    /// The channel with the given id; meaningful where `has_channel(id)`.
    pub open spec fn channel(self, id: Seq<char>) -> Channel {
        let i = choose|i: int|
            0 <= i < self.channels@.len() && (#[trigger] self.channels@[i]).id@ == id;
        self.channels@[i]
    }

    /// The invite with the given code; meaningful where `has_invite(code)`.
    pub open spec fn invite(self, code: Seq<char>) -> Invite {
        let i = choose|i: int|
            0 <= i < self.invites@.len() && (#[trigger] self.invites@[i]).code@ == code;
        self.invites@[i]
    }

    /// Number of bots that the given user owns.
    pub open spec fn bot_count(self, owner: Seq<char>) -> nat {
        select_bots(self.bots@, owned_by(owner)).len()
    }

    pub open spec fn users_unique(self) -> bool {
        forall|i: int, j: int|
            0 <= i < self.users@.len() && 0 <= j < self.users@.len()
                && (#[trigger] self.users@[i]).id@ == (#[trigger] self.users@[j]).id@ ==> i == j
    }

    pub open spec fn bots_unique(self) -> bool {
        forall|i: int, j: int|
            0 <= i < self.bots@.len() && 0 <= j < self.bots@.len()
                && (#[trigger] self.bots@[i]).id@ == (#[trigger] self.bots@[j]).id@ ==> i == j
    }

    pub open spec fn servers_unique(self) -> bool {
        forall|i: int, j: int|
            0 <= i < self.servers@.len() && 0 <= j < self.servers@.len()
                && (#[trigger] self.servers@[i]).id@ == (#[trigger] self.servers@[j]).id@ ==> i == j
    }

    pub open spec fn invites_unique(self) -> bool {
        forall|i: int, j: int|
            0 <= i < self.invites@.len() && 0 <= j < self.invites@.len()
                && (#[trigger] self.invites@[i]).code@ == (#[trigger] self.invites@[j]).code@
                ==> i == j
    }

    pub open spec fn channels_unique(self) -> bool {
        forall|i: int, j: int|
            0 <= i < self.channels@.len() && 0 <= j < self.channels@.len()
                && (#[trigger] self.channels@[i]).id@ == (#[trigger] self.channels@[j]).id@
                ==> i == j
    }

    pub open spec fn members_unique(self) -> bool {
        forall|i: int, j: int|
            0 <= i < self.members@.len() && 0 <= j < self.members@.len()
                && (#[trigger] self.members@[i]).server@ == (#[trigger] self.members@[j]).server@
                && self.members@[i].user@ == self.members@[j].user@ ==> i == j
    }

    /// Every bot record is paired with the user record of the same id.
    pub open spec fn paired(self) -> bool {
        forall|i: int| 0 <= i < self.bots@.len() ==> self.has_user((#[trigger] self.bots@[i]).id@)
    }

    /// Ids are unique within each collection, and bots are paired with users.
    pub open spec fn wf(self) -> bool {
        &&& self.users_unique()
        &&& self.bots_unique()
        &&& self.servers_unique()
        &&& self.invites_unique()
        &&& self.channels_unique()
        &&& self.members_unique()
        &&& self.paired()
    }

    /// An empty store.
    pub fn new() -> (r: Database)
        ensures
            r.wf(),
            r.users@.len() == 0,
            r.bots@.len() == 0,
            r.servers@.len() == 0,
            r.channels@.len() == 0,
            r.invites@.len() == 0,
            r.members@.len() == 0,
    {
        Database {
            users: Vec::new(),
            bots: Vec::new(),
            servers: Vec::new(),
            channels: Vec::new(),
            invites: Vec::new(),
            members: Vec::new(),
        }
    }

    fn find_user(&self, id: &String) -> (r: Option<usize>)
        ensures
            match r {
                Some(i) => i < self.users@.len() && self.users@[i as int].id@ == id@,
                None => !self.has_user(id@),
            },
    {
        let mut i: usize = 0;
        while i < self.users.len()
            invariant
                i <= self.users@.len(),
                forall|j: int| 0 <= j < i ==> (#[trigger] self.users@[j]).id@ != id@,
            decreases self.users@.len() - i,
        {
            if self.users[i].id == *id {
                return Some(i);
            }
            i = i + 1;
        }
        None
    }

    fn find_bot(&self, id: &String) -> (r: Option<usize>)
        ensures
            match r {
                Some(i) => i < self.bots@.len() && self.bots@[i as int].id@ == id@,
                None => !self.has_bot(id@),
            },
    {
        let mut i: usize = 0;
        while i < self.bots.len()
            invariant
                i <= self.bots@.len(),
                forall|j: int| 0 <= j < i ==> (#[trigger] self.bots@[j]).id@ != id@,
            decreases self.bots@.len() - i,
        {
            if self.bots[i].id == *id {
                return Some(i);
            }
            i = i + 1;
        }
        None
    }
}

impl Database {
    /// Adds a user; fails with `Conflict` where the id is taken.
    pub fn insert_user(&mut self, user: User) -> (r: Result<(), Error>)
        requires
            old(self).wf(),
        ensures
            final(self).wf(),
            old(self).has_user(user.id@) ==> r == Err::<(), Error>(Error::Conflict)
                && *final(self) == *old(self),
            !old(self).has_user(user.id@) ==> r is Ok
                && *final(self) == (Database { users: final(self).users, ..*old(self) })
                && final(self).users@ == old(self).users@.push(user),
    {
        match self.find_user(&user.id) {
            Some(_) => Err(Error::Conflict),
            None => {
                let ghost prev = *self;
                self.users.push(user);
                proof {
                    assert forall|i: int| 0 <= i < self.bots@.len() implies self.has_user(
                        (#[trigger] self.bots@[i]).id@,
                    ) by {
                        let j = choose|j: int|
                            0 <= j < prev.users@.len() && (#[trigger] prev.users@[j]).id@
                                == prev.bots@[i].id@;
                        assert(self.users@[j] == prev.users@[j]);
                    }
                }
                Ok(())
            },
        }
    }

    /// The user with the given id; `NotFound` where there is none.
    pub fn fetch_user(&self, id: &String) -> (r: Result<User, Error>)
        requires
            self.wf(),
        ensures
            r is Ok <==> self.has_user(id@),
            r matches Ok(u) ==> u == self.user(id@) && u.id@ == id@,
            r is Err ==> r == Err::<User, Error>(Error::NotFound),
    {
        match self.find_user(id) {
            Some(i) => Ok(self.users[i].copy()),
            None => Err(Error::NotFound),
        }
    }

    /// Marks the user with the given id deleted, keeping the record; `NotFound`
    /// where there is none.
    pub fn mark_user_deleted(&mut self, id: &String) -> (r: Result<(), Error>)
        requires
            old(self).wf(),
        ensures
            final(self).wf(),
            r is Ok <==> old(self).has_user(id@),
            r is Err ==> r == Err::<(), Error>(Error::NotFound) && *final(self) == *old(self),
            r is Ok ==> *final(self) == (Database { users: final(self).users, ..*old(self) })
                && final(self).users@.len() == old(self).users@.len()
                && forall|j: int| 0 <= j < old(self).users@.len() ==> {
                    let u = #[trigger] old(self).users@[j];
                    final(self).users@[j] == if u.id@ == id@ {
                        User { flags: u.flags | USER_FLAG_DELETED, ..u }
                    } else {
                        u
                    }
                },
            r is Ok ==> final(self).has_user(id@) && final(self).user(id@).spec_is_deleted(),
    {
        match self.find_user(id) {
            Some(i) => {
                let ghost prev = *self;
                let mut u = self.users[i].copy();
                u.flags = u.flags | USER_FLAG_DELETED;
                proof {
                    lemma_deleted_flag_set(prev.users@[i as int].flags);
                }
                self.users.set(i, u);
                proof {
                    assert forall|a: int, b: int|
                        0 <= a < self.users@.len() && 0 <= b < self.users@.len()
                            && (#[trigger] self.users@[a]).id@ == (#[trigger] self.users@[b]).id@
                            implies a == b by {
                        assert(self.users@[a].id@ == prev.users@[a].id@);
                        assert(self.users@[b].id@ == prev.users@[b].id@);
                    }
                    assert forall|k: int| 0 <= k < self.bots@.len() implies self.has_user(
                        (#[trigger] self.bots@[k]).id@,
                    ) by {
                        let j = choose|j: int|
                            0 <= j < prev.users@.len() && (#[trigger] prev.users@[j]).id@
                                == prev.bots@[k].id@;
                        assert(self.users@[j].id@ == prev.users@[j].id@);
                    }
                    assert forall|j: int| 0 <= j < prev.users@.len() implies {
                        let u = #[trigger] prev.users@[j];
                        self.users@[j] == if u.id@ == id@ {
                            User { flags: u.flags | USER_FLAG_DELETED, ..u }
                        } else {
                            u
                        }
                    } by {
                        if j != i {
                            assert(prev.users@[j].id@ != id@);
                        }
                    }
                    assert(self.users@[i as int].id@ == id@);
                }
                Ok(())
            },
            None => Err(Error::NotFound),
        }
    }
}

/// Selecting from one more bot extends the selection by that bot where it
/// satisfies the condition.
pub proof fn lemma_select_step(s: Seq<Bot>, i: int, f: spec_fn(Bot) -> bool)
    requires
        0 <= i < s.len(),
    ensures
        select_bots(s.take(i + 1), f) == if f(s[i]) {
            select_bots(s.take(i), f).push(s[i])
        } else {
            select_bots(s.take(i), f)
        },
{
    assert(s.take(i + 1).drop_last() =~= s.take(i));
}

/// In a well-formed store, the lookup by a stored bot's id finds that bot.
pub proof fn lemma_bot_lookup(db: Database, i: int)
    requires
        db.wf(),
        0 <= i < db.bots@.len(),
    ensures
        db.has_bot(db.bots@[i].id@),
        db.bot(db.bots@[i].id@) == db.bots@[i],
{
    assert(db.has_bot(db.bots@[i].id@));
    let k = choose|k: int|
        0 <= k < db.bots@.len() && (#[trigger] db.bots@[k]).id@ == db.bots@[i].id@;
    assert(k == i);
}

/// In a well-formed store, the lookup by a stored server's id finds that server.
pub proof fn lemma_server_lookup(db: Database, i: int)
    requires
        db.wf(),
        0 <= i < db.servers@.len(),
    ensures
        db.has_server(db.servers@[i].id@),
        db.server(db.servers@[i].id@) == db.servers@[i],
{
    assert(db.has_server(db.servers@[i].id@));
    let k = choose|k: int|
        0 <= k < db.servers@.len() && (#[trigger] db.servers@[k]).id@ == db.servers@[i].id@;
    assert(k == i);
}

/// After the pair is pushed onto a well-formed store, the store's lookups
/// by that id find exactly the pushed records.
pub proof fn lemma_pushed_is_found(before: Database, after: Database, u: User, b: Bot)
    requires
        after.wf(),
        u.id@ == b.id@,
        after.users@ == before.users@.push(u),
        after.bots@ == before.bots@.push(b),
    ensures
        after.has_user(b.id@),
        after.user(b.id@) == u,
        after.has_bot(b.id@),
        after.bot(b.id@) == b,
{
    let nu = before.users@.len() as int;
    let nb = before.bots@.len() as int;
    assert(after.users@[nu] == u);
    assert(after.bots@[nb] == b);
    assert(after.has_user(b.id@));
    assert(after.has_bot(b.id@));
    let iu = choose|i: int| 0 <= i < after.users@.len() && (#[trigger] after.users@[i]).id@ == b.id@;
    assert(iu == nu);
    let ib = choose|i: int| 0 <= i < after.bots@.len() && (#[trigger] after.bots@[i]).id@ == b.id@;
    assert(ib == nb);
}

/// In a well-formed store, the lookup by a stored channel's id finds that
/// channel.
pub proof fn lemma_channel_lookup(db: Database, i: int)
    requires
        db.wf(),
        0 <= i < db.channels@.len(),
    ensures
        db.has_channel(db.channels@[i].id@),
        db.channel(db.channels@[i].id@) == db.channels@[i],
{
    assert(db.has_channel(db.channels@[i].id@));
    let k = choose|k: int|
        0 <= k < db.channels@.len() && (#[trigger] db.channels@[k]).id@ == db.channels@[i].id@;
    assert(k == i);
}

/// In a well-formed store, the lookup by a stored invite's code finds that
/// invite.
pub proof fn lemma_invite_lookup(db: Database, i: int)
    requires
        db.wf(),
        0 <= i < db.invites@.len(),
    ensures
        db.has_invite(db.invites@[i].code@),
        db.invite(db.invites@[i].code@) == db.invites@[i],
{
    assert(db.has_invite(db.invites@[i].code@));
    let k = choose|k: int|
        0 <= k < db.invites@.len() && (#[trigger] db.invites@[k]).code@ == db.invites@[i].code@;
    assert(k == i);
}

/// Removing one bot removes it from the selection where it satisfies the
/// condition, and keeps the rest.
pub proof fn lemma_select_remove(s: Seq<Bot>, i: int, f: spec_fn(Bot) -> bool)
    requires
        0 <= i < s.len(),
    ensures
        select_bots(s.remove(i), f).len() == select_bots(s, f).len() - if f(s[i]) {
            1int
        } else {
            0int
        },
    decreases s.len(),
{
    if i == s.len() - 1 {
        assert(s.remove(i) =~= s.drop_last());
    } else {
        lemma_select_remove(s.drop_last(), i, f);
        assert(s.remove(i).drop_last() =~= s.drop_last().remove(i));
        assert(s.remove(i).last() == s.last());
    }
}

impl Database {
    /// Adds a bot; fails with `Conflict` where the id is taken, and with
    /// `NotFound` where no user of that id exists to pair it with.
    pub fn insert_bot(&mut self, bot: Bot) -> (r: Result<(), Error>)
        requires
            old(self).wf(),
        ensures
            final(self).wf(),
            old(self).has_bot(bot.id@) ==> r == Err::<(), Error>(Error::Conflict),
            !old(self).has_bot(bot.id@) && !old(self).has_user(bot.id@) ==> r == Err::<
                (),
                Error,
            >(Error::NotFound),
            r is Err ==> *final(self) == *old(self),
            r is Ok <==> !old(self).has_bot(bot.id@) && old(self).has_user(bot.id@),
            r is Ok ==> *final(self) == (Database { bots: final(self).bots, ..*old(self) })
                && final(self).bots@ == old(self).bots@.push(bot),
    {
        if self.find_bot(&bot.id).is_some() {
            return Err(Error::Conflict);
        }
        if self.find_user(&bot.id).is_none() {
            return Err(Error::NotFound);
        }
        self.bots.push(bot);
        Ok(())
    }

    /// The bot with the given id; `NotFound` where there is none.
    pub fn fetch_bot(&self, id: &String) -> (r: Result<Bot, Error>)
        requires
            self.wf(),
        ensures
            r is Ok <==> self.has_bot(id@),
            r matches Ok(b) ==> b == self.bot(id@) && b.id@ == id@,
            r is Err ==> r == Err::<Bot, Error>(Error::NotFound),
    {
        match self.find_bot(id) {
            Some(i) => Ok(self.bots[i].copy()),
            None => Err(Error::NotFound),
        }
    }

    /// The first bot with the given token; `NotFound` where there is none.
    pub fn fetch_bot_by_token(&self, token: &String) -> (r: Result<Bot, Error>)
        ensures
            r is Ok <==> exists|i: int|
                0 <= i < self.bots@.len() && (#[trigger] self.bots@[i]).token@ == token@,
            r matches Ok(b) ==> b.token@ == token@ && exists|i: int|
                0 <= i < self.bots@.len() && #[trigger] self.bots@[i] == b,
            r is Err ==> r == Err::<Bot, Error>(Error::NotFound),
    {
        let mut i: usize = 0;
        while i < self.bots.len()
            invariant
                i <= self.bots@.len(),
                forall|j: int| 0 <= j < i ==> (#[trigger] self.bots@[j]).token@ != token@,
            decreases self.bots@.len() - i,
        {
            if self.bots[i].token == *token {
                return Ok(self.bots[i].copy());
            }
            i = i + 1;
        }
        Err(Error::NotFound)
    }

    /// The bots that the given user owns, in store order.
    pub fn fetch_bots_by_user(&self, owner: &String) -> (r: Vec<Bot>)
        ensures
            r@ == select_bots(self.bots@, owned_by(owner@)),
    {
        let mut out: Vec<Bot> = Vec::new();
        let mut i: usize = 0;
        while i < self.bots.len()
            invariant
                i <= self.bots@.len(),
                out@ == select_bots(self.bots@.take(i as int), owned_by(owner@)),
            decreases self.bots@.len() - i,
        {
            proof {
                lemma_select_step(self.bots@, i as int, owned_by(owner@));
            }
            if self.bots[i].owner == *owner {
                out.push(self.bots[i].copy());
            }
            i = i + 1;
        }
        assert(self.bots@.take(i as int) =~= self.bots@);
        out
    }

    /// The number of bots that the given user owns.
    pub fn get_number_of_bots_by_user(&self, owner: &String) -> (r: usize)
        ensures
            r == self.bot_count(owner@),
    {
        let mut n: usize = 0;
        let mut i: usize = 0;
        while i < self.bots.len()
            invariant
                i <= self.bots@.len(),
                n == select_bots(self.bots@.take(i as int), owned_by(owner@)).len(),
                n <= i,
            decreases self.bots@.len() - i,
        {
            proof {
                lemma_select_step(self.bots@, i as int, owned_by(owner@));
            }
            if self.bots[i].owner == *owner {
                n = n + 1;
            }
            i = i + 1;
        }
        assert(self.bots@.take(i as int) =~= self.bots@);
        n
    }

    /// The bots that are public or discoverable, in store order.
    pub fn fetch_discoverable_bots(&self) -> (r: Vec<Bot>)
        ensures
            r@ == select_bots(self.bots@, listed()),
    {
        let mut out: Vec<Bot> = Vec::new();
        let mut i: usize = 0;
        while i < self.bots.len()
            invariant
                i <= self.bots@.len(),
                out@ == select_bots(self.bots@.take(i as int), listed()),
            decreases self.bots@.len() - i,
        {
            proof {
                lemma_select_step(self.bots@, i as int, listed());
            }
            if self.bots[i].public || self.bots[i].discoverable {
                out.push(self.bots[i].copy());
            }
            i = i + 1;
        }
        assert(self.bots@.take(i as int) =~= self.bots@);
        out
    }

    /// The bots of the given type, in store order.
    pub fn search_bots_by_type(&self, bot_type: BotType) -> (r: Vec<Bot>)
        ensures
            r@ == select_bots(self.bots@, of_type(bot_type)),
    {
        let mut out: Vec<Bot> = Vec::new();
        let mut i: usize = 0;
        while i < self.bots.len()
            invariant
                i <= self.bots@.len(),
                out@ == select_bots(self.bots@.take(i as int), of_type(bot_type)),
            decreases self.bots@.len() - i,
        {
            proof {
                lemma_select_step(self.bots@, i as int, of_type(bot_type));
            }
            let matches = match self.bots[i].bot_type {
                Some(t) => t == bot_type,
                None => false,
            };
            if matches {
                out.push(self.bots[i].copy());
            }
            i = i + 1;
        }
        assert(self.bots@.take(i as int) =~= self.bots@);
        out
    }

    /// The bots whose ids are among the given ids, in store order.
    pub fn fetch_bots(&self, ids: &Vec<String>) -> (r: Vec<Bot>)
        ensures
            r@ == select_bots(self.bots@, among(ids@)),
    {
        let mut out: Vec<Bot> = Vec::new();
        let mut i: usize = 0;
        while i < self.bots.len()
            invariant
                i <= self.bots@.len(),
                out@ == select_bots(self.bots@.take(i as int), among(ids@)),
            decreases self.bots@.len() - i,
        {
            proof {
                lemma_select_step(self.bots@, i as int, among(ids@));
            }
            let mut found = false;
            let mut k: usize = 0;
            while k < ids.len()
                invariant
                    i < self.bots@.len(),
                    k <= ids@.len(),
                    found <==> exists|m: int|
                        0 <= m < k && (#[trigger] ids@[m])@ == self.bots@[i as int].id@,
                decreases ids@.len() - k,
            {
                if ids[k] == self.bots[i].id {
                    found = true;
                }
                k = k + 1;
            }
            if found {
                out.push(self.bots[i].copy());
            }
            i = i + 1;
        }
        assert(self.bots@.take(i as int) =~= self.bots@);
        out
    }
}

impl Database {
    /// Applies a sparse update to the bot with the given id: the removed
    /// fields are cleared, then the given fields replace the stored ones. A
    /// bot's id never changes: an update that gives one fails with
    /// `ValidationFailed`. Where no bot has the id, nothing changes.
    pub fn update_bot(&mut self, id: &String, partial: &PartialBot, remove: &Vec<FieldsBot>) -> (r:
        Result<(), Error>)
        requires
            old(self).wf(),
        ensures
            final(self).wf(),
            r is Ok <==> partial.id is None,
            r is Err ==> r == Err::<(), Error>(Error::ValidationFailed) && *final(self) == *old(
                self,
            ),
            r is Ok ==> *final(self) == (Database { bots: final(self).bots, ..*old(self) })
                && final(self).bots@.len() == old(self).bots@.len()
                && forall|j: int|
                0 <= j < old(self).bots@.len() ==> {
                    let b = #[trigger] old(self).bots@[j];
                    if b.id@ == id@ {
                        final(self).bots@[j]@ == b@.cleared(remove@).applied(partial@)
                    } else {
                        final(self).bots@[j] == b
                    }
                },
    {
        if partial.id.is_some() {
            return Err(Error::ValidationFailed);
        }
        match self.find_bot(id) {
            Some(i) => {
                let ghost prev = *self;
                let mut b = self.bots[i].copy();
                if contains_field(remove, FieldsBot::InteractionsURL) {
                    b.interactions_url = String::new();
                }
                assert(b@ == prev.bots@[i as int]@.cleared(remove@));
                b.apply_options(partial.copy());
                self.bots.set(i, b);
                proof {
                    assert(self.bots@[i as int].id@ == prev.bots@[i as int].id@);
                    assert forall|a: int, c: int|
                        0 <= a < self.bots@.len() && 0 <= c < self.bots@.len()
                            && (#[trigger] self.bots@[a]).id@ == (#[trigger] self.bots@[c]).id@
                            implies a == c by {
                        assert(self.bots@[a].id@ == prev.bots@[a].id@);
                        assert(self.bots@[c].id@ == prev.bots@[c].id@);
                    }
                    assert forall|k: int| 0 <= k < self.bots@.len() implies self.has_user(
                        (#[trigger] self.bots@[k]).id@,
                    ) by {
                        assert(self.bots@[k].id@ == prev.bots@[k].id@);
                        assert(prev.has_user(prev.bots@[k].id@));
                    }
                    assert forall|j: int| 0 <= j < prev.bots@.len() implies {
                        let b = #[trigger] prev.bots@[j];
                        if b.id@ == id@ {
                            self.bots@[j]@ == b@.cleared(remove@).applied(partial@)
                        } else {
                            self.bots@[j] == b
                        }
                    } by {
                        if j != i && prev.bots@[j].id@ == id@ {
                            assert(prev.bots@[j].id@ == prev.bots@[i as int].id@);
                        }
                    }
                }
                Ok(())
            },
            None => Ok(()),
        }
    }

    /// Removes the bot with the given id; with none, nothing changes.
    pub fn delete_bot(&mut self, id: &String) -> (r: Result<(), Error>)
        requires
            old(self).wf(),
        ensures
            final(self).wf(),
            r is Ok,
            !final(self).has_bot(id@),
            *final(self) == (Database { bots: final(self).bots, ..*old(self) }),
            !old(self).has_bot(id@) ==> *final(self) == *old(self),
            old(self).has_bot(id@) ==> exists|i: int|
                0 <= i < old(self).bots@.len() && (#[trigger] old(self).bots@[i]).id@ == id@
                    && final(self).bots@ == old(self).bots@.remove(i),
    {
        match self.find_bot(id) {
            Some(i) => {
                let ghost prev = *self;
                self.bots.remove(i);
                proof {
                    assert forall|a: int| 0 <= a < self.bots@.len() implies (#[trigger] self.bots@[a])
                        == prev.bots@[if a < i { a } else { a + 1 }] by {}
                    assert forall|a: int, c: int|
                        0 <= a < self.bots@.len() && 0 <= c < self.bots@.len()
                            && (#[trigger] self.bots@[a]).id@ == (#[trigger] self.bots@[c]).id@
                            implies a == c by {
                        let pa = if a < i { a } else { a + 1 };
                        let pc = if c < i { c } else { c + 1 };
                        assert(prev.bots@[pa] == self.bots@[a]);
                        assert(prev.bots@[pc] == self.bots@[c]);
                    }
                    assert forall|k: int| 0 <= k < self.bots@.len() implies self.has_user(
                        (#[trigger] self.bots@[k]).id@,
                    ) by {
                        let pk = if k < i { k } else { k + 1 };
                        assert(prev.bots@[pk] == self.bots@[k]);
                        assert(prev.has_user(prev.bots@[pk].id@));
                    }
                    assert forall|k: int| 0 <= k < self.bots@.len() implies (#[trigger] self.bots@[
                        k
                    ]).id@ != id@ by {
                        let pk = if k < i { k } else { k + 1 };
                        assert(prev.bots@[pk] == self.bots@[k]);
                    }
                }
                Ok(())
            },
            None => Ok(()),
        }
    }
}

impl Server {
    pub fn copy(&self) -> (r: Server)
        ensures
            r.id == self.id,
            r.owner == self.owner,
            r.name == self.name,
            r.channels@ == self.channels@,
            r.default_permissions == self.default_permissions,
    {
        let mut channels: Vec<String> = Vec::new();
        let mut i: usize = 0;
        while i < self.channels.len()
            invariant
                i <= self.channels@.len(),
                channels@ == self.channels@.take(i as int),
            decreases self.channels@.len() - i,
        {
            channels.push(self.channels[i].clone());
            assert(self.channels@.take(i + 1) =~= self.channels@.take(i as int).push(
                self.channels@[i as int],
            ));
            i = i + 1;
        }
        assert(self.channels@.take(i as int) =~= self.channels@);
        Server {
            id: self.id.clone(),
            owner: self.owner.clone(),
            name: self.name.clone(),
            channels,
            default_permissions: self.default_permissions,
        }
    }
}

impl Channel {
    pub fn copy(&self) -> (r: Channel)
        ensures
            r == *self,
    {
        Channel { id: self.id.clone(), server: self.server.clone(), name: self.name.clone() }
    }
}

impl Invite {
    pub fn copy(&self) -> (r: Invite)
        ensures
            r == *self,
    {
        Invite {
            code: self.code.clone(),
            server: self.server.clone(),
            creator: self.creator.clone(),
            channel: self.channel.clone(),
        }
    }
}

impl Database {
    fn find_server(&self, id: &String) -> (r: Option<usize>)
        ensures
            match r {
                Some(i) => i < self.servers@.len() && self.servers@[i as int].id@ == id@,
                None => !self.has_server(id@),
            },
    {
        let mut i: usize = 0;
        while i < self.servers.len()
            invariant
                i <= self.servers@.len(),
                forall|j: int| 0 <= j < i ==> (#[trigger] self.servers@[j]).id@ != id@,
            decreases self.servers@.len() - i,
        {
            if self.servers[i].id == *id {
                return Some(i);
            }
            i = i + 1;
        }
        None
    }

    fn find_channel(&self, id: &String) -> (r: Option<usize>)
        ensures
            match r {
                Some(i) => i < self.channels@.len() && self.channels@[i as int].id@ == id@,
                None => !self.has_channel(id@),
            },
    {
        let mut i: usize = 0;
        while i < self.channels.len()
            invariant
                i <= self.channels@.len(),
                forall|j: int| 0 <= j < i ==> (#[trigger] self.channels@[j]).id@ != id@,
            decreases self.channels@.len() - i,
        {
            if self.channels[i].id == *id {
                return Some(i);
            }
            i = i + 1;
        }
        None
    }

    fn find_invite(&self, code: &String) -> (r: Option<usize>)
        ensures
            match r {
                Some(i) => i < self.invites@.len() && self.invites@[i as int].code@ == code@,
                None => !self.has_invite(code@),
            },
    {
        let mut i: usize = 0;
        while i < self.invites.len()
            invariant
                i <= self.invites@.len(),
                forall|j: int| 0 <= j < i ==> (#[trigger] self.invites@[j]).code@ != code@,
            decreases self.invites@.len() - i,
        {
            if self.invites[i].code == *code {
                return Some(i);
            }
            i = i + 1;
        }
        None
    }

    fn find_member(&self, server: &String, user: &String) -> (r: Option<usize>)
        ensures
            match r {
                Some(i) => i < self.members@.len() && self.members@[i as int].server@ == server@
                    && self.members@[i as int].user@ == user@,
                None => !self.has_member(server@, user@),
            },
    {
        let mut i: usize = 0;
        while i < self.members.len()
            invariant
                i <= self.members@.len(),
                forall|j: int|
                    0 <= j < i ==> !((#[trigger] self.members@[j]).server@ == server@
                        && self.members@[j].user@ == user@),
            decreases self.members@.len() - i,
        {
            if self.members[i].server == *server && self.members[i].user == *user {
                return Some(i);
            }
            i = i + 1;
        }
        None
    }
}

impl Database {
    /// Adds a server; fails with `Conflict` where the id is taken.
    pub fn insert_server(&mut self, server: Server) -> (r: Result<(), Error>)
        requires
            old(self).wf(),
        ensures
            final(self).wf(),
            r is Ok <==> !old(self).has_server(server.id@),
            r is Err ==> r == Err::<(), Error>(Error::Conflict) && *final(self) == *old(self),
            r is Ok ==> *final(self) == (Database { servers: final(self).servers, ..*old(self) })
                && final(self).servers@ == old(self).servers@.push(server),
    {
        if self.find_server(&server.id).is_some() {
            return Err(Error::Conflict);
        }
        self.servers.push(server);
        Ok(())
    }

    /// The server with the given id; `NotFound` where there is none.
    pub fn fetch_server(&self, id: &String) -> (r: Result<Server, Error>)
        requires
            self.wf(),
        ensures
            r is Ok <==> self.has_server(id@),
            r matches Ok(s) ==> s.id == self.server(id@).id && s.owner == self.server(id@).owner
                && s.name == self.server(id@).name && s.channels@ == self.server(id@).channels@
                && s.default_permissions == self.server(id@).default_permissions && s.id@ == id@,
            r is Err ==> r == Err::<Server, Error>(Error::NotFound),
    {
        match self.find_server(id) {
            Some(i) => Ok(self.servers[i].copy()),
            None => Err(Error::NotFound),
        }
    }

    /// Gives the server with the given id a new name; `NotFound` where there is
    /// none.
    pub fn rename_server(&mut self, id: &String, name: String) -> (r: Result<(), Error>)
        requires
            old(self).wf(),
        ensures
            final(self).wf(),
            r is Ok <==> old(self).has_server(id@),
            r is Err ==> r == Err::<(), Error>(Error::NotFound) && *final(self) == *old(self),
            r is Ok ==> *final(self) == (Database { servers: final(self).servers, ..*old(self) })
                && final(self).servers@.len() == old(self).servers@.len()
                && forall|j: int|
                0 <= j < old(self).servers@.len() ==> {
                    let s = #[trigger] old(self).servers@[j];
                    if s.id@ == id@ {
                        final(self).servers@[j] == Server { name, ..s }
                    } else {
                        final(self).servers@[j] == s
                    }
                },
    {
        match self.find_server(id) {
            Some(i) => {
                let ghost prev = *self;
                let mut s = self.servers.remove(i);
                s.name = name;
                self.servers.insert(i, s);
                proof {
                    assert(self.servers@ =~= prev.servers@.update(
                        i as int,
                        Server { name, ..prev.servers@[i as int] },
                    ));
                    assert(self.servers@[i as int] == Server { name, ..prev.servers@[i as int] });
                    assert forall|a: int, c: int|
                        0 <= a < self.servers@.len() && 0 <= c < self.servers@.len()
                            && (#[trigger] self.servers@[a]).id@ == (#[trigger] self.servers@[c]).id@
                            implies a == c by {
                        assert(self.servers@[a].id@ == prev.servers@[a].id@);
                        assert(self.servers@[c].id@ == prev.servers@[c].id@);
                    }
                    assert forall|j: int| 0 <= j < prev.servers@.len() implies {
                        let s = #[trigger] prev.servers@[j];
                        if s.id@ == id@ {
                            self.servers@[j] == Server { name, ..s }
                        } else {
                            self.servers@[j] == s
                        }
                    } by {
                        if j != i && prev.servers@[j].id@ == id@ {
                            assert(prev.servers@[j].id@ == prev.servers@[i as int].id@);
                        }
                    }
                }
                Ok(())
            },
            None => Err(Error::NotFound),
        }
    }

    /// Adds a channel; fails with `Conflict` where the id is taken.
    pub fn insert_channel(&mut self, channel: Channel) -> (r: Result<(), Error>)
        requires
            old(self).wf(),
        ensures
            final(self).wf(),
            r is Ok <==> !old(self).has_channel(channel.id@),
            r is Err ==> r == Err::<(), Error>(Error::Conflict) && *final(self) == *old(self),
            r is Ok ==> *final(self) == (Database { channels: final(self).channels, ..*old(self) })
                && final(self).channels@ == old(self).channels@.push(channel),
    {
        if self.find_channel(&channel.id).is_some() {
            return Err(Error::Conflict);
        }
        self.channels.push(channel);
        Ok(())
    }

    /// The channels with the given ids, in the order given; `NotFound` where
    /// one of them is absent.
    pub fn fetch_channels(&self, ids: &Vec<String>) -> (r: Result<Vec<Channel>, Error>)
        requires
            self.wf(),
        ensures
            r is Ok <==> forall|k: int| 0 <= k < ids@.len() ==> self.has_channel((#[trigger] ids@[k])@),
            r matches Ok(cs) ==> cs@.len() == ids@.len() && forall|k: int|
                0 <= k < ids@.len() ==> #[trigger] cs@[k] == self.channel(ids@[k]@)
                    && cs@[k].id@ == ids@[k]@,
            r is Err ==> r == Err::<Vec<Channel>, Error>(Error::NotFound),
    {
        let mut out: Vec<Channel> = Vec::new();
        let mut k: usize = 0;
        while k < ids.len()
            invariant
                self.wf(),
                k <= ids@.len(),
                out@.len() == k,
                forall|m: int| 0 <= m < k ==> self.has_channel((#[trigger] ids@[m])@),
                forall|m: int|
                    0 <= m < k ==> #[trigger] out@[m] == self.channel(ids@[m]@) && out@[m].id@
                        == ids@[m]@,
            decreases ids@.len() - k,
        {
            match self.find_channel(&ids[k]) {
                Some(i) => {
                    proof {
                        let c = choose|c: int|
                            0 <= c < self.channels@.len() && (#[trigger] self.channels@[c]).id@
                                == ids@[k as int]@;
                        assert(c == i);
                    }
                    out.push(self.channels[i].copy());
                },
                None => {
                    return Err(Error::NotFound);
                },
            }
            k = k + 1;
        }
        Ok(out)
    }

    /// Adds an invite; fails with `Conflict` where the code is taken.
    pub fn insert_invite(&mut self, invite: Invite) -> (r: Result<(), Error>)
        requires
            old(self).wf(),
        ensures
            final(self).wf(),
            r is Ok <==> !old(self).has_invite(invite.code@),
            r is Err ==> r == Err::<(), Error>(Error::Conflict) && *final(self) == *old(self),
            r is Ok ==> *final(self) == (Database { invites: final(self).invites, ..*old(self) })
                && final(self).invites@ == old(self).invites@.push(invite),
    {
        if self.find_invite(&invite.code).is_some() {
            return Err(Error::Conflict);
        }
        self.invites.push(invite);
        Ok(())
    }

    /// The invite with the given code; `NotFound` where there is none.
    pub fn fetch_invite(&self, code: &String) -> (r: Result<Invite, Error>)
        requires
            self.wf(),
        ensures
            r is Ok <==> self.has_invite(code@),
            r matches Ok(v) ==> v == self.invite(code@) && v.code@ == code@,
            r is Err ==> r == Err::<Invite, Error>(Error::NotFound),
    {
        match self.find_invite(code) {
            Some(i) => Ok(self.invites[i].copy()),
            None => Err(Error::NotFound),
        }
    }

    /// Adds a membership; fails with `Conflict` where the user is already a
    /// member of that server.
    pub fn insert_member(&mut self, member: Member) -> (r: Result<(), Error>)
        requires
            old(self).wf(),
        ensures
            final(self).wf(),
            r is Ok <==> !old(self).has_member(member.server@, member.user@),
            r is Err ==> r == Err::<(), Error>(Error::Conflict) && *final(self) == *old(self),
            r is Ok ==> *final(self) == (Database { members: final(self).members, ..*old(self) })
                && final(self).members@ == old(self).members@.push(member),
    {
        if self.find_member(&member.server, &member.user).is_some() {
            return Err(Error::Conflict);
        }
        self.members.push(member);
        Ok(())
    }

    /// Whether the user is a member of the server.
    pub fn fetch_member(&self, server: &String, user: &String) -> (r: bool)
        ensures
            r == self.has_member(server@, user@),
    {
        self.find_member(server, user).is_some()
    }

    /// Ends the user's membership of the server; without one, nothing changes.
    pub fn delete_member(&mut self, server: &String, user: &String) -> (r: Result<(), Error>)
        requires
            old(self).wf(),
        ensures
            final(self).wf(),
            r is Ok,
            !final(self).has_member(server@, user@),
            *final(self) == (Database { members: final(self).members, ..*old(self) }),
            forall|s: Seq<char>, u: Seq<char>|
                !(s == server@ && u == user@) ==> (#[trigger] final(self).has_member(s, u)
                    <==> old(self).has_member(s, u)),
    {
        match self.find_member(server, user) {
            Some(i) => {
                let ghost prev = *self;
                self.members.remove(i);
                proof {
                    assert forall|a: int| 0 <= a < self.members@.len() implies (
                    #[trigger] self.members@[a]) == prev.members@[if a < i { a } else { a + 1 }] by {}
                    assert forall|a: int, c: int|
                        0 <= a < self.members@.len() && 0 <= c < self.members@.len()
                            && (#[trigger] self.members@[a]).server@ == (
                        #[trigger] self.members@[c]).server@ && self.members@[a].user@
                            == self.members@[c].user@ implies a == c by {
                        let pa = if a < i { a } else { a + 1 };
                        let pc = if c < i { c } else { c + 1 };
                        assert(prev.members@[pa] == self.members@[a]);
                        assert(prev.members@[pc] == self.members@[c]);
                    }
                    assert forall|k: int| 0 <= k < self.members@.len() implies !((
                    #[trigger] self.members@[k]).server@ == server@ && self.members@[k].user@
                        == user@) by {
                        let pk = if k < i { k } else { k + 1 };
                        assert(prev.members@[pk] == self.members@[k]);
                    }
                    assert forall|s: Seq<char>, u: Seq<char>|
                        !(s == server@ && u == user@) implies (#[trigger] self.has_member(s, u)
                        <==> prev.has_member(s, u)) by {
                        if prev.has_member(s, u) {
                            let k = choose|k: int|
                                0 <= k < prev.members@.len() && (
                                #[trigger] prev.members@[k]).server@ == s && prev.members@[k].user@
                                    == u;
                            assert(k != i);
                            let nk = if k < i { k } else { k - 1 };
                            assert(self.members@[nk] == prev.members@[k]);
                        }
                        if self.has_member(s, u) {
                            let k = choose|k: int|
                                0 <= k < self.members@.len() && (
                                #[trigger] self.members@[k]).server@ == s && self.members@[k].user@
                                    == u;
                            let pk = if k < i { k } else { k + 1 };
                            assert(prev.members@[pk] == self.members@[k]);
                        }
                    }
                }
                Ok(())
            },
            None => Ok(()),
        }
    }
}

impl Database {
    /// Gives the user with the given id a new username; `NotFound` where there
    /// is none.
    pub fn set_username(&mut self, id: &String, username: String) -> (r: Result<(), Error>)
        requires
            old(self).wf(),
        ensures
            final(self).wf(),
            r is Ok <==> old(self).has_user(id@),
            r is Err ==> r == Err::<(), Error>(Error::NotFound) && *final(self) == *old(self),
            r is Ok ==> *final(self) == (Database { users: final(self).users, ..*old(self) })
                && final(self).users@.len() == old(self).users@.len()
                && forall|j: int|
                0 <= j < old(self).users@.len() ==> {
                    let u = #[trigger] old(self).users@[j];
                    if u.id@ == id@ {
                        final(self).users@[j] == User { username, ..u }
                    } else {
                        final(self).users@[j] == u
                    }
                },
            r is Ok ==> final(self).has_user(id@) && final(self).user(id@) == (User {
                username,
                ..old(self).user(id@)
            }),
    {
        match self.find_user(id) {
            Some(i) => {
                let ghost prev = *self;
                let mut u = self.users.remove(i);
                u.username = username;
                self.users.insert(i, u);
                proof {
                    assert(self.users@ =~= prev.users@.update(
                        i as int,
                        User { username, ..prev.users@[i as int] },
                    ));
                    assert forall|a: int, c: int|
                        0 <= a < self.users@.len() && 0 <= c < self.users@.len()
                            && (#[trigger] self.users@[a]).id@ == (#[trigger] self.users@[c]).id@
                            implies a == c by {
                        assert(self.users@[a].id@ == prev.users@[a].id@);
                        assert(self.users@[c].id@ == prev.users@[c].id@);
                    }
                    assert forall|k: int| 0 <= k < self.bots@.len() implies self.has_user(
                        (#[trigger] self.bots@[k]).id@,
                    ) by {
                        let j = choose|j: int|
                            0 <= j < prev.users@.len() && (#[trigger] prev.users@[j]).id@
                                == prev.bots@[k].id@;
                        assert(self.users@[j].id@ == prev.users@[j].id@);
                    }
                    assert forall|j: int| 0 <= j < prev.users@.len() implies {
                        let u = #[trigger] prev.users@[j];
                        if u.id@ == id@ {
                            self.users@[j] == User { username, ..u }
                        } else {
                            self.users@[j] == u
                        }
                    } by {
                        if j != i && prev.users@[j].id@ == id@ {
                            assert(prev.users@[j].id@ == prev.users@[i as int].id@);
                        }
                    }
                    let k = choose|k: int|
                        0 <= k < prev.users@.len() && (#[trigger] prev.users@[k]).id@ == id@;
                    assert(k == i);
                    assert(self.has_user(id@));
                    let m = choose|m: int|
                        0 <= m < self.users@.len() && (#[trigger] self.users@[m]).id@ == id@;
                    assert(m == i);
                }
                Ok(())
            },
            None => Err(Error::NotFound),
        }
    }
}

/// No two keys have the same characters.
pub open spec fn keys_distinct(keys: Seq<String>) -> bool {
    forall|i: int, j: int|
        0 <= i < keys.len() && 0 <= j < keys.len() && (#[trigger] keys[i])@ == (#[trigger] keys[j])@
            ==> i == j
}

/// Whether no two keys have the same characters.
pub fn distinct_keys(keys: &Vec<String>) -> (r: bool)
    ensures
        r == keys_distinct(keys@),
{
    let n = keys.len();
    let mut i: usize = 0;
    while i < n
        invariant
            n == keys@.len(),
            i <= n,
            forall|a: int, b: int|
                0 <= a < i && a < b < n ==> (#[trigger] keys@[a])@ != (#[trigger] keys@[b])@,
        decreases n - i,
    {
        let mut j: usize = i + 1;
        while j < n
            invariant
                n == keys@.len(),
                i < n,
                i + 1 <= j <= n,
                forall|a: int, b: int|
                    0 <= a < i && a < b < n ==> (#[trigger] keys@[a])@ != (#[trigger] keys@[b])@,
                forall|b: int| i < b < j ==> keys@[i as int]@ != (#[trigger] keys@[b])@,
            decreases n - j,
        {
            if keys[i] == keys[j] {
                return false;
            }
            j = j + 1;
        }
        i = i + 1;
    }
    proof {
        assert forall|a: int, b: int|
            0 <= a < n && 0 <= b < n && (#[trigger] keys@[a])@ == (#[trigger] keys@[b])@
                implies a == b by {
            if a < b {
                assert(keys@[a]@ != keys@[b]@);
            } else if b < a {
                assert(keys@[b]@ != keys@[a]@);
            }
        }
    }
    true
}

impl Database {
    /// Whether ids are unique within each collection and every bot is paired
    /// with a user: a store built by `new` and changed only through these
    /// operations always is.
    pub fn is_well_formed(&self) -> (r: bool)
        ensures
            r == self.wf(),
    {
        let mut user_ids: Vec<String> = Vec::new();
        let mut k: usize = 0;
        while k < self.users.len()
            invariant
                k <= self.users@.len(),
                user_ids@.len() == k,
                forall|m: int| 0 <= m < k ==> (#[trigger] user_ids@[m])@ == self.users@[m].id@,
            decreases self.users@.len() - k,
        {
            user_ids.push(self.users[k].id.clone());
            k = k + 1;
        }
        let mut bot_ids: Vec<String> = Vec::new();
        let mut k: usize = 0;
        while k < self.bots.len()
            invariant
                k <= self.bots@.len(),
                bot_ids@.len() == k,
                forall|m: int| 0 <= m < k ==> (#[trigger] bot_ids@[m])@ == self.bots@[m].id@,
            decreases self.bots@.len() - k,
        {
            bot_ids.push(self.bots[k].id.clone());
            k = k + 1;
        }
        let mut server_ids: Vec<String> = Vec::new();
        let mut k: usize = 0;
        while k < self.servers.len()
            invariant
                k <= self.servers@.len(),
                server_ids@.len() == k,
                forall|m: int| 0 <= m < k ==> (#[trigger] server_ids@[m])@ == self.servers@[m].id@,
            decreases self.servers@.len() - k,
        {
            server_ids.push(self.servers[k].id.clone());
            k = k + 1;
        }
        let mut channel_ids: Vec<String> = Vec::new();
        let mut k: usize = 0;
        while k < self.channels.len()
            invariant
                k <= self.channels@.len(),
                channel_ids@.len() == k,
                forall|m: int| 0 <= m < k ==> (#[trigger] channel_ids@[m])@ == self.channels@[m].id@,
            decreases self.channels@.len() - k,
        {
            channel_ids.push(self.channels[k].id.clone());
            k = k + 1;
        }
        let mut codes: Vec<String> = Vec::new();
        let mut k: usize = 0;
        while k < self.invites.len()
            invariant
                k <= self.invites@.len(),
                codes@.len() == k,
                forall|m: int| 0 <= m < k ==> (#[trigger] codes@[m])@ == self.invites@[m].code@,
            decreases self.invites@.len() - k,
        {
            codes.push(self.invites[k].code.clone());
            k = k + 1;
        }
        let users_ok = distinct_keys(&user_ids);
        let bots_ok = distinct_keys(&bot_ids);
        let servers_ok = distinct_keys(&server_ids);
        let channels_ok = distinct_keys(&channel_ids);
        let invites_ok = distinct_keys(&codes);
        proof {
            assert(users_ok == self.users_unique()) by {
                if !self.users_unique() {
                    let (a, b) = choose|a: int, b: int|
                        0 <= a < self.users@.len() && 0 <= b < self.users@.len()
                            && (#[trigger] self.users@[a]).id@ == (#[trigger] self.users@[b]).id@
                            && a != b;
                    assert(user_ids@[a]@ == user_ids@[b]@);
                }
                if !keys_distinct(user_ids@) {
                    let (a, b) = choose|a: int, b: int|
                        0 <= a < user_ids@.len() && 0 <= b < user_ids@.len() && (
                        #[trigger] user_ids@[a])@ == (#[trigger] user_ids@[b])@ && a != b;
                    assert(self.users@[a].id@ == self.users@[b].id@);
                }
            }
            assert(bots_ok == self.bots_unique()) by {
                if !self.bots_unique() {
                    let (a, b) = choose|a: int, b: int|
                        0 <= a < self.bots@.len() && 0 <= b < self.bots@.len()
                            && (#[trigger] self.bots@[a]).id@ == (#[trigger] self.bots@[b]).id@
                            && a != b;
                    assert(bot_ids@[a]@ == bot_ids@[b]@);
                }
                if !keys_distinct(bot_ids@) {
                    let (a, b) = choose|a: int, b: int|
                        0 <= a < bot_ids@.len() && 0 <= b < bot_ids@.len() && (
                        #[trigger] bot_ids@[a])@ == (#[trigger] bot_ids@[b])@ && a != b;
                    assert(self.bots@[a].id@ == self.bots@[b].id@);
                }
            }
            assert(servers_ok == self.servers_unique()) by {
                if !self.servers_unique() {
                    let (a, b) = choose|a: int, b: int|
                        0 <= a < self.servers@.len() && 0 <= b < self.servers@.len()
                            && (#[trigger] self.servers@[a]).id@ == (#[trigger] self.servers@[b]).id@
                            && a != b;
                    assert(server_ids@[a]@ == server_ids@[b]@);
                }
                if !keys_distinct(server_ids@) {
                    let (a, b) = choose|a: int, b: int|
                        0 <= a < server_ids@.len() && 0 <= b < server_ids@.len() && (
                        #[trigger] server_ids@[a])@ == (#[trigger] server_ids@[b])@ && a != b;
                    assert(self.servers@[a].id@ == self.servers@[b].id@);
                }
            }
            assert(channels_ok == self.channels_unique()) by {
                if !self.channels_unique() {
                    let (a, b) = choose|a: int, b: int|
                        0 <= a < self.channels@.len() && 0 <= b < self.channels@.len()
                            && (#[trigger] self.channels@[a]).id@ == (
                        #[trigger] self.channels@[b]).id@ && a != b;
                    assert(channel_ids@[a]@ == channel_ids@[b]@);
                }
                if !keys_distinct(channel_ids@) {
                    let (a, b) = choose|a: int, b: int|
                        0 <= a < channel_ids@.len() && 0 <= b < channel_ids@.len() && (
                        #[trigger] channel_ids@[a])@ == (#[trigger] channel_ids@[b])@ && a != b;
                    assert(self.channels@[a].id@ == self.channels@[b].id@);
                }
            }
            assert(invites_ok == self.invites_unique()) by {
                if !self.invites_unique() {
                    let (a, b) = choose|a: int, b: int|
                        0 <= a < self.invites@.len() && 0 <= b < self.invites@.len()
                            && (#[trigger] self.invites@[a]).code@ == (
                        #[trigger] self.invites@[b]).code@ && a != b;
                    assert(codes@[a]@ == codes@[b]@);
                }
                if !keys_distinct(codes@) {
                    let (a, b) = choose|a: int, b: int|
                        0 <= a < codes@.len() && 0 <= b < codes@.len() && (#[trigger] codes@[a])@
                            == (#[trigger] codes@[b])@ && a != b;
                    assert(self.invites@[a].code@ == self.invites@[b].code@);
                }
            }
        }
        let members_ok = self.members_distinct();
        let paired_ok = self.bots_paired();
        users_ok && bots_ok && servers_ok && channels_ok && invites_ok && members_ok && paired_ok
    }

    fn members_distinct(&self) -> (r: bool)
        ensures
            r == self.members_unique(),
    {
        let n = self.members.len();
        let mut i: usize = 0;
        while i < n
            invariant
                n == self.members@.len(),
                i <= n,
                forall|a: int, b: int|
                    0 <= a < i && a < b < n ==> !((#[trigger] self.members@[a]).server@ == (
                    #[trigger] self.members@[b]).server@ && self.members@[a].user@
                        == self.members@[b].user@),
            decreases n - i,
        {
            let mut j: usize = i + 1;
            while j < n
                invariant
                    n == self.members@.len(),
                    i < n,
                    i + 1 <= j <= n,
                    forall|a: int, b: int|
                        0 <= a < i && a < b < n ==> !((#[trigger] self.members@[a]).server@ == (
                        #[trigger] self.members@[b]).server@ && self.members@[a].user@
                            == self.members@[b].user@),
                    forall|b: int|
                        i < b < j ==> !(self.members@[i as int].server@ == (
                        #[trigger] self.members@[b]).server@ && self.members@[i as int].user@
                            == self.members@[b].user@),
                decreases n - j,
            {
                if self.members[i].server == self.members[j].server && self.members[i].user
                    == self.members[j].user {
                    return false;
                }
                j = j + 1;
            }
            i = i + 1;
        }
        proof {
            assert forall|a: int, b: int|
                0 <= a < n && 0 <= b < n && (#[trigger] self.members@[a]).server@ == (
                #[trigger] self.members@[b]).server@ && self.members@[a].user@
                    == self.members@[b].user@ implies a == b by {
                if a < b {
                    assert(!(self.members@[a].server@ == self.members@[b].server@
                        && self.members@[a].user@ == self.members@[b].user@));
                } else if b < a {
                    assert(!(self.members@[b].server@ == self.members@[a].server@
                        && self.members@[b].user@ == self.members@[a].user@));
                }
            }
        }
        true
    }

    fn bots_paired(&self) -> (r: bool)
        ensures
            r == self.paired(),
    {
        let mut i: usize = 0;
        while i < self.bots.len()
            invariant
                i <= self.bots@.len(),
                forall|a: int| 0 <= a < i ==> self.has_user((#[trigger] self.bots@[a]).id@),
            decreases self.bots@.len() - i,
        {
            if self.find_user(&self.bots[i].id).is_none() {
                return false;
            }
            i = i + 1;
        }
        true
    }
}

} // verus!
