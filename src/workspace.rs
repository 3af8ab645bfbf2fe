//! Provisioning of a bot's default workspace: a server with a fixed list of
//! text channels, memberships for the owner and the bot, and an invite into
//! the first channel.

use vstd::prelude::*;
use vstd::string::*;
use crate::external::{new_ulid, random_code};
use crate::store::{lemma_channel_lookup, lemma_invite_lookup, lemma_server_lookup};
use crate::model::{Bot, Error, FieldsBot, PartialBot, PartialBotView, User};
use crate::store::{keys_distinct, Channel, Database, Invite, Member, Server};

verus! {

/// Number of channels in a default workspace.
pub const DEFAULT_CHANNEL_COUNT: usize = 4;

/// Length of an invite code, in characters.
pub const INVITE_CODE_LEN: usize = 8;

/// Names of the default workspace's channels, in order.
pub open spec fn default_channel_names() -> Seq<Seq<char>> {
    seq!["BOT使用新手指南"@, "功能发布"@, "bug反馈"@, "大家一起玩"@]
}

/// Suffix of a default server's name, after the bot's username.
pub open spec fn home_suffix() -> Seq<char> {
    "的主页"@
}

fn default_channel_name_list() -> (r: Vec<String>)
    ensures
        r@.len() == DEFAULT_CHANNEL_COUNT,
        forall|k: int| 0 <= k < r@.len() ==> (#[trigger] r@[k])@ == default_channel_names()[k],
{
    let mut r: Vec<String> = Vec::new();
    r.push(String::from_str("BOT使用新手指南"));
    r.push(String::from_str("功能发布"));
    r.push(String::from_str("bug反馈"));
    r.push(String::from_str("大家一起玩"));
    r
}

/// The fields that provisioning writes onto the bot: its invite code and its
/// default server.
pub open spec fn workspace_fields(code: Seq<char>, server: Seq<char>) -> PartialBotView {
    PartialBotView { server_invite: Some(code), default_server: Some(server), ..PartialBot::spec_empty()@ }
}

/// The ids drawn for a workspace's channels are pairwise distinct and none
/// is taken in the store.
pub open spec fn fresh_channel_ids(db: Database, ids: Seq<String>) -> bool {
    &&& keys_distinct(ids)
    &&& forall|k: int| 0 <= k < ids.len() ==> !db.has_channel((#[trigger] ids[k])@)
}

/// Provisioning with these ids and users succeeds on this store.
pub open spec fn provision_ok(
    db: Database,
    server_id: Seq<char>,
    channel_ids: Seq<String>,
    code: Seq<char>,
    owner_id: Seq<char>,
    bot_user_id: Seq<char>,
) -> bool {
    &&& channel_ids.len() == DEFAULT_CHANNEL_COUNT
    &&& fresh_channel_ids(db, channel_ids)
    &&& !db.has_server(server_id)
    &&& owner_id != bot_user_id
    &&& !db.has_member(server_id, owner_id)
    &&& !db.has_member(server_id, bot_user_id)
    &&& !db.has_invite(code)
}

/// What a successful provisioning leaves: the server with its channels, both
/// memberships and the invite into the first channel.
pub open spec fn provisioned(
    db: Database,
    server_id: Seq<char>,
    code: Seq<char>,
    owner: Seq<char>,
    bot_name: Seq<char>,
    default_permissions: i64,
    owner_id: Seq<char>,
    bot_user_id: Seq<char>,
) -> bool {
    let server = db.server(server_id);
    &&& db.has_server(server_id)
    &&& server.owner@ == owner
    &&& server.name@ == bot_name + home_suffix()
    &&& server.default_permissions == default_permissions
    &&& server.channels@.len() == DEFAULT_CHANNEL_COUNT
    &&& forall|k: int|
        0 <= k < DEFAULT_CHANNEL_COUNT ==> {
            let cid = (#[trigger] server.channels@[k])@;
            &&& db.has_channel(cid)
            &&& db.channel(cid).server@ == server_id
            &&& db.channel(cid).name@ == default_channel_names()[k]
        }
    &&& db.has_invite(code)
    &&& db.invite(code).server@ == server_id
    &&& db.invite(code).channel@ == server.channels@[0]@
    &&& db.invite(code).creator@ == owner
    &&& db.has_member(server_id, owner_id)
    &&& db.has_member(server_id, bot_user_id)
}

impl Bot {
    /// Provisions the bot's default workspace under ids already drawn, in a
    /// fixed order: the channels (inserted before the server that lists
    /// them), the server, owned by the bot's owner and named after the bot
    /// user, the owner's and the bot user's memberships, and an invite by the
    /// owner into the first channel. Finally the bot, and its stored record,
    /// take the invite code and the server id.
    ///
    /// Fails with `ValidationFailed`, changing nothing, unless there is one id
    /// per default channel. Fails with `Conflict` where an id, a membership or
    /// the code is taken, or two channel ids coincide; the steps before the
    /// failing one stay in place.
    pub fn provision_with_ids(
        db: &mut Database,
        bot: &mut Bot,
        bot_user: &User,
        bot_owner: &User,
        default_permissions: i64,
        server_id: String,
        channel_ids: Vec<String>,
        code: String,
    ) -> (r: Result<(), Error>)
        requires
            old(db).wf(),
            old(bot).id@ == bot_user.id@,
        ensures
            final(db).wf(),
            final(db).users == old(db).users,
            r is Ok <==> provision_ok(
                *old(db),
                server_id@,
                channel_ids@,
                code@,
                bot_owner.id@,
                bot_user.id@,
            ),
            channel_ids@.len() != DEFAULT_CHANNEL_COUNT ==> r == Err::<(), Error>(
                Error::ValidationFailed,
            ) && *final(db) == *old(db),
            channel_ids@.len() == DEFAULT_CHANNEL_COUNT && r is Err ==> r == Err::<(), Error>(
                Error::Conflict,
            ),
            r is Err ==> final(db).bots == old(db).bots && *final(bot) == *old(bot),
            r is Ok ==> {
                &&& final(bot).default_server == Some(server_id)
                &&& final(bot).server_invite == Some(code)
                &&& final(bot)@ == old(bot)@.applied(workspace_fields(code@, server_id@))
                &&& old(db).has_bot(old(bot).id@) ==> final(db).has_bot(old(bot).id@)
                    && final(db).bot(old(bot).id@)@ == old(db).bot(old(bot).id@)@.applied(
                    workspace_fields(code@, server_id@),
                )
                &&& final(db).server(server_id@).channels@ == channel_ids@
                &&& provisioned(
                    *final(db),
                    server_id@,
                    code@,
                    old(bot).owner@,
                    bot_user.username@,
                    default_permissions,
                    bot_owner.id@,
                    bot_user.id@,
                )
            },
    {
        if channel_ids.len() != DEFAULT_CHANNEL_COUNT {
            return Err(Error::ValidationFailed);
        }
        let names = default_channel_name_list();
        let ghost d0 = *db;
        let ghost n0 = d0.channels@.len();
        let mut i: usize = 0;
        while i < channel_ids.len()
            invariant
                db.wf(),
                d0 == *old(db),
                n0 == d0.channels@.len(),
                *bot == *old(bot),
                names@.len() == DEFAULT_CHANNEL_COUNT,
                channel_ids@.len() == DEFAULT_CHANNEL_COUNT,
                forall|k: int| 0 <= k < names@.len() ==> (#[trigger] names@[k])@
                    == default_channel_names()[k],
                i <= channel_ids@.len(),
                *db == (Database { channels: db.channels, ..d0 }),
                db.channels@.len() == n0 + i,
                forall|k: int| 0 <= k < n0 ==> db.channels@[k] == d0.channels@[k],
                forall|k: int|
                    0 <= k < i ==> {
                        let c = #[trigger] db.channels@[n0 + k];
                        &&& c.id@ == channel_ids@[k]@
                        &&& c.server@ == server_id@
                        &&& c.name@ == names@[k]@
                    },
                forall|a: int| 0 <= a < i ==> !d0.has_channel((#[trigger] channel_ids@[a])@),
                forall|a: int, b: int|
                    0 <= b < a < i ==> (#[trigger] channel_ids@[a])@ != (#[trigger] channel_ids@[b])@,
            decreases channel_ids@.len() - i,
        {
            let channel = Channel {
                id: channel_ids[i].clone(),
                server: server_id.clone(),
                name: names[i].clone(),
            };
            let ghost before = *db;
            let ghost cid = channel_ids@[i as int]@;
            match db.insert_channel(channel) {
                Ok(()) => {},
                Err(e) => {
                    proof {
                        let m = choose|m: int|
                            0 <= m < before.channels@.len() && (#[trigger] before.channels@[m]).id@
                                == cid;
                        if m < n0 {
                            assert(d0.channels@[m] == before.channels@[m]);
                            assert(d0.has_channel(cid));
                        } else {
                            let k = m - n0;
                            assert(before.channels@[n0 + k].id@ == channel_ids@[k]@);
                            assert(channel_ids@[k]@ == channel_ids@[i as int]@);
                            assert(!keys_distinct(channel_ids@));
                        }
                    }
                    return Err(e);
                },
            }
            proof {
                if d0.has_channel(cid) {
                    let m = choose|m: int|
                        0 <= m < d0.channels@.len() && (#[trigger] d0.channels@[m]).id@ == cid;
                    assert(before.channels@[m] == d0.channels@[m]);
                }
                assert forall|b: int| 0 <= b < i implies channel_ids@[i as int]@ != (
                #[trigger] channel_ids@[b])@ by {
                    assert(before.channels@[n0 + b].id@ == channel_ids@[b]@);
                }
            }
            i = i + 1;
        }
        let ghost d1 = *db;
        proof {
            assert forall|a: int, b: int|
                0 <= a < channel_ids@.len() && 0 <= b < channel_ids@.len() && (
                #[trigger] channel_ids@[a])@ == (#[trigger] channel_ids@[b])@ implies a == b by {
                if a < b {
                    assert(channel_ids@[b]@ != channel_ids@[a]@);
                } else if b < a {
                    assert(channel_ids@[a]@ != channel_ids@[b]@);
                }
            }
            assert forall|k: int| 0 <= k < DEFAULT_CHANNEL_COUNT implies {
                let cid = (#[trigger] channel_ids@[k])@;
                &&& d1.has_channel(cid)
                &&& d1.channel(cid).server@ == server_id@
                &&& d1.channel(cid).name@ == default_channel_names()[k]
            } by {
                lemma_channel_lookup(d1, n0 + k);
            }
        }
        let first_channel = channel_ids[0].clone();
        let mut name = bot_user.username.clone();
        name.append("的主页");
        let server = Server {
            id: server_id.clone(),
            owner: bot.owner.clone(),
            name,
            channels: channel_ids,
            default_permissions,
        };
        db.insert_server(server)?;
        let ghost d2 = *db;
        proof {
            lemma_server_lookup(d2, d1.servers@.len() as int);
        }
        db.insert_member(Member { server: server_id.clone(), user: bot_owner.id.clone() })?;
        let ghost d3a = *db;
        let ghost bot_member = Member { server: server_id, user: bot_user.id };
        match db.insert_member(Member { server: server_id.clone(), user: bot_user.id.clone() }) {
            Ok(()) => {},
            Err(e) => {
                proof {
                    if !old(db).has_member(server_id@, bot_user.id@) && bot_owner.id@ != bot_user.id@ {
                        let m = choose|m: int|
                            0 <= m < d3a.members@.len() && (#[trigger] d3a.members@[m]).server@
                                == server_id@ && d3a.members@[m].user@ == bot_user.id@;
                        if m < old(db).members@.len() {
                            assert(old(db).members@[m] == d3a.members@[m]);
                        }
                    }
                }
                return Err(e);
            },
        }
        let ghost d3 = *db;
        proof {
            assert(d3.members@[d3.members@.len() - 1].user@ == bot_user.id@);
            assert(d3.members@[d3.members@.len() - 2].user@ == bot_owner.id@);
            if old(db).has_member(server_id@, bot_user.id@) {
                let m = choose|m: int|
                    0 <= m < old(db).members@.len() && (#[trigger] old(db).members@[m]).server@
                        == server_id@ && old(db).members@[m].user@ == bot_user.id@;
                assert(d3a.members@[m] == old(db).members@[m]);
            }
        }
        let invite = Invite {
            code: code.clone(),
            server: server_id.clone(),
            creator: bot.owner.clone(),
            channel: first_channel,
        };
        db.insert_invite(invite)?;
        let ghost d4 = *db;
        proof {
            lemma_invite_lookup(d4, d3.invites@.len() as int);
        }
        let partial = PartialBot {
            id: None,
            owner: None,
            token: None,
            public: None,
            bot_type: None,
            analytics: None,
            discoverable: None,
            interactions_url: None,
            terms_of_service_url: None,
            privacy_policy_url: None,
            flags: None,
            server_invite: Some(code),
            default_server: Some(server_id),
        };
        let remove: Vec<FieldsBot> = Vec::new();
        let ghost rm = remove@;
        let ghost pv = partial@;
        let r = bot.update(db, partial, remove);
        proof {
            assert(!rm.contains(FieldsBot::Token));
            assert(!rm.contains(FieldsBot::InteractionsURL));
            assert(db.servers == d2.servers);
            assert(db.channels == d1.channels);
            assert(db.invites == d4.invites);
            assert(db.members == d3.members);
            let n = d3.members@.len() as int;
            assert(db.members@[n - 2].server@ == server_id@ && db.members@[n - 2].user@
                == bot_owner.id@);
            assert(db.members@[n - 1].server@ == server_id@ && db.members@[n - 1].user@
                == bot_user.id@);
            assert(db.has_member(server_id@, bot_owner.id@));
            assert(db.has_member(server_id@, bot_user.id@));
        }
        r
    }

    /// Provisions the bot's default workspace under freshly drawn ids: a
    /// sortable id for the server and for each channel, and a random invite
    /// code; see `provision_with_ids` for the steps. Where a drawn id is
    /// already taken, the step fails with `Conflict` and the steps before it
    /// stay in place.
    pub fn prepare_default_channel_for_bot(
        db: &mut Database,
        bot: &mut Bot,
        bot_user: &User,
        bot_owner: &User,
        default_permissions: i64,
    ) -> (r: Result<(), Error>)
        requires
            old(db).wf(),
            old(bot).id@ == bot_user.id@,
        ensures
            final(db).wf(),
            final(db).users == old(db).users,
            r is Err ==> r == Err::<(), Error>(Error::Conflict) && final(db).bots == old(db).bots
                && *final(bot) == *old(bot),
            r is Ok ==> {
                &&& final(bot).server_invite is Some
                &&& final(bot).default_server is Some
                &&& final(bot)@ == old(bot)@.applied(
                    workspace_fields(
                        final(bot).server_invite.unwrap()@,
                        final(bot).default_server.unwrap()@,
                    ),
                )
                &&& old(db).has_bot(old(bot).id@) ==> final(db).has_bot(old(bot).id@)
                    && final(db).bot(old(bot).id@)@ == old(db).bot(old(bot).id@)@.applied(
                    workspace_fields(
                        final(bot).server_invite.unwrap()@,
                        final(bot).default_server.unwrap()@,
                    ),
                )
                &&& provisioned(
                    *final(db),
                    final(bot).default_server.unwrap()@,
                    final(bot).server_invite.unwrap()@,
                    old(bot).owner@,
                    bot_user.username@,
                    default_permissions,
                    bot_owner.id@,
                    bot_user.id@,
                )
            },
    {
        let server_id = new_ulid();
        let mut channel_ids: Vec<String> = Vec::new();
        let mut i: usize = 0;
        while i < DEFAULT_CHANNEL_COUNT
            invariant
                i <= DEFAULT_CHANNEL_COUNT,
                channel_ids@.len() == i,
            decreases DEFAULT_CHANNEL_COUNT - i,
        {
            channel_ids.push(new_ulid());
            i = i + 1;
        }
        let code = random_code(INVITE_CODE_LEN);
        Bot::provision_with_ids(
            db,
            bot,
            bot_user,
            bot_owner,
            default_permissions,
            server_id,
            channel_ids,
            code,
        )
    }
}

} // verus!
