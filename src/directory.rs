//! Listings of bots for the public directory and for searches by type, each
//! bot paired with its bot user.

use vstd::prelude::*;
use crate::model::{Bot, BotType, User};
use crate::store::{listed, of_type, select_bots, Database};

verus! {

/// Query of a bot search.
#[derive(Clone, Debug, PartialEq, Eq)]
pub struct ParamSearchBot {
    /// Wire name of the bot type searched for.
    pub bot_type: Option<String>,
}

/// Bots with their bot users: `users[k]` is the user of `bots[k]`.
#[derive(Clone, Debug, PartialEq, Eq)]
pub struct OwnedBotsResponse {
    pub bots: Vec<Bot>,
    pub users: Vec<User>,
}

/// The response lists exactly the given bots, each with its user.
pub open spec fn pairs_up(db: Database, r: OwnedBotsResponse, bots: Seq<Bot>) -> bool {
    &&& r.bots@ == bots
    &&& r.users@.len() == bots.len()
    &&& forall|k: int|
        0 <= k < bots.len() ==> #[trigger] r.users@[k] == db.user(bots[k].id@)
}

/// Pairs each bot with its bot user.
pub fn with_users(db: &Database, bots: Vec<Bot>) -> (r: OwnedBotsResponse)
    requires
        db.wf(),
        forall|k: int| 0 <= k < bots@.len() ==> db.has_user((#[trigger] bots@[k]).id@),
    ensures
        pairs_up(*db, r, bots@),
{
    let mut users: Vec<User> = Vec::new();
    let mut k: usize = 0;
    while k < bots.len()
        invariant
            db.wf(),
            forall|m: int| 0 <= m < bots@.len() ==> db.has_user((#[trigger] bots@[m]).id@),
            k <= bots@.len(),
            users@.len() == k,
            forall|m: int| 0 <= m < k ==> #[trigger] users@[m] == db.user(bots@[m].id@),
        decreases bots@.len() - k,
    {
        match db.fetch_user(&bots[k].id) {
            Ok(u) => {
                users.push(u);
            },
            Err(_) => {},
        }
        k = k + 1;
    }
    OwnedBotsResponse { bots, users }
}

/// Every bot selected from a paired store has a user.
proof fn lemma_selected_are_paired(db: Database, f: spec_fn(Bot) -> bool, n: int)
    requires
        db.wf(),
        0 <= n <= db.bots@.len(),
    ensures
        forall|k: int|
            0 <= k < select_bots(db.bots@.take(n), f).len() ==> db.has_user(
                (#[trigger] select_bots(db.bots@.take(n), f)[k]).id@,
            ),
    decreases n,
{
    if n > 0 {
        lemma_selected_are_paired(db, f, n - 1);
        crate::store::lemma_select_step(db.bots@, n - 1, f);
        assert(db.has_user(db.bots@[n - 1].id@));
    }
}

/// The public or discoverable bots, each with its bot user.
pub fn fetch_discoverable_bots(db: &Database) -> (r: OwnedBotsResponse)
    requires
        db.wf(),
    ensures
        pairs_up(*db, r, select_bots(db.bots@, listed())),
{
    let bots = db.fetch_discoverable_bots();
    proof {
        lemma_selected_are_paired(*db, listed(), db.bots@.len() as int);
        assert(db.bots@.take(db.bots@.len() as int) =~= db.bots@);
    }
    with_users(db, bots)
}

/// The bots of the searched type, each with its bot user; nothing where no
/// type or an unknown type is given.
pub fn search_bots(db: &Database, options: ParamSearchBot) -> (r: OwnedBotsResponse)
    requires
        db.wf(),
    ensures
        options.bot_type matches Some(t) && t@ == BotType::CustomBot.spec_name() ==> pairs_up(
            *db,
            r,
            select_bots(db.bots@, of_type(BotType::CustomBot)),
        ),
        options.bot_type matches Some(t) && t@ == BotType::PromptBot.spec_name() ==> pairs_up(
            *db,
            r,
            select_bots(db.bots@, of_type(BotType::PromptBot)),
        ),
        !(options.bot_type matches Some(t) && (t@ == BotType::CustomBot.spec_name() || t@
            == BotType::PromptBot.spec_name())) ==> r.bots@.len() == 0 && r.users@.len() == 0,
{
    let empty = OwnedBotsResponse { bots: Vec::new(), users: Vec::new() };
    match options.bot_type {
        Some(name) => match BotType::from_value(name.as_str()) {
            Ok(t) => {
                let bots = db.search_bots_by_type(t);
                proof {
                    lemma_selected_are_paired(*db, of_type(t), db.bots@.len() as int);
                    assert(db.bots@.take(db.bots@.len() as int) =~= db.bots@);
                }
                with_users(db, bots)
            },
            Err(_) => empty,
        },
        None => empty,
    }
}

} // verus!
