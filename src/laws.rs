//! Properties that hold across the operations of the library.

use vstd::prelude::*;
use crate::store::Database;

verus! {

/// Every bot that a well-formed store holds is paired with a user of the same
/// id; every operation of the library keeps the store well-formed, so this
/// holds from creation until the bot is deleted.
pub proof fn bot_is_paired_with_user(db: Database, id: Seq<char>)
    requires
        db.wf(),
        db.has_bot(id),
    ensures
        db.has_user(id),
        db.user(id).id@ == db.bot(id).id@,
        db.bot(id).id@ == id,
{
    let i = choose|i: int| 0 <= i < db.bots@.len() && (#[trigger] db.bots@[i]).id@ == id;
    assert(db.has_user(db.bots@[i].id@));
}

} // verus!
