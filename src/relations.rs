//! Relationships between users, as one user's list of entries.

use vstd::prelude::*;

verus! {

/// A user's relationship with another user (or themselves).
#[derive(Clone, Copy, Debug, PartialEq, Eq, Structural)]
pub enum RelationshipStatus {
    /// No relationship.
    NoRelationship,
    /// The other user is this user.
    User,
    Friend,
    /// Friend request sent.
    Outgoing,
    /// Friend request received.
    Incoming,
    /// This user blocked the other.
    Blocked,
    /// The other user blocked this one.
    BlockedOther,
}

/// One entry of a user's relationships.
#[derive(Clone, Debug, PartialEq, Eq)]
pub struct Relationship {
    /// Id of the other user.
    pub user_id: String,
    pub status: RelationshipStatus,
}

/// The status that the first entry naming `user` gives, else no relationship.
pub open spec fn status_with(entries: Seq<Relationship>, user: Seq<char>) -> RelationshipStatus
    decreases entries.len(),
{
    if entries.len() == 0 {
        RelationshipStatus::NoRelationship
    } else if entries[0].user_id@ == user {
        entries[0].status
    } else {
        status_with(entries.drop_first(), user)
    }
}

/// Looks up the relationship with a given user.
pub trait CheckRelationship {
    spec fn spec_with(&self, user: Seq<char>) -> RelationshipStatus;

    fn with(&self, user: &str) -> (r: RelationshipStatus)
        ensures
            r == self.spec_with(user@),
    ;
}

impl CheckRelationship for Vec<Relationship> {
    open spec fn spec_with(&self, user: Seq<char>) -> RelationshipStatus {
        status_with(self@, user)
    }

    fn with(&self, user: &str) -> (r: RelationshipStatus) {
        let target = user.to_owned();
        let mut i: usize = 0;
        assert(self@.subrange(0, self@.len() as int) =~= self@);
        while i < self.len()
            invariant
                i <= self@.len(),
                target@ == user@,
                status_with(self@, user@) == status_with(self@.subrange(i as int, self@.len() as int), user@),
            decreases self@.len() - i,
        {
            let ghost rest = self@.subrange(i as int, self@.len() as int);
            if self[i].user_id == target {
                return self[i].status;
            }
            assert(rest.drop_first() =~= self@.subrange(i + 1, self@.len() as int));
            i = i + 1;
        }
        RelationshipStatus::NoRelationship
    }
}

} // verus!
