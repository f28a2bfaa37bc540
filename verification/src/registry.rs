//! The users listening on each channel of a server, and who a broadcast on a
//! channel reaches.
use vstd::prelude::*;

use crate::message::ConnectedUser;

verus! {

/// A user listening on `channel_key` through connection `connection`.
#[derive(Debug)]
pub struct Member {
    pub channel_key: String,
    pub user: ConnectedUser,
    pub connection: u64,
}

/// Whether a broadcast on `key` that leaves out the user `exclude` reaches `m`.
pub open spec fn receives(m: Member, key: Seq<char>, exclude: Option<u64>) -> bool {
    &&& m.channel_key@ == key
    &&& exclude != Some(m.user.user_id)
}

/// The connections a broadcast on `key` reaches, in the order their users
/// joined.
pub open spec fn targets(members: Seq<Member>, key: Seq<char>, exclude: Option<u64>) -> Seq<u64>
    decreases members.len(),
{
    if members.len() == 0 {
        Seq::empty()
    } else {
        let rest = targets(members.drop_last(), key, exclude);
        if receives(members.last(), key, exclude) {
            rest.push(members.last().connection)
        } else {
            rest
        }
    }
}

/// The users joined to the channels of a server, in the order they joined.
pub struct ChannelRegistry {
    members: Vec<Member>,
}

impl ChannelRegistry {
    /// Every join so far, oldest first.
    pub closed spec fn joined(&self) -> Seq<Member> {
        self.members@
    }

    /// A registry where nobody has joined.
    pub fn new() -> (r: Self)
        ensures
            r.joined().len() == 0,
    {
        ChannelRegistry { members: Vec::new() }
    }

    /// Registers `user`, reached through `connection`, on `channel_key`.
    pub fn add_user_to_channel(&mut self, channel_key: String, user: ConnectedUser, connection: u64)
        ensures
            final(self).joined() == old(self).joined().push(
                Member { channel_key, user, connection },
            ),
    {
        self.members.push(Member { channel_key, user, connection });
    }

    /// The number of joins so far.
    pub fn len(&self) -> (n: usize)
        ensures
            n == self.joined().len(),
    {
        self.members.len()
    }

    /// The connections a message broadcast on `channel_key` is sent to: those
    /// joined to that channel, except the user `exclude`, in join order.
    pub fn broadcast_targets(&self, channel_key: &String, exclude: Option<u64>) -> (r: Vec<u64>)
        ensures
            r@ == targets(self.joined(), channel_key@, exclude),
    {
        let mut r: Vec<u64> = Vec::new();
        let mut i: usize = 0;
        while i < self.members.len()
            invariant
                i <= self.members@.len(),
                r@ == targets(self.members@.take(i as int), channel_key@, exclude),
            decreases self.members@.len() - i,
        {
            let m = &self.members[i];
            assert(self.members@.take(i + 1).drop_last() =~= self.members@.take(i as int));
            let skip = match exclude {
                Some(u) => u == m.user.user_id,
                None => false,
            };
            if !skip && m.channel_key == *channel_key {
                r.push(m.connection);
            }
            i = i + 1;
        }
        assert(self.members@.take(self.members@.len() as int) =~= self.members@);
        r
    }
}

/// A broadcast reaches a connection exactly when some join put it on the
/// channel under a user who is not left out.
pub proof fn lemma_targets_are_the_joined(
    members: Seq<Member>,
    key: Seq<char>,
    exclude: Option<u64>,
    c: u64,
)
    ensures
        targets(members, key, exclude).contains(c) <==> exists|i: int|
            0 <= i < members.len() && receives(#[trigger] members[i], key, exclude)
                && members[i].connection == c,
    decreases members.len(),
{
    if members.len() > 0 {
        let init = members.drop_last();
        let last = members.last();
        let t = targets(init, key, exclude);
        lemma_targets_are_the_joined(init, key, exclude, c);
        vstd::seq_lib::lemma_seq_contains_after_push(t, last.connection, c);
        assert forall|i: int| 0 <= i < init.len() implies members[i] == #[trigger] init[i] by {}
        if exists|i: int|
            0 <= i < members.len() && receives(#[trigger] members[i], key, exclude)
                && members[i].connection == c {
            let i = choose|i: int|
                0 <= i < members.len() && receives(#[trigger] members[i], key, exclude)
                    && members[i].connection == c;
            if i < init.len() {
                assert(receives(init[i], key, exclude));
            }
        }
        if receives(last, key, exclude) && last.connection == c {
            assert(receives(members[members.len() - 1], key, exclude));
        }
    }
}

/// A join on one channel changes nothing for broadcasts on another channel.
pub proof fn lemma_join_leaves_other_channels(
    members: Seq<Member>,
    joined: Member,
    key: Seq<char>,
    exclude: Option<u64>,
)
    requires
        joined.channel_key@ != key,
    ensures
        targets(members.push(joined), key, exclude) == targets(members, key, exclude),
{
    assert(members.push(joined).drop_last() =~= members);
}

/// The connection of a join is reached by every later broadcast on its
/// channel that does not leave its user out.
pub proof fn lemma_join_is_reached(
    members: Seq<Member>,
    joined: Member,
    exclude: Option<u64>,
)
    requires
        exclude != Some(joined.user.user_id),
    ensures
        targets(members.push(joined), joined.channel_key@, exclude) == targets(
            members,
            joined.channel_key@,
            exclude,
        ).push(joined.connection),
{
    assert(members.push(joined).drop_last() =~= members);
}

} // verus!
