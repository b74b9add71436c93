//! The room: the registry of live sessions and the peer lookup used for
//! fan-out. Sessions are known to the room by their address, a plain id.
use vstd::prelude::*;

verus! {

/// The address of a session, used only for routing and equality.
pub type SessionId = u64;

/// Holds of every session but `me`.
pub open spec fn not_me(me: SessionId) -> spec_fn(SessionId) -> bool {
    |u: SessionId| u != me
}

/// The registered sessions other than `me`, in registration order.
pub open spec fn others(users: Seq<SessionId>, me: SessionId) -> Seq<SessionId> {
    users.filter(not_me(me))
}

/// The registry of live sessions. Duplicate registrations are kept as they
/// come; removal drops every entry of an address.
pub struct Room {
    users: Vec<SessionId>,
}

impl View for Room {
    type V = Seq<SessionId>;

    closed spec fn view(&self) -> Seq<SessionId> {
        self.users@
    }
}

impl Room {
    /// An empty room.
    pub fn new() -> (r: Self)
        ensures
            r@ == Seq::<SessionId>::empty(),
    {
        Room { users: Vec::new() }
    }

    /// Registers `user`; it becomes a fan-out target for every other session.
    pub fn add_user(&mut self, user: SessionId)
        ensures
            final(self)@ == old(self)@.push(user),
    {
        self.users.push(user);
    }

    /// Deregisters every entry of `user`; nothing changes if it is absent.
    pub fn remove_user(&mut self, user: SessionId)
        ensures
            final(self)@ == others(old(self)@, user),
            !final(self)@.contains(user),
    {
        let kept = self.get_peers(user);
        self.users = kept;
    }

    /// A snapshot of the registered sessions other than `user`.
    pub fn get_peers(&self, user: SessionId) -> (r: Vec<SessionId>)
        ensures
            r@ == others(self@, user),
            !r@.contains(user),
    {
        let mut r: Vec<SessionId> = Vec::new();
        let mut i: usize = 0;
        while i < self.users.len()
            invariant
                i <= self.users@.len(),
                r@ == others(self.users@.subrange(0, i as int), user),
            decreases self.users@.len() - i,
        {
            proof {
                let s = self.users@.subrange(0, i as int + 1);
                assert(s.drop_last() =~= self.users@.subrange(0, i as int));
                assert(s.last() == self.users@[i as int]);
                reveal_with_fuel(Seq::filter, 1);
            }
            if self.users[i] != user {
                r.push(self.users[i]);
            }
            i = i + 1;
        }
        proof {
            assert(self.users@.subrange(0, i as int) =~= self.users@);
            lemma_others_excludes(self@, user);
        }
        r
    }
}

/// `others(users, me)` never holds `me`.
pub proof fn lemma_others_excludes(users: Seq<SessionId>, me: SessionId)
    ensures
        !others(users, me).contains(me),
{
    broadcast use vstd::seq_lib::group_filter_ensures;

    if others(users, me).contains(me) {
        let i = choose|i: int| 0 <= i < others(users, me).len() && others(users, me)[i] == me;
        assert(others(users, me)[i] != me);
    }
}

/// One registry operation, as `Room::add_user` and `Room::remove_user`
/// perform it.
pub enum RoomOp {
    Add(SessionId),
    Remove(SessionId),
}

/// The registry after `op`.
pub open spec fn apply_op(users: Seq<SessionId>, op: RoomOp) -> Seq<SessionId> {
    match op {
        RoomOp::Add(u) => users.push(u),
        RoomOp::Remove(u) => others(users, u),
    }
}

/// The registry after each of `ops` in turn.
pub open spec fn apply_ops(users: Seq<SessionId>, ops: Seq<RoomOp>) -> Seq<SessionId>
    decreases ops.len(),
{
    if ops.len() == 0 {
        users
    } else {
        apply_ops(apply_op(users, ops[0]), ops.drop_first())
    }
}

/// A registry without `s` stays without it through operations that do not
/// add `s`.
proof fn lemma_absent_stays_absent(users: Seq<SessionId>, s: SessionId, ops: Seq<RoomOp>)
    requires
        !users.contains(s),
        forall|i: int| 0 <= i < ops.len() ==> ops[i] != RoomOp::Add(s),
    ensures
        !apply_ops(users, ops).contains(s),
    decreases ops.len(),
{
    broadcast use vstd::seq_lib::group_filter_ensures;

    if ops.len() > 0 {
        let next = apply_op(users, ops[0]);
        match ops[0] {
            RoomOp::Add(u) => {
                assert(u != s);
                if next.contains(s) {
                    let j = choose|j: int| 0 <= j < next.len() && next[j] == s;
                    assert(users[j] == s);
                }
            },
            RoomOp::Remove(u) => {
                if next.contains(s) {
                    users.lemma_filter_contains_rev(not_me(u), s);
                }
            },
        }
        assert forall|i: int| 0 <= i < ops.drop_first().len() implies ops.drop_first()[i]
            != RoomOp::Add(s) by {
            assert(ops.drop_first()[i] == ops[i + 1]);
        }
        lemma_absent_stays_absent(next, s, ops.drop_first());
    }
}

/// Once `s` has been removed, no peer lookup returns it until it is added
/// again: after `remove_user(s)` and any operations that do not add `s`,
/// the peers of every session leave `s` out.
pub proof fn lemma_removed_stays_out(
    users: Seq<SessionId>,
    s: SessionId,
    ops: Seq<RoomOp>,
    t: SessionId,
)
    requires
        forall|i: int| 0 <= i < ops.len() ==> ops[i] != RoomOp::Add(s),
    ensures
        !others(apply_ops(others(users, s), ops), t).contains(s),
{
    broadcast use vstd::seq_lib::group_filter_ensures;

    lemma_others_excludes(users, s);
    lemma_absent_stays_absent(others(users, s), s, ops);
    let after = apply_ops(others(users, s), ops);
    if others(after, t).contains(s) {
        after.lemma_filter_contains_rev(not_me(t), s);
    }
}

} // verus!
