//! The Caucus: a channel of communication between a set of actors,
//! whose gated operations (join, send, receive) each consult a
//! [`Guard`] before anything happens.

use vstd::prelude::*;
use vstd::std_specs::cmp::PartialEqSpec;
use crate::access_control::{AccessDenied, Guard};
use core::marker::PhantomData;

verus! {

/// Caucus operations, used for access control.
#[derive(Clone, Copy, Debug, PartialEq, Eq, Structural)]
pub enum Operation {
    /// Joining a caucus.
    Join,
    /// Sending to a caucus.
    Send,
    /// Receiving from a caucus.
    Receive,
}

/// `members` with the first entry equal to `target` (by the actor
/// type's `eq_spec`) taken out; `members` unchanged when no entry
/// matches.
pub open spec fn remove_first_match<A: PartialEq>(members: Seq<A>, target: A) -> Seq<A>
    decreases members.len(),
{
    if members.len() == 0 {
        members
    } else if members[0].eq_spec(&target) {
        members.drop_first()
    } else {
        seq![members[0]] + remove_first_match(members.drop_first(), target)
    }
}

/// A channel of communication between the actors in the caucus.
///
/// Each gated operation first consults the corresponding guard with a
/// read-only snapshot of the membership; only on approval does the
/// caucus mutate or act.  The three guards are always present: a
/// caucus with an open operation holds an always-approving guard in
/// that slot, never none.
///
/// Type Parameters:
///
/// * `A`: The type of actor participating in the caucus.
/// * `M`: The type of messages exchanged over the caucus.
/// * `J`: The guard controlling who can join.
/// * `S`: The guard controlling who can send.
/// * `R`: The guard controlling who will receive.
pub struct Caucus<A, M, J, S, R> {
    /// Control who can join the caucus.
    pub join_guard: J,
    /// Control who can send to the caucus.
    pub send_guard: S,
    /// Control who will receive messages from the caucus.
    pub receive_guard: R,
    /// Actors in the caucus, in join order; joining twice makes two
    /// entries, as nothing deduplicates the membership.
    pub actors: Vec<A>,
    /// Marks the message type the caucus carries; no message is stored.
    pub message: PhantomData<M>,
}

impl<A: PartialEq, M, J, S, R> Caucus<A, M, J, S, R> where
    J: Guard<A, Operation, Vec<A>>,
    S: Guard<A, Operation, Vec<A>>,
    R: Guard<A, Operation, Vec<A>>,
{
    /// Whether the join guard admits `actor` to join, given the current
    /// membership.
    pub open spec fn join_approves(self, actor: A) -> bool {
        self.join_guard.approves(actor, Operation::Join, self.actors@)
    }

    /// Whether the send guard admits `sender` to broadcast, given the
    /// current membership.
    pub open spec fn send_approves(self, sender: A) -> bool {
        self.send_guard.approves(sender, Operation::Send, self.actors@)
    }

    /// Whether the receive guard lets `member` receive, given the
    /// current membership.
    pub open spec fn receive_approves(self, member: A) -> bool {
        self.receive_guard.approves(member, Operation::Receive, self.actors@)
    }

    /// The membership after an attempted join of `actor`: appended on
    /// approval, unchanged on denial.
    pub open spec fn membership_after_add(self, actor: A) -> Seq<A> {
        if self.join_approves(actor) {
            self.actors@.push(actor)
        } else {
            self.actors@
        }
    }

    /// The receive guard's policy on the current membership, as a
    /// predicate on one actor.
    pub open spec fn receive_policy(self) -> spec_fn(A) -> bool {
        |a: A| self.receive_approves(a)
    }

    /// The members the receive guard admits, in membership order: the
    /// set a delivery collaborator owes a broadcast message to.
    pub open spec fn recipient_seq(self) -> Seq<A> {
        self.actors@.filter(self.receive_policy())
    }

    /// Construct a caucus from its three guards and an initial
    /// membership.
    pub fn new(join_guard: J, send_guard: S, receive_guard: R, actors: Vec<A>) -> (c: Self)
        ensures
            c.join_guard == join_guard,
            c.send_guard == send_guard,
            c.receive_guard == receive_guard,
            c.actors == actors,
    {
        Caucus { join_guard, send_guard, receive_guard, actors, message: PhantomData }
    }

    /// Add an actor to the caucus.
    ///
    /// The join guard is consulted first; on approval the actor is
    /// appended to the membership, on denial the membership is left
    /// unchanged and the denial is surfaced.  Prior membership is not
    /// checked: an actor the guard approves twice stands in the
    /// membership twice.
    pub fn add_actor(&mut self, actor: A) -> (r: Result<(), AccessDenied>)
        ensures
            old(self).join_guard.decides() ==> (r is Ok <==> old(self).join_approves(actor)),
            old(self).join_guard.decides() ==> final(self).actors@ == old(
                self,
            ).membership_after_add(actor),
            r is Ok ==> final(self).actors@ == old(self).actors@.push(actor),
            r is Err ==> final(self).actors@ == old(self).actors@,
            final(self).join_guard == old(self).join_guard,
            final(self).send_guard == old(self).send_guard,
            final(self).receive_guard == old(self).receive_guard,
    {
        match self.join_guard.attempt(&actor, Operation::Join, &self.actors) {
            Ok(()) => {
                self.actors.push(actor);
                Ok(())
            },
            Err(denied) => Err(denied),
        }
    }

    /// Remove an actor from the caucus.
    ///
    /// The first membership entry equal to `actor` is removed; absence
    /// of a match is a no-op, not an error.  No guard is consulted:
    /// leaving is always permitted, and the result is always success.
    /// The `Result` signature stands for future extension only.
    pub fn remove_actor(&mut self, actor: &A) -> (r: Result<(), AccessDenied>)
        ensures
            r is Ok,
            A::obeys_eq_spec() ==> final(self).actors@ == remove_first_match(
                old(self).actors@,
                *actor,
            ),
            final(self).actors@ == old(self).actors@ || exists|j: int|
                0 <= j < old(self).actors@.len() && final(self).actors@ == old(
                    self,
                ).actors@.remove(j),
            final(self).join_guard == old(self).join_guard,
            final(self).send_guard == old(self).send_guard,
            final(self).receive_guard == old(self).receive_guard,
    {
        let n = self.actors.len();
        let mut i: usize = 0;
        while i < n
            invariant
                i <= n,
                n == self.actors@.len(),
                self.actors@ == old(self).actors@,
                self.join_guard == old(self).join_guard,
                self.send_guard == old(self).send_guard,
                self.receive_guard == old(self).receive_guard,
                A::obeys_eq_spec() ==> forall|j: int|
                    0 <= j < i ==> !self.actors@[j].eq_spec(actor),
            decreases n - i,
        {
            if self.actors[i] == *actor {
                self.actors.remove(i);
                proof {
                    if A::obeys_eq_spec() {
                        lemma_remove_first_match_hit(old(self).actors@, *actor, i as int);
                    }
                }
                return Ok(());
            }
            i += 1;
        }
        proof {
            if A::obeys_eq_spec() {
                lemma_remove_first_match_miss(old(self).actors@, *actor);
            }
        }
        Ok(())
    }

    /// Broadcast a message to the actors in the caucus.
    ///
    /// The send guard alone gates the broadcast: on its denial the
    /// denial is returned and nothing is delivered; on its approval the
    /// message is owed to exactly the members in [`recipients`], each
    /// admitted individually by the receive guard.  A member the
    /// receive guard turns away simply does not receive; that never
    /// fails the broadcast.  Actual delivery is the embedder's external
    /// collaborator, not this caucus.
    ///
    /// [`recipients`]: Caucus::recipients
    pub fn broadcast(&self, sender: &A, _message: &M) -> (r: Result<(), AccessDenied>)
        ensures
            self.send_guard.decides() ==> (r is Ok <==> self.send_approves(*sender)),
    {
        self.send_guard.attempt(sender, Operation::Send, &self.actors)
    }

    /// The members the receive guard admits, in membership order.
    ///
    /// A delivery collaborator hands a broadcast message to exactly
    /// these members.
    pub fn recipients(&self) -> (v: Vec<&A>)
        ensures
            self.receive_guard.decides() ==> deref_seq(v@) == self.recipient_seq(),
            v@.len() <= self.actors@.len(),
            forall|k: int|
                0 <= k < v@.len() ==> self.actors@.contains(#[trigger] deref_seq(v@)[k]),
    {
        let mut v: Vec<&A> = Vec::new();
        let n = self.actors.len();
        let mut i: usize = 0;
        while i < n
            invariant
                i <= n,
                n == self.actors@.len(),
                v@.len() <= i,
                forall|k: int|
                    0 <= k < v@.len() ==> self.actors@.contains(#[trigger] deref_seq(v@)[k]),
                self.receive_guard.decides() ==> deref_seq(v@) == self.actors@.subrange(
                    0,
                    i as int,
                ).filter(self.receive_policy()),
            decreases n - i,
        {
            let ghost pred = self.receive_policy();
            let ghost prefix = self.actors@.subrange(0, i as int);
            let ghost mapped = deref_seq(v@);
            let member = &self.actors[i];
            let admitted = match self.receive_guard.attempt(member, Operation::Receive, &self.actors) {
                Ok(()) => true,
                Err(_) => false,
            };
            if admitted {
                v.push(member);
            }
            proof {
                if admitted {
                    assert(deref_seq(v@) =~= mapped.push(*member));
                    assert(self.actors@[i as int] == *member);
                }
            }
            i += 1;
            proof {
                assert(self.actors@.subrange(0, i as int) =~= prefix + seq![*member]);
                Seq::filter_distributes_over_add(prefix, seq![*member], pred);
                reveal_with_fuel(Seq::filter, 2);
                if self.receive_guard.decides() {
                    if pred(*member) {
                        assert(seq![*member].filter(pred) =~= seq![*member]);
                    } else {
                        assert(seq![*member].filter(pred) =~= Seq::<A>::empty());
                        assert(prefix.filter(pred) + Seq::<A>::empty() =~= prefix.filter(pred));
                    }
                }
            }
        }
        proof {
            assert(self.actors@.subrange(0, n as int) =~= self.actors@);
        }
        v
    }

    /// Law: with a join guard that approves every actor on every
    /// membership, an attempted join of any actor is approved and
    /// appends exactly that actor — the membership grows by one entry
    /// and the new last entry equals the actor.
    pub proof fn lemma_open_join_appends(self, actor: A)
        requires
            forall|a: A, members: Seq<A>|
                self.join_guard.approves(a, Operation::Join, members),
        ensures
            self.join_approves(actor),
            self.membership_after_add(actor) == self.actors@.push(actor),
            self.membership_after_add(actor).len() == self.actors@.len() + 1,
            self.membership_after_add(actor).last() == actor,
    {
    }

    /// Law: with a join guard that denies every actor on every
    /// membership, an attempted join of any actor is denied and the
    /// membership is unchanged, in length and contents.
    pub proof fn lemma_closed_join_changes_nothing(self, actor: A)
        requires
            forall|a: A, members: Seq<A>|
                !self.join_guard.approves(a, Operation::Join, members),
        ensures
            !self.join_approves(actor),
            self.membership_after_add(actor) == self.actors@,
    {
    }

    /// Law: denial is idempotent.  Against an always-denying join
    /// guard a join attempt is denied and changes nothing, and a
    /// second attempt from the state the first one left behind is
    /// denied again and changes nothing either.
    pub proof fn lemma_denied_join_idempotent(self, after_first: Self, actor: A)
        requires
            forall|a: A, members: Seq<A>|
                !self.join_guard.approves(a, Operation::Join, members),
            after_first.actors@ == self.membership_after_add(actor),
            after_first.join_guard == self.join_guard,
        ensures
            !self.join_approves(actor),
            after_first.actors@ == self.actors@,
            !after_first.join_approves(actor),
            after_first.membership_after_add(actor) == self.actors@,
    {
    }

    /// Law: repeated joins are not deduplicated.  Against an
    /// always-approving join guard two join attempts of the same actor
    /// both succeed, and the membership ends two entries longer with
    /// that actor in both new places.
    pub proof fn lemma_duplicate_join_appends_twice(self, after_first: Self, actor: A)
        requires
            forall|a: A, members: Seq<A>|
                self.join_guard.approves(a, Operation::Join, members),
            after_first.actors@ == self.membership_after_add(actor),
            after_first.join_guard == self.join_guard,
        ensures
            self.join_approves(actor),
            after_first.join_approves(actor),
            after_first.membership_after_add(actor) == self.actors@.push(actor).push(actor),
            after_first.membership_after_add(actor).len() == self.actors@.len() + 2,
            after_first.membership_after_add(actor)[self.actors@.len() as int] == actor,
            after_first.membership_after_add(actor)[self.actors@.len() as int + 1] == actor,
    {
    }

    /// Law: with a send guard that denies every actor on every
    /// membership, a broadcast from any sender is denied, whatever the
    /// membership holds — and the message never enters the decision.
    pub proof fn lemma_closed_send_blocks_broadcast(self, sender: A)
        requires
            forall|a: A, members: Seq<A>|
                !self.send_guard.approves(a, Operation::Send, members),
        ensures
            !self.send_approves(sender),
    {
    }

    /// Law: a broadcast is gated on the sender alone.  With a send
    /// guard that approves every actor, any sender's broadcast is
    /// approved whatever the receive guard denies; a member the
    /// receive guard turns away is merely missing from the recipients.
    pub proof fn lemma_receive_denial_never_blocks(self, sender: A, member: A)
        requires
            forall|a: A, members: Seq<A>|
                self.send_guard.approves(a, Operation::Send, members),
            !self.receive_approves(member),
        ensures
            self.send_approves(sender),
            !self.recipient_seq().contains(member),
    {
        if self.recipient_seq().contains(member) {
            let i = choose|i: int|
                0 <= i < self.recipient_seq().len() && self.recipient_seq()[i] == member;
            self.actors@.lemma_filter_pred(self.receive_policy(), i);
        }
    }
}

/// A sequence of references, element for element as the values they
/// refer to.
pub open spec fn deref_seq<A>(s: Seq<&A>) -> Seq<A> {
    s.map_values(|a: &A| *a)
}

/// When the first entry of `members` matching `target` stands at index
/// `i`, removing the first match is removing the entry at `i`: every
/// earlier entry keeps its place and every later entry moves left by
/// one, so a later duplicate of `target` remains.
pub proof fn lemma_remove_first_match_hit<A: PartialEq>(members: Seq<A>, target: A, i: int)
    requires
        0 <= i < members.len(),
        members[i].eq_spec(&target),
        forall|j: int| 0 <= j < i ==> !members[j].eq_spec(&target),
    ensures
        remove_first_match(members, target) == members.remove(i),
        remove_first_match(members, target).len() == members.len() - 1,
        forall|j: int| 0 <= j < i ==> remove_first_match(members, target)[j] == members[j],
        forall|j: int|
            i < j < members.len() ==> remove_first_match(members, target)[j - 1] == members[j],
    decreases i,
{
    if i == 0 {
        assert(members.drop_first() =~= members.remove(0));
    } else {
        lemma_remove_first_match_hit(members.drop_first(), target, i - 1);
        assert(seq![members[0]] + members.drop_first().remove(i - 1) =~= members.remove(i));
    }
}

/// When no entry of `members` matches `target`, removing the first
/// match changes nothing.
pub proof fn lemma_remove_first_match_miss<A: PartialEq>(members: Seq<A>, target: A)
    requires
        forall|j: int| 0 <= j < members.len() ==> !members[j].eq_spec(&target),
    ensures
        remove_first_match(members, target) == members,
    decreases members.len(),
{
    if members.len() > 0 {
        lemma_remove_first_match_miss(members.drop_first(), target);
        assert(seq![members[0]] + members.drop_first() =~= members);
    }
}

} // verus!
