//! The access-control contract: a [`Guard`] is a capability object that
//! decides whether a given actor may perform a given operation on a
//! given subject, together with a few ready-made policies.

use vstd::prelude::*;
use vstd::std_specs::cmp::PartialEqSpec;

verus! {

/// The single error of the gated operations: a consulted guard refused.
///
/// It carries no further payload; an embedder that wants a richer
/// denial reason wraps this error at its own boundary.
#[derive(Clone, Copy, Debug, PartialEq, Eq, Structural)]
pub struct AccessDenied;

/// A policy object bound to one (actor type `A`, operation type `O`,
/// subject type `S`) triple.
///
/// The guard answers "may `actor` perform `op` on this subject?" from a
/// read-only snapshot of the subject, and must not mutate the subject.
/// Its policy is the spec function [`approves`](Guard::approves): a
/// deterministic predicate over the actor, the operation and the
/// subject's mathematical view, so a decision depends on nothing but
/// that triple.
pub trait Guard<A, O, S: View> {
    /// The guard's policy: whether `actor` is admitted to perform `op`
    /// on a subject whose snapshot is `subject`.
    spec fn approves(&self, actor: A, op: O, subject: <S as View>::V) -> bool;

    /// Whether [`attempt`](Guard::attempt) is known to return exactly
    /// what [`approves`](Guard::approves) says.
    ///
    /// A guard with fixed behaviour promises this unconditionally.  A
    /// guard that compares actors of a generic type can promise it only
    /// when that type's `==` obeys its specification
    /// (`obeys_eq_spec`), as a derived `PartialEq` gives the verifier
    /// nothing to hold the comparison to.
    spec fn decides(&self) -> bool;

    /// Ask the guard for a decision on `actor` performing `op`.
    ///
    /// Returns `Ok(())` on approval and `Err(AccessDenied)` on denial;
    /// wherever the guard decides, the outcome is exactly what the
    /// policy [`approves`](Guard::approves) says of the snapshot.
    fn attempt(&self, actor: &A, op: O, subject: &S) -> (r: Result<(), AccessDenied>)
        ensures
            self.decides() ==> (r is Ok <==> self.approves(*actor, op, subject@)),
    ;
}

/// The policy with no restriction: it approves every actor for every
/// operation on every subject.
///
/// An open operation is expressed by this guard, never by an absent
/// one: every gated operation always consults a guard.
#[derive(Clone, Copy, Debug)]
pub struct ApproveAll;

impl<A, O, S: View> Guard<A, O, S> for ApproveAll {
    open spec fn approves(&self, actor: A, op: O, subject: <S as View>::V) -> bool {
        true
    }

    open spec fn decides(&self) -> bool {
        true
    }

    fn attempt(&self, actor: &A, op: O, subject: &S) -> (r: Result<(), AccessDenied>) {
        Ok(())
    }
}

/// The closed policy: it denies every actor for every operation on
/// every subject.
#[derive(Clone, Copy, Debug)]
pub struct DenyAll;

impl<A, O, S: View> Guard<A, O, S> for DenyAll {
    open spec fn approves(&self, actor: A, op: O, subject: <S as View>::V) -> bool {
        false
    }

    open spec fn decides(&self) -> bool {
        true
    }

    fn attempt(&self, actor: &A, op: O, subject: &S) -> (r: Result<(), AccessDenied>) {
        Err(AccessDenied)
    }
}

/// A block-list of one: it denies exactly the actor it names, by the
/// actor type's equality, and approves everyone else.
#[derive(Debug)]
pub struct Exclude<A> {
    /// The one actor this guard turns away.
    pub banned: A,
}

impl<A: PartialEq, O, S: View> Guard<A, O, S> for Exclude<A> {
    open spec fn approves(&self, actor: A, op: O, subject: <S as View>::V) -> bool {
        !actor.eq_spec(&self.banned)
    }

    open spec fn decides(&self) -> bool {
        A::obeys_eq_spec()
    }

    fn attempt(&self, actor: &A, op: O, subject: &S) -> (r: Result<(), AccessDenied>) {
        if *actor == self.banned {
            Err(AccessDenied)
        } else {
            Ok(())
        }
    }
}

} // verus!
