//! Scheduled timeouts and the order in which a scheduler's queue holds them.

use std::cmp::Ordering;
use vstd::laws_cmp::obeys_cmp;
use vstd::laws_eq::obeys_concrete_eq;
use vstd::prelude::*;
use vstd::std_specs::cmp::OrdSpec;

verus! {

/// A scheduled timeout: the deadline, counted in ticks of the scheduler's
/// clock, and the token of the action to run when it is reached.
///
/// Two records are equal when both fields are.
#[derive(Debug, PartialEq, Eq)]
pub struct TimeoutRequest<T>(pub u64, pub T);

/// The opposite of an ordering: `Less` and `Greater` change places.
pub open spec fn reversed(o: Ordering) -> Ordering {
    match o {
        Ordering::Less => Ordering::Greater,
        Ordering::Equal => Ordering::Equal,
        Ordering::Greater => Ordering::Less,
    }
}

impl<T: Ord> TimeoutRequest<T> {
    /// The natural order: by deadline, the earlier one smaller; on equal
    /// deadlines by the tokens' own order.
    pub open spec fn natural_order(&self, other: &Self) -> Ordering {
        if self.0 < other.0 {
            Ordering::Less
        } else if self.0 > other.0 {
            Ordering::Greater
        } else {
            self.1.cmp_spec(&other.1)
        }
    }

    /// The published order: the natural order reversed, so that a queue which
    /// hands out its greatest element hands out the earliest deadline.
    pub open spec fn published_order(&self, other: &Self) -> Ordering {
        reversed(self.natural_order(other))
    }

    /// The earlier deadline is the greater record, whatever the tokens are.
    pub proof fn lemma_earlier_is_greater(a: Self, b: Self)
        requires
            a.0 < b.0,
        ensures
            a.published_order(&b) == Ordering::Greater,
            b.published_order(&a) == Ordering::Less,
    {
    }

    /// On equal deadlines the tokens alone decide, in their own order
    /// reversed.
    pub proof fn lemma_tie_decided_by_tokens(a: Self, b: Self)
        requires
            a.0 == b.0,
        ensures
            a.published_order(&b) == reversed(a.1.cmp_spec(&b.1)),
    {
    }

    /// Where the tokens' order is a total order that agrees with their
    /// equality, two records compare as equal only if they are equal: records
    /// that share a deadline and differ in their tokens are never equal in
    /// the published order.
    pub proof fn lemma_equal_only_if_same(a: Self, b: Self)
        requires
            obeys_cmp::<T>(),
            obeys_concrete_eq::<T>(),
        ensures
            a.published_order(&b) == Ordering::Equal <==> a == b,
    {
        reveal(obeys_concrete_eq);
        reveal(vstd::laws_cmp::obeys_cmp_ord);
        reveal(vstd::laws_cmp::obeys_cmp_partial_ord);
    }

    /// Where the tokens' order is a total order, turning two records round
    /// turns the result round.
    pub proof fn lemma_order_is_dual(a: Self, b: Self)
        requires
            obeys_cmp::<T>(),
        ensures
            a.published_order(&b) == reversed(b.published_order(&a)),
    {
        reveal(vstd::laws_cmp::obeys_cmp_ord);
        reveal(vstd::laws_cmp::obeys_partial_cmp_spec_properties);
        reveal(vstd::laws_eq::obeys_eq_spec_properties);
    }

    /// Where the tokens' order is a total order, the published order is
    /// transitive.
    pub proof fn lemma_order_is_transitive(a: Self, b: Self, c: Self)
        requires
            obeys_cmp::<T>(),
            a.published_order(&b) == Ordering::Less,
            b.published_order(&c) == Ordering::Less,
        ensures
            a.published_order(&c) == Ordering::Less,
    {
        reveal(vstd::laws_cmp::obeys_cmp_ord);
        reveal(vstd::laws_cmp::obeys_partial_cmp_spec_properties);
    }

    /// Compares two records in the published order.
    ///
    /// Records with different deadlines are decided by the deadlines alone.
    /// On equal deadlines the tokens decide, in their own order reversed,
    /// wherever the tokens' `cmp` is known to return what `cmp_spec` says.
    pub fn cmp(&self, other: &Self) -> (r: Ordering)
        ensures
            self.0 < other.0 ==> r == Ordering::Greater,
            self.0 > other.0 ==> r == Ordering::Less,
            T::obeys_cmp_spec() ==> r == self.published_order(other),
    {
        if self.0 < other.0 {
            Ordering::Greater
        } else if self.0 > other.0 {
            Ordering::Less
        } else {
            match self.1.cmp(&other.1) {
                Ordering::Less => Ordering::Greater,
                Ordering::Equal => Ordering::Equal,
                Ordering::Greater => Ordering::Less,
            }
        }
    }

    /// Compares two records in the published order, which is total: the
    /// result is never `None`.
    pub fn partial_cmp(&self, other: &Self) -> (r: Option<Ordering>)
        ensures
            r.is_some(),
            self.0 < other.0 ==> r == Some(Ordering::Greater),
            self.0 > other.0 ==> r == Some(Ordering::Less),
            T::obeys_cmp_spec() ==> r == Some(self.published_order(other)),
    {
        Some(self.cmp(other))
    }
}

} // verus!
