//! Laws of the urgency order, of equality and of the textual names.

use core::cmp::Ordering;
use crate::{name_of, urgency, Priority};
use vstd::std_specs::cmp::PartialOrdSpec;
use vstd::prelude::*;

verus! {

/// Any two priorities compare, and they compare as their urgency levels do:
/// one is less than another exactly when it is less urgent, greater exactly
/// when it is more urgent, and equal exactly when it is the same priority.
pub proof fn lemma_order_follows_urgency(a: Priority, b: Priority)
    ensures
        a.partial_cmp_spec(&b) is Some,
        a.partial_cmp_spec(&b) == Some(Ordering::Less) <==> urgency(a) < urgency(b),
        a.partial_cmp_spec(&b) == Some(Ordering::Greater) <==> urgency(a) > urgency(b),
        a.partial_cmp_spec(&b) == Some(Ordering::Equal) <==> a == b,
{
}

/// The order is antisymmetric: `a < b` exactly when `b > a`, and `a <= b`
/// together with `b <= a` holds only when `a == b`.
pub proof fn lemma_order_antisymmetric(a: Priority, b: Priority)
    ensures
        a.partial_cmp_spec(&b) == Some(Ordering::Less) <==> b.partial_cmp_spec(&a) == Some(
            Ordering::Greater,
        ),
        (a.partial_cmp_spec(&b) != Some(Ordering::Greater) && b.partial_cmp_spec(&a) != Some(
            Ordering::Greater,
        )) ==> a == b,
{
}

/// The order is transitive, strictly and not strictly.
pub proof fn lemma_order_transitive(a: Priority, b: Priority, c: Priority)
    ensures
        (a.partial_cmp_spec(&b) == Some(Ordering::Less) && b.partial_cmp_spec(&c) == Some(
            Ordering::Less,
        )) ==> a.partial_cmp_spec(&c) == Some(Ordering::Less),
        (a.partial_cmp_spec(&b) != Some(Ordering::Greater) && b.partial_cmp_spec(&c) != Some(
            Ordering::Greater,
        )) ==> a.partial_cmp_spec(&c) != Some(Ordering::Greater),
{
}

/// Equality of priorities is reflexive, symmetric and transitive. A copy of
/// a priority is the same value, so reflexivity makes it equal to the original.
pub proof fn lemma_equality_is_equivalence(a: Priority, b: Priority, c: Priority)
    ensures
        a == a,
        a == b ==> b == a,
        (a == b && b == c) ==> a == c,
{
}

/// Distinct priorities have distinct names, so the textual rendering is a
/// bijection between the variants and their names.
pub proof fn lemma_names_distinct(a: Priority, b: Priority)
    ensures
        name_of(a) == name_of(b) <==> a == b,
{
    reveal_strlit("Unknown");
    reveal_strlit("Background");
    reveal_strlit("Utility");
    reveal_strlit("UserInitiated");
    reveal_strlit("UserInteractive");
    if name_of(a) == name_of(b) {
        assert(name_of(a).len() == name_of(b).len());
        assert(name_of(a)[1] == name_of(b)[1]);
    }
}

} // verus!
