use ordermap::OrderSet;
use vstd::prelude::*;

verus! {

/// The insertion-ordered set of `ordermap`, declared so that it can stand in
/// fields; what it holds is known only through the functions below.
#[verifier::external_type_specification]
#[verifier::external_body]
#[verifier::reject_recursive_types(T)]
#[verifier::reject_recursive_types(S)]
pub struct ExOrderSet<T, S>(OrderSet<T, S>);

/// The members of an ordered set, in insertion order.
pub uninterp spec fn order_set_items(s: OrderSet<usize>) -> Seq<usize>;

/// Holds of every value but `v`.
pub open spec fn other_than(v: usize) -> spec_fn(usize) -> bool {
    |x: usize| x != v
}

/// Relies on `ordermap::OrderSet::new`: a new set is empty.
#[verifier::external_body]
pub(crate) fn order_set_new() -> (r: OrderSet<usize>)
    ensures
        order_set_items(r) == Seq::<usize>::empty(),
{
    OrderSet::new()
}

/// Relies on `ordermap::OrderSet::insert`: a value already present is left
/// where it is and `false` comes back; otherwise the value goes last and
/// `true` comes back.
#[verifier::external_body]
pub(crate) fn order_set_insert(s: &mut OrderSet<usize>, value: usize) -> (r: bool)
    ensures
        r == !order_set_items(*old(s)).contains(value),
        order_set_items(*final(s)) == if r {
            order_set_items(*old(s)).push(value)
        } else {
            order_set_items(*old(s))
        },
{
    s.insert(value)
}

/// Relies on `ordermap::OrderSet::remove`, which shifts the later members
/// down and so keeps their relative order; it returns whether the value was
/// present.
#[verifier::external_body]
pub(crate) fn order_set_remove(s: &mut OrderSet<usize>, value: usize) -> (r: bool)
    ensures
        r == order_set_items(*old(s)).contains(value),
        order_set_items(*final(s)) == order_set_items(*old(s)).filter(other_than(value)),
{
    s.remove(&value)
}

/// Relies on `ordermap::OrderSet::iter`, which yields the members in their
/// order.
#[verifier::external_body]
pub(crate) fn order_set_to_vec(s: &OrderSet<usize>) -> (r: Vec<usize>)
    ensures
        r@ == order_set_items(*s),
{
    s.iter().copied().collect()
}

} // verus!
