//! The per-order state machine.
//!
//! An order is `Open` from its creation until the first of cancel or
//! exchange completes; the two terminal states have no outgoing
//! transitions, so over any admissible history an order settles at most
//! once.

use vstd::prelude::*;

verus! {

/// The lifecycle state of an order record. `Open` is entered only by
/// create; it is left exactly once, by whichever of cancel and exchange
/// is admitted first.
#[derive(Clone, Copy, Debug, PartialEq, Eq, Structural)]
pub enum OrderState {
    Open,
    Cancelled,
    Exchanged,
}

/// A state with no outgoing transition.
pub open spec fn is_settled(s: OrderState) -> bool {
    s != OrderState::Open
}

/// The only transitions the protocol performs: an open order is closed by
/// cancel or by exchange.
pub open spec fn order_step(pre: OrderState, post: OrderState) -> bool {
    pre == OrderState::Open && is_settled(post)
}

/// One observation step of an order's history: the state either stays put
/// (the operation had no effect, or nothing ran) or makes a protocol
/// transition.
pub open spec fn order_evolves(pre: OrderState, post: OrderState) -> bool {
    pre == post || order_step(pre, post)
}

/// An admissible history of one order: consecutive states are related by
/// `order_evolves`.
pub open spec fn wf_history(h: Seq<OrderState>) -> bool {
    forall|i: int| #![trigger h[i]] 0 <= i < h.len() - 1 ==> order_evolves(h[i], h[i + 1])
}

/// The index `i` records a settlement: the order was open just before it
/// and settled at it.
pub open spec fn settles_at(h: Seq<OrderState>, i: int) -> bool {
    &&& 0 < i < h.len()
    &&& h[i - 1] == OrderState::Open
    &&& is_settled(h[i])
}

/// A settled state persists: once an order is cancelled or exchanged, every
/// later state of an admissible history is the same terminal state.
pub proof fn lemma_settled_persists(h: Seq<OrderState>, i: int, j: int)
    requires
        wf_history(h),
        0 <= i <= j < h.len(),
        is_settled(h[i]),
    ensures
        h[j] == h[i],
    decreases j - i,
{
    if i < j {
        lemma_settled_persists(h, i, j - 1);
        assert(order_evolves(h[j - 1], h[j]));
    }
}

/// Single settlement: along any admissible history, an order is settled at
/// most once — there are no two distinct settlement points, so exactly one
/// of cancelled or exchanged can ever occur for an order.
pub proof fn lemma_single_settlement(h: Seq<OrderState>, i: int, j: int)
    requires
        wf_history(h),
        settles_at(h, i),
        settles_at(h, j),
    ensures
        i == j,
{
    if i < j {
        lemma_settled_persists(h, i, j - 1);
        assert(h[j - 1] == h[i]);
    } else if j < i {
        lemma_settled_persists(h, j, i - 1);
        assert(h[i - 1] == h[j]);
    }
}

} // verus!
