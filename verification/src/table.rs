//! The exchange table: a fixed-capacity vector of exchange contexts.
//!
//! The vector is `heapless::Vec`. What it holds is named by
//! [`exchange_slots`]; the functions of this module that touch the vector
//! have contracts that Verus takes on trust.

use vstd::prelude::*;
use crate::exchange::ExchangeCtx;
use crate::packet::MAX_EXCHANGES;

verus! {

/// `heapless::Vec`, of which Verus knows the name and nothing else.
#[verifier::external_type_specification]
#[verifier::external_body]
#[verifier::reject_recursive_types(T)]
pub struct ExHeaplessVec<T, const N: usize>(heapless::Vec<T, N>);

/// The exchange contexts that the table holds, in the order of their indices.
pub uninterp spec fn exchange_slots(table: heapless::Vec<ExchangeCtx, MAX_EXCHANGES>) -> Seq<ExchangeCtx>;

/// The sequence `s` after the item at `index` left it and the last item took
/// its place.
pub open spec fn swap_removed(s: Seq<ExchangeCtx>, index: int) -> Seq<ExchangeCtx> {
    s.update(index, s.last()).drop_last()
}

/// `heapless::Vec::new`: the new vector holds nothing.
#[verifier::external_body]
pub(crate) fn table_new() -> (table: heapless::Vec<ExchangeCtx, MAX_EXCHANGES>)
    ensures
        exchange_slots(table) == Seq::<ExchangeCtx>::empty(),
{
    heapless::Vec::new()
}

/// `heapless::Vec::as_slice`: the slice holds the items of the vector, in
/// their order.
#[verifier::external_body]
pub(crate) fn table_as_slice(table: &heapless::Vec<ExchangeCtx, MAX_EXCHANGES>) -> (slice: &[ExchangeCtx])
    ensures
        slice@ == exchange_slots(*table),
{
    table.as_slice()
}

/// `heapless::Vec::push`: below its capacity the vector takes the item at its
/// end; at its capacity it hands the item back and stays as it is.
#[verifier::external_body]
pub(crate) fn table_push(
    table: &mut heapless::Vec<ExchangeCtx, MAX_EXCHANGES>,
    ctx: ExchangeCtx,
) -> (res: Result<(), ExchangeCtx>)
    ensures
        exchange_slots(*old(table)).len() < MAX_EXCHANGES ==> res is Ok
            && exchange_slots(*final(table)) == exchange_slots(*old(table)).push(ctx),
        exchange_slots(*old(table)).len() >= MAX_EXCHANGES ==> (res matches Err(back) && back == ctx)
            && exchange_slots(*final(table)) == exchange_slots(*old(table)),
{
    table.push(ctx)
}

/// `heapless::Vec::swap_remove`: the item at `index` leaves and is handed
/// back; the last item takes its place. The call panics on an index outside
/// the vector, which the precondition excludes.
#[verifier::external_body]
pub(crate) fn table_swap_remove(
    table: &mut heapless::Vec<ExchangeCtx, MAX_EXCHANGES>,
    index: usize,
) -> (removed: ExchangeCtx)
    requires
        index < exchange_slots(*old(table)).len(),
    ensures
        removed == exchange_slots(*old(table))[index as int],
        exchange_slots(*final(table)) == swap_removed(exchange_slots(*old(table)), index as int),
{
    table.swap_remove(index)
}

/// Index assignment on `heapless::Vec`, which goes through its `deref_mut`
/// to the slice of its items: the item at `index` is replaced and the others
/// stay. Indexing panics outside the vector, which the precondition
/// excludes.
#[verifier::external_body]
pub(crate) fn table_set(table: &mut heapless::Vec<ExchangeCtx, MAX_EXCHANGES>, index: usize, ctx: ExchangeCtx)
    requires
        index < exchange_slots(*old(table)).len(),
    ensures
        exchange_slots(*final(table)) == exchange_slots(*old(table)).update(index as int, ctx),
{
    table[index] = ctx;
}

/// `heapless::Vec::clear`: the vector holds nothing afterwards.
#[verifier::external_body]
pub(crate) fn table_clear(table: &mut heapless::Vec<ExchangeCtx, MAX_EXCHANGES>)
    ensures
        exchange_slots(*final(table)) == Seq::<ExchangeCtx>::empty(),
{
    table.clear();
}

} // verus!
