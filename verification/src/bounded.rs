//! Fixed-capacity event lists (`heapless::Vec` with room for four items).
use vstd::prelude::*;

use crate::haptic::profile::HapticEvt;
use crate::hmi::button::ButtonEvent;

verus! {

#[verifier::external_type_specification]
#[verifier::external_body]
#[verifier::reject_recursive_types(T)]
pub struct ExHeaplessVec<T, const N: usize>(heapless::Vec<T, N>);

/// The button events held, in order, by a four-slot list.
pub uninterp spec fn button_events(v: heapless::Vec<ButtonEvent, 4>) -> Seq<ButtonEvent>;

/// The haptic events held, in order, by a four-slot list.
pub uninterp spec fn haptic_events(v: heapless::Vec<HapticEvt, 4>) -> Seq<HapticEvt>;

/// `heapless::Vec::new` for button events: an empty list.
#[verifier::external_body]
pub(crate) fn new_event_list() -> (v: heapless::Vec<ButtonEvent, 4>)
    ensures
        button_events(v) == Seq::<ButtonEvent>::empty(),
{
    heapless::Vec::new()
}

/// `heapless::Vec::push` for button events: appends while fewer than 4 items
/// are held, and otherwise hands the item back and leaves the list as it was.
#[verifier::external_body]
pub(crate) fn push_event(v: &mut heapless::Vec<ButtonEvent, 4>, e: ButtonEvent) -> (r: Result<(), ButtonEvent>)
    ensures
        button_events(*old(v)).len() < 4 ==> r is Ok && button_events(*final(v)) == button_events(
            *old(v),
        ).push(e),
        button_events(*old(v)).len() >= 4 ==> (r matches Err(x) && x == e) && button_events(
            *final(v),
        ) == button_events(*old(v)),
{
    v.push(e)
}

/// `heapless::Vec::as_slice` for button events: the items held, in order.
#[verifier::external_body]
pub(crate) fn button_event_slice(v: &heapless::Vec<ButtonEvent, 4>) -> (s: &[ButtonEvent])
    ensures
        s@ == button_events(*v),
{
    v.as_slice()
}

/// `heapless::Vec::new` for haptic events: an empty list.
#[verifier::external_body]
pub(crate) fn new_haptic_list() -> (v: heapless::Vec<HapticEvt, 4>)
    ensures
        haptic_events(v) == Seq::<HapticEvt>::empty(),
{
    heapless::Vec::new()
}

/// `heapless::Vec::push` for haptic events: appends while fewer than 4 items
/// are held, and otherwise hands the item back and leaves the list as it was.
#[verifier::external_body]
pub(crate) fn push_haptic(v: &mut heapless::Vec<HapticEvt, 4>, e: HapticEvt) -> (r: Result<(), HapticEvt>)
    ensures
        haptic_events(*old(v)).len() < 4 ==> r is Ok && haptic_events(*final(v)) == haptic_events(
            *old(v),
        ).push(e),
        haptic_events(*old(v)).len() >= 4 ==> (r matches Err(x) && x == e) && haptic_events(
            *final(v),
        ) == haptic_events(*old(v)),
{
    v.push(e)
}

} // verus!
