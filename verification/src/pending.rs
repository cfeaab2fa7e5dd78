//! In-flight call state: a table of delivery slots keyed by opaque handles.
//!
//! Each asynchronous bridge invocation opens one pending call. The slot's
//! handle is the opaque numeric context given to the foreign side; the
//! completion resolves the slot at most once, a caller consumes it at most
//! once, and a slot that has left its waiting state never waits again. The
//! table stands in for raw ownership transfer of the sending half of a
//! single-slot channel: an unknown or already-resolved handle is rejected
//! instead of being reinterpreted.

use vstd::prelude::*;
use vstd::utf8::{decode_utf8, encode_utf8, valid_utf8};
use crate::decode::{decode_payload, error_sentinel, payload_text};

verus! {

/// The lifecycle of one pending call's delivery slot.
pub enum Slot {
    /// The caller is suspended; the sending half belongs to the foreign side.
    Waiting,
    /// The completion fired once; its payload awaits the caller.
    Delivered(Vec<u8>),
    /// The sending half was dropped without a delivery.
    Closed,
    /// The caller has consumed the outcome; the handle is dead.
    Spent,
}

/// Opening a call appends one waiting slot; the fresh handle is the old
/// table length.
pub open spec fn open_spec(slots: Seq<Slot>) -> (Seq<Slot>, int) {
    (slots.push(Slot::Waiting), slots.len() as int)
}

/// A handle whose slot still waits for its completion.
pub open spec fn slot_waiting(slots: Seq<Slot>, h: int) -> bool {
    0 <= h < slots.len() && slots[h] is Waiting
}

/// The completion's effect: a waiting slot receives the payload; any other
/// handle leaves the table untouched.
pub open spec fn deliver_spec(slots: Seq<Slot>, h: int, payload: Vec<u8>) -> Seq<Slot> {
    if slot_waiting(slots, h) {
        slots.update(h, Slot::Delivered(payload))
    } else {
        slots
    }
}

/// Dropping the sending half without a delivery: a waiting slot closes; any
/// other handle leaves the table untouched.
pub open spec fn close_spec(slots: Seq<Slot>, h: int) -> Seq<Slot> {
    if slot_waiting(slots, h) {
        slots.update(h, Slot::Closed)
    } else {
        slots
    }
}

/// A handle whose call has resolved and whose outcome is still unconsumed.
pub open spec fn finish_ready(slots: Seq<Slot>, h: int) -> bool {
    0 <= h < slots.len() && (slots[h] is Delivered || slots[h] is Closed)
}

/// The text a resolved slot yields: the payload's text for a delivery, the
/// empty text for a closed channel.
pub open spec fn outcome_text(slot: Slot) -> Seq<char> {
    match slot {
        Slot::Delivered(payload) => payload_text(payload@),
        _ => Seq::<char>::empty(),
    }
}

/// Consuming a call's outcome: a resolved slot yields its text and is
/// spent; an unresolved or dead handle yields nothing and changes nothing.
pub open spec fn finish_spec(slots: Seq<Slot>, h: int) -> (Seq<Slot>, Option<Seq<char>>) {
    if finish_ready(slots, h) {
        (slots.update(h, Slot::Spent), Some(outcome_text(slots[h])))
    } else {
        (slots, None)
    }
}

/// The table of pending calls, keyed by the opaque handles it issued.
pub struct HandleTable {
    slots: Vec<Slot>,
}

impl View for HandleTable {
    type V = Seq<Slot>;

    closed spec fn view(&self) -> Seq<Slot> {
        self.slots@
    }
}

impl HandleTable {
    /// A table with no calls in flight.
    pub fn new() -> (t: Self)
        ensures
            t@ =~= Seq::<Slot>::empty(),
    {
        HandleTable { slots: Vec::new() }
    }

    /// How many handles the table has ever issued.
    pub fn issued(&self) -> (n: usize)
        ensures
            n == self@.len(),
    {
        self.slots.len()
    }

    /// Open a pending call: issue a fresh handle whose slot waits for its
    /// completion.
    pub fn open_call(&mut self) -> (h: usize)
        ensures
            h == old(self)@.len(),
            final(self)@ == open_spec(old(self)@).0,
            slot_waiting(final(self)@, h as int),
    {
        let h = self.slots.len();
        self.slots.push(Slot::Waiting);
        h
    }

    /// The completion's entry: deliver the payload into the slot of `h` if
    /// it still waits. A handle that is unknown or already resolved is
    /// rejected, and no slot changes: a completion may fire at most once
    /// per handle, and a second firing must not corrupt any call's state.
    pub fn deliver(&mut self, h: usize, payload: Vec<u8>) -> (accepted: bool)
        ensures
            accepted == slot_waiting(old(self)@, h as int),
            final(self)@ == deliver_spec(old(self)@, h as int, payload),
    {
        if h < self.slots.len() {
            let waiting = match &self.slots[h] {
                Slot::Waiting => true,
                _ => false,
            };
            if waiting {
                self.slots.set(h, Slot::Delivered(payload));
                return true;
            }
        }
        false
    }

    /// Drop the sending half of `h` without a delivery: the waiting caller
    /// will resolve to the empty text. Any other handle is rejected.
    pub fn close_call(&mut self, h: usize) -> (closed: bool)
        ensures
            closed == slot_waiting(old(self)@, h as int),
            final(self)@ == close_spec(old(self)@, h as int),
    {
        if h < self.slots.len() {
            let waiting = match &self.slots[h] {
                Slot::Waiting => true,
                _ => false,
            };
            if waiting {
                self.slots.set(h, Slot::Closed);
                return true;
            }
        }
        false
    }

    /// The waiting side's step: consume the outcome of `h` if its call has
    /// resolved. A call still waiting yields `None` and changes nothing, so
    /// a caller whose completion never fires is never falsely resolved; a
    /// consumed outcome cannot be read twice.
    pub fn try_finish(&mut self, h: usize) -> (r: Option<String>)
        ensures
            r is Some <==> finish_ready(old(self)@, h as int),
            final(self)@ == finish_spec(old(self)@, h as int).0,
            r is Some ==> r.unwrap()@ == finish_spec(old(self)@, h as int).1.unwrap(),
    {
        if h >= self.slots.len() {
            return None;
        }
        let ready = match &self.slots[h] {
            Slot::Delivered(_) => true,
            Slot::Closed => true,
            _ => false,
        };
        if !ready {
            return None;
        }
        let mut taken = Slot::Spent;
        let slot = vstd::std_specs::vec::vec_index_mut(&mut self.slots, h);
        core::mem::swap(slot, &mut taken);
        match taken {
            Slot::Delivered(payload) => Some(decode_payload(payload)),
            _ => Some(String::new()),
        }
    }
}

/// A pending call whose completion never fires never resolves: consuming a
/// waiting slot yields nothing and leaves every slot as it was.
pub proof fn lemma_no_false_resolution(slots: Seq<Slot>, h: int)
    requires
        slot_waiting(slots, h),
    ensures
        finish_spec(slots, h).1 is None,
        finish_spec(slots, h).0 == slots,
{
}

/// A completion that fires a second time for the same handle is rejected:
/// the repeated delivery changes no slot, and the slot keeps its first
/// payload.
pub proof fn lemma_second_delivery_rejected(slots: Seq<Slot>, h: int, p1: Vec<u8>, p2: Vec<u8>)
    requires
        slot_waiting(slots, h),
    ensures
        !slot_waiting(deliver_spec(slots, h, p1), h),
        deliver_spec(deliver_spec(slots, h, p1), h, p2) == deliver_spec(slots, h, p1),
        deliver_spec(slots, h, p1)[h] == Slot::Delivered(p1),
{
}

/// Pending calls are isolated: after two distinct waiting handles each
/// receive their own delivery, each resolves to the text of its own
/// payload, never the other's.
pub proof fn lemma_deliveries_isolated(slots: Seq<Slot>, h1: int, h2: int, p1: Vec<u8>, p2: Vec<u8>)
    requires
        h1 != h2,
        slot_waiting(slots, h1),
        slot_waiting(slots, h2),
    ensures
        finish_spec(deliver_spec(deliver_spec(slots, h1, p1), h2, p2), h1).1
            == Some(payload_text(p1@)),
        finish_spec(deliver_spec(deliver_spec(slots, h1, p1), h2, p2), h2).1
            == Some(payload_text(p2@)),
{
}

/// A call whose completion fires exactly once with payload `p` resolves to
/// exactly the text of `p`: its decoded characters where `p` is valid
/// UTF-8, the error sentinel where it is not.
pub proof fn lemma_call_round_trip(slots: Seq<Slot>, p: Vec<u8>)
    ensures
        ({
            let (opened, h) = open_spec(slots);
            let resolved = finish_spec(deliver_spec(opened, h, p), h).1;
            &&& resolved == Some(payload_text(p@))
            &&& valid_utf8(p@) ==> resolved == Some(decode_utf8(p@))
            &&& !valid_utf8(p@) ==> resolved == Some(error_sentinel())
        }),
{
}

/// A call whose sending half is dropped without a delivery resolves to the
/// empty text.
pub proof fn lemma_closed_call_resolves_empty(slots: Seq<Slot>, h: int)
    requires
        slot_waiting(slots, h),
    ensures
        finish_spec(close_spec(slots, h), h).1 == Some(Seq::<char>::empty()),
{
}

/// A slot that has left its waiting state never waits again: no table
/// operation revives a dead handle, so the sending half that a waiting
/// slot stands for is reclaimed at most once.
pub proof fn lemma_no_revival(slots: Seq<Slot>, h: int, k: int, payload: Vec<u8>)
    requires
        0 <= k < slots.len(),
        !(slots[k] is Waiting),
    ensures
        !(open_spec(slots).0[k] is Waiting),
        !(deliver_spec(slots, h, payload)[k] is Waiting),
        !(close_spec(slots, h)[k] is Waiting),
        !(finish_spec(slots, h).0[k] is Waiting),
{
}

/// A resolved outcome is consumed exactly once: finishing a handle that has
/// already yielded its text yields nothing more.
pub proof fn lemma_outcome_consumed_once(slots: Seq<Slot>, h: int)
    requires
        finish_ready(slots, h),
    ensures
        finish_spec(finish_spec(slots, h).0, h).1 is None,
{
}

/// A foreign stub that echoes the parameter's encoded bytes back through
/// its completion resolves the call to exactly the parameter text, the
/// empty and the non-ASCII parameter included.
pub proof fn lemma_echo_round_trip(slots: Seq<Slot>, params: Seq<char>, echoed: Vec<u8>)
    requires
        echoed@ == encode_utf8(params),
    ensures
        ({
            let (opened, h) = open_spec(slots);
            finish_spec(deliver_spec(opened, h, echoed), h).1 == Some(params)
        }),
{
    crate::decode::lemma_echoed_parameter_text(params);
}

} // verus!

