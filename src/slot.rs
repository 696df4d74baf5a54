//! A slot holding at most one installed event handler.
use vstd::prelude::*;

verus! {

/// One callback slot: at most one handler is installed at a time.
pub struct Slot<H> {
    handler: Option<H>,
}

impl<H> View for Slot<H> {
    type V = Option<H>;

    closed spec fn view(&self) -> Option<H> {
        self.handler
    }
}

impl<H> Slot<H> {
    /// An empty slot.
    pub fn new() -> (r: Self)
        ensures
            r@ == None::<H>,
    {
        Slot { handler: None }
    }

    /// Installs `handler`, handing back the handler it replaces so that the
    /// caller retires it.
    pub fn install(&mut self, handler: H) -> (retired: Option<H>)
        ensures
            final(self)@ == Some(handler),
            final(self)@ == slot_step(old(self)@, SlotOp::Install(handler)),
            retired == old(self)@,
    {
        let retired = self.handler.take();
        self.handler = Some(handler);
        retired
    }

    /// Removes the installed handler, if any, and hands it back.
    pub fn remove(&mut self) -> (retired: Option<H>)
        ensures
            final(self)@ == None::<H>,
            final(self)@ == slot_step(old(self)@, SlotOp::<H>::Remove),
            retired == old(self)@,
    {
        self.handler.take()
    }

    /// The installed handler, borrowed for one delivery.
    pub fn load(&self) -> (r: Option<&H>)
        ensures
            r.is_some() == self@.is_some(),
            r.is_some() ==> *r.unwrap() == self@.unwrap(),
    {
        match &self.handler {
            Some(h) => Some(h),
            None => None,
        }
    }

    /// Whether a handler is installed.
    pub fn is_installed(&self) -> (r: bool)
        ensures
            r == self@.is_some(),
    {
        self.handler.is_some()
    }

    /// Empties the slot, handing back the handler it held.
    pub fn into_handler(self) -> (r: Option<H>)
        ensures
            r == self@,
    {
        self.handler
    }
}

/// One atomic step on a slot: the host installs or removes a handler, or the
/// native side loads the slot to deliver one event.
pub enum SlotOp<H> {
    Install(H),
    Remove,
    Deliver,
}

/// Whether a step replaces what the slot holds.
pub open spec fn replaces<H>(op: SlotOp<H>) -> bool {
    !(op is Deliver)
}

/// The slot after one step.
pub open spec fn slot_step<H>(slot: Option<H>, op: SlotOp<H>) -> Option<H> {
    match op {
        SlotOp::Install(h) => Some(h),
        SlotOp::Remove => None,
        SlotOp::Deliver => slot,
    }
}

/// The slot after a sequence of steps, taken in order.
pub open spec fn slot_after<H>(slot: Option<H>, ops: Seq<SlotOp<H>>) -> Option<H>
    decreases ops.len(),
{
    if ops.len() == 0 {
        slot
    } else {
        slot_step(slot_after(slot, ops.drop_last()), ops.last())
    }
}

/// The handler that the delivery at step `i` reaches: what the slot holds
/// after the steps before it.
pub open spec fn recipient<H>(slot: Option<H>, ops: Seq<SlotOp<H>>, i: int) -> Option<H> {
    slot_after(slot, ops.take(i))
}

/// After a replacing step at index `j`, the slot holds what that step put in
/// it for as long as no later step replaces it.
proof fn lemma_slot_after_last_replacement<H>(slot: Option<H>, ops: Seq<SlotOp<H>>, j: int)
    requires
        0 <= j < ops.len(),
        replaces(ops[j]),
        forall|k: int| j < k < ops.len() ==> !replaces(#[trigger] ops[k]),
    ensures
        slot_after(slot, ops) == slot_step(None::<H>, ops[j]),
    decreases ops.len(),
{
    if j == ops.len() - 1 {
        match ops.last() {
            SlotOp::Install(_) => {},
            SlotOp::Remove => {},
            SlotOp::Deliver => {},
        }
    } else {
        let front = ops.drop_last();
        assert forall|k: int| j < k < front.len() implies !replaces(#[trigger] front[k]) by {
            assert(front[k] == ops[k]);
        }
        lemma_slot_after_last_replacement(slot, front, j);
        assert(!replaces(ops[ops.len() - 1]));
    }
}

/// Installing a handler fully replaces the previous one: after `h1` and then
/// `h2` are installed, the slot holds `h2`, and every later delivery reaches
/// `h2` until the slot is replaced again.
pub proof fn law_install_replaces<H>(slot: Option<H>, h1: H, h2: H, ops: Seq<SlotOp<H>>)
    requires
        ops.len() >= 2,
        ops[0] == SlotOp::Install(h1),
        ops[1] == SlotOp::Install(h2),
        forall|k: int| 2 <= k < ops.len() ==> !replaces(#[trigger] ops[k]),
    ensures
        slot_step(slot_step(slot, SlotOp::Install(h1)), SlotOp::Install(h2)) == Some(h2),
        forall|i: int| 2 <= i < ops.len() ==> #[trigger] recipient(slot, ops, i) == Some(h2),
{
    assert forall|i: int| 2 <= i < ops.len() implies #[trigger] recipient(slot, ops, i) == Some(
        h2,
    ) by {
        let pre = ops.take(i);
        assert(pre[1] == SlotOp::Install(h2));
        assert forall|k: int| 1 < k < pre.len() implies !replaces(#[trigger] pre[k]) by {
            assert(pre[k] == ops[k]);
        }
        lemma_slot_after_last_replacement(slot, pre, 1);
    }
}

/// No stale delivery: when host installs and removals interleave with native
/// deliveries, each step atomic, a delivery reaches exactly the handler put in
/// by the last replacing step before it, never one that step retired.
pub proof fn law_no_stale_delivery<H>(slot: Option<H>, ops: Seq<SlotOp<H>>, j: int, i: int)
    requires
        0 <= j < i < ops.len(),
        replaces(ops[j]),
        ops[i] is Deliver,
        forall|k: int| j < k < i ==> !replaces(#[trigger] ops[k]),
    ensures
        recipient(slot, ops, i) == slot_step(None::<H>, ops[j]),
        ops[j] is Install ==> recipient(slot, ops, i) == Some(ops[j]->Install_0),
        ops[j] is Remove ==> recipient(slot, ops, i) is None,
{
    let pre = ops.take(i);
    assert forall|k: int| j < k < pre.len() implies !replaces(#[trigger] pre[k]) by {
        assert(pre[k] == ops[k]);
    }
    lemma_slot_after_last_replacement(slot, pre, j);
}

} // verus!
