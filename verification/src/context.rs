use vstd::prelude::*;

verus! {

/// The least value, in the smallest unit of the host's token, that pays for
/// storing a new profile or a new group: one hundredth of a whole token.
pub const MIN_STORAGE_DEPOSIT: u128 = 10_000_000_000_000_000_000_000;

/// What the host says of one call: who makes it, what value comes with it,
/// and what time it is.
#[derive(Debug, PartialEq, Eq)]
pub struct CallContext {
    /// The account that makes the call.
    pub caller: String,
    /// The value attached to the call, in the smallest unit.
    pub attached_value: u128,
    /// The host's time.
    pub now: u64,
}

/// A call's context as plain values.
pub struct ContextView {
    pub caller: Seq<char>,
    pub attached_value: nat,
    pub now: nat,
}

impl View for CallContext {
    type V = ContextView;

    open spec fn view(&self) -> ContextView {
        ContextView {
            caller: self.caller@,
            attached_value: self.attached_value as nat,
            now: self.now as nat,
        }
    }
}

} // verus!
