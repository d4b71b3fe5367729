//! The context object: an immutable message fixed at construction and a
//! counter that only ever moves up by one. Its status text combines the two.
use crate::decimal::dec_digits;
use crate::decimal::u32_to_decimal;
use vstd::prelude::*;

verus! {

/// The message every context carries from construction on.
pub open spec fn initial_message() -> Seq<char> {
    "WASM Context 초기화됨"@
}

/// The label that opens the status text, ahead of the message.
pub open spec fn message_label() -> Seq<char> {
    "메시지: "@
}

/// The label that separates the message from the count.
pub open spec fn count_label() -> Seq<char> {
    ", 카운트: "@
}

/// The status text for a context holding `message` and `count`: the message
/// and the decimal count, each behind its label.
pub open spec fn status_text(message: Seq<char>, count: nat) -> Seq<char> {
    message_label() + message + count_label() + dec_digits(count)
}

/// A stateful object meant to be held by a host environment: a fixed message
/// and a monotonically non-decreasing counter.
pub struct WasmContext {
    message: String,
    count: u32,
}

impl WasmContext {
    /// The message, as given at construction.
    pub closed spec fn spec_message(&self) -> Seq<char> {
        self.message@
    }

    /// The current counter value.
    pub closed spec fn spec_count(&self) -> u32 {
        self.count
    }

    /// Constructs a context with the fixed initial message and a count of zero.
    pub fn new() -> (r: WasmContext)
        ensures
            r.spec_count() == 0,
            r.spec_message() == initial_message(),
    {
        WasmContext { message: String::from_str("WASM Context 초기화됨"), count: 0 }
    }

    /// The current counter value, readable by callers that must stay clear of
    /// the counter's upper bound.
    pub fn count(&self) -> (r: u32)
        ensures
            r == self.spec_count(),
    {
        self.count
    }

    /// Moves the counter up by one and leaves the message untouched.
    pub fn increment(&mut self)
        requires
            old(self).spec_count() < u32::MAX,
        ensures
            final(self).spec_count() == old(self).spec_count() + 1,
            final(self).spec_message() == old(self).spec_message(),
    {
        self.count = self.count + 1;
    }

    /// Formats the status text: the message and the live count, labelled.
    pub fn get_status(&self) -> (r: String)
        ensures
            r@ == status_text(self.spec_message(), self.spec_count() as nat),
    {
        let mut s = String::from_str("메시지: ");
        s.append(self.message.as_str());
        s.append(", 카운트: ");
        let digits = u32_to_decimal(self.count);
        s.append(digits.as_str());
        s
    }
}

/// A freshly constructed context reports a count of zero: its status text is
/// exactly the labelled message followed by the single digit '0'.
pub proof fn fresh_status_reports_zero(c: WasmContext)
    requires
        c.spec_count() == 0,
    ensures
        status_text(c.spec_message(), c.spec_count() as nat) == message_label()
            + c.spec_message() + count_label() + seq!['0'],
{
    assert(status_text(c.spec_message(), 0) =~= message_label() + c.spec_message()
        + count_label() + seq!['0']);
}

/// Stepping the counter one unit at a time from zero reaches exactly the
/// number of steps taken: after `n` increments the count is `n`, and the
/// status text reports that value.
pub proof fn counter_counts_increments(states: Seq<WasmContext>)
    requires
        states.len() > 0,
        states[0].spec_count() == 0,
        forall|i: int|
            0 <= i < states.len() - 1 ==> #[trigger] states[i + 1].spec_count() == states[
                i
            ].spec_count() + 1,
    ensures
        states[states.len() - 1].spec_count() == states.len() - 1,
        status_text(
            states[states.len() - 1].spec_message(),
            states[states.len() - 1].spec_count() as nat,
        ) == message_label() + states[states.len() - 1].spec_message() + count_label()
            + dec_digits((states.len() - 1) as nat),
    decreases states.len(),
{
    if states.len() > 1 {
        let n = states.len() as int;
        let prefix = states.drop_last();
        assert(forall|i: int|
            0 <= i < prefix.len() - 1 ==> #[trigger] prefix[i + 1].spec_count() == prefix[
                i
            ].spec_count() + 1);
        counter_counts_increments(prefix);
        assert(prefix[n - 2] == states[n - 2]);
        assert(states[(n - 2) + 1].spec_count() == states[n - 2].spec_count() + 1);
        assert(states[n - 1] == states[(n - 2) + 1]);
    }
}

/// The status text carries the message verbatim, whatever the count: the
/// characters between the two labels are exactly the message.
pub proof fn status_carries_message(message: Seq<char>, count: nat)
    ensures
        status_text(message, count).subrange(
            message_label().len() as int,
            message_label().len() + message.len() as int,
        ) == message,
{
    assert(status_text(message, count).subrange(
        message_label().len() as int,
        message_label().len() + message.len() as int,
    ) =~= message);
}

} // verus!
