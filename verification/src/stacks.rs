use vstd::prelude::*;

use crate::errors::WgseEngineError;
use crate::types::{ControlFrame, Registers, Value};

verus! {

/// The single growable stack of runtime values shared by every nested
/// block; the top is the most recently pushed value.
#[derive(Clone, Debug, Default, PartialEq)]
pub struct OperandStack {
    slots: Vec<Value>,
}

impl View for OperandStack {
    type V = Seq<Value>;

    closed spec fn view(&self) -> Seq<Value> {
        self.slots@
    }
}

impl OperandStack {
    pub fn new() -> (r: Self)
        ensures
            r@ == Seq::<Value>::empty(),
    {
        OperandStack { slots: Vec::new() }
    }

    pub fn len(&self) -> (r: usize)
        ensures
            r == self@.len(),
    {
        self.slots.len()
    }

    /// Appends one value at the top of the stack.
    pub fn push(&mut self, value: Value)
        ensures
            final(self)@ == old(self)@.push(value),
    {
        self.slots.push(value);
    }

    /// Moves every value of `values` onto the top of the stack, keeping
    /// their order; `values` is left empty.
    pub fn append(&mut self, values: &mut Vec<Value>)
        ensures
            final(self)@ == old(self)@ + old(values)@,
            final(values)@ == Seq::<Value>::empty(),
    {
        self.slots.append(values);
    }

    /// The stored values, bottom first.
    pub fn values(&self) -> (r: &Vec<Value>)
        ensures
            r@ == self@,
    {
        &self.slots
    }

    /// Removes and returns the top value.
    pub fn try_pop(&mut self) -> (r: Result<Value, WgseEngineError>)
        ensures
            old(self)@.len() > 0 ==> r == Ok::<Value, WgseEngineError>(old(self)@.last())
                && final(self)@ == old(self)@.drop_last(),
            old(self)@.len() == 0 ==> r == Err::<Value, WgseEngineError>(
                WgseEngineError::StackEmpty,
            ) && final(self)@ == old(self)@,
    {
        match self.slots.pop() {
            Some(value) => Ok(value),
            None => Err(WgseEngineError::StackEmpty),
        }
    }

    /// Removes the last `n` values and returns them in their original
    /// bottom-to-top order: the returned vector's last element is the
    /// value that was on top of the stack.
    pub fn try_pop_n(&mut self, n: usize) -> (r: Result<Vec<Value>, WgseEngineError>)
        ensures
            n <= old(self)@.len() ==> final(self)@ == old(self)@.subrange(
                0,
                old(self)@.len() - n,
            ) && (r matches Ok(values) && values@ == old(self)@.subrange(
                old(self)@.len() - n,
                old(self)@.len() as int,
            )),
            n > old(self)@.len() ==> r == Err::<Vec<Value>, WgseEngineError>(
                WgseEngineError::StackReverseIndexExceeded {
                    expect: n as u64,
                    size: old(self)@.len() as u64,
                },
            ) && final(self)@ == old(self)@,
    {
        let len = self.slots.len();
        if len < n {
            Err(
                WgseEngineError::StackReverseIndexExceeded {
                    expect: n as u64,
                    size: len as u64,
                },
            )
        } else {
            Ok(self.slots.split_off(len - n))
        }
    }

    /// Removes the top value without returning it.
    pub fn try_drop(&mut self) -> (r: Result<(), WgseEngineError>)
        ensures
            old(self)@.len() > 0 ==> r == Ok::<(), WgseEngineError>(())
                && final(self)@ == old(self)@.drop_last(),
            old(self)@.len() == 0 ==> r == Err::<(), WgseEngineError>(
                WgseEngineError::StackEmpty,
            ) && final(self)@ == old(self)@,
    {
        match self.slots.len() {
            0 => Err(WgseEngineError::StackEmpty),
            _ => {
                let _ = self.slots.pop();
                Ok(())
            },
        }
    }

    /// Removes the last `n` values; the values below them are untouched.
    pub fn try_drop_n(&mut self, n: usize) -> (r: Result<(), WgseEngineError>)
        ensures
            n <= old(self)@.len() ==> r == Ok::<(), WgseEngineError>(())
                && final(self)@ == old(self)@.subrange(0, old(self)@.len() - n),
            n > old(self)@.len() ==> r == Err::<(), WgseEngineError>(
                WgseEngineError::StackReverseIndexExceeded {
                    expect: n as u64,
                    size: old(self)@.len() as u64,
                },
            ) && final(self)@ == old(self)@,
    {
        let len = self.slots.len();
        if len < n {
            Err(
                WgseEngineError::StackReverseIndexExceeded {
                    expect: n as u64,
                    size: len as u64,
                },
            )
        } else {
            self.slots.truncate(len - n);
            Ok(())
        }
    }
}

/// How many frames, counted from the top, sit above the nearest
/// function-call frame; equals the stack's length when no call frame
/// exists.
pub open spec fn non_call_suffix(s: Seq<ControlFrame>) -> nat
    decreases s.len(),
{
    if s.len() == 0 {
        0
    } else if s.last().spec_is_function_call() {
        0
    } else {
        1 + non_call_suffix(s.drop_last())
    }
}

pub proof fn lemma_non_call_suffix(s: Seq<ControlFrame>)
    ensures
        non_call_suffix(s) <= s.len(),
        non_call_suffix(s) < s.len() ==> s[s.len() - 1 - non_call_suffix(s)].spec_is_function_call(),
        forall|i: int|
            s.len() - non_call_suffix(s) <= i < s.len() ==> !(
            #[trigger] s[i]).spec_is_function_call(),
    decreases s.len(),
{
    if s.len() == 0 {
    } else if s.last().spec_is_function_call() {
    } else {
        lemma_non_call_suffix(s.drop_last());
        assert forall|i: int|
            s.len() - non_call_suffix(s) <= i < s.len() implies !(
        #[trigger] s[i]).spec_is_function_call() by {
            if i < s.len() - 1 {
                assert(s.drop_last()[i] == s[i]);
            }
        }
        if non_call_suffix(s) < s.len() {
            assert(s.drop_last()[s.len() - 2 - non_call_suffix(s.drop_last())] == s[s.len() - 1
                - non_call_suffix(s)]);
        }
    }
}

/// The stack of active control frames; the bottom-most frame, if any, is
/// the program's outermost block.
#[derive(Clone, Debug, Default)]
pub struct ControlStack {
    slots: Vec<ControlFrame>,
}

impl View for ControlStack {
    type V = Seq<ControlFrame>;

    closed spec fn view(&self) -> Seq<ControlFrame> {
        self.slots@
    }
}

impl ControlStack {
    pub fn new() -> (r: Self)
        ensures
            r@ == Seq::<ControlFrame>::empty(),
    {
        ControlStack { slots: Vec::new() }
    }

    pub fn len(&self) -> (r: usize)
        ensures
            r == self@.len(),
    {
        self.slots.len()
    }

    /// Appends one frame at the top of the stack.
    pub fn push(&mut self, frame: ControlFrame)
        ensures
            final(self)@ == old(self)@.push(frame),
    {
        self.slots.push(frame);
    }

    /// The top frame, without removing it.
    pub fn try_top(&self) -> (r: Result<&ControlFrame, WgseEngineError>)
        ensures
            self@.len() > 0 ==> (r matches Ok(frame) && *frame == self@.last()),
            self@.len() == 0 ==> (r matches Err(e) && e == WgseEngineError::StackEmpty),
    {
        let n = self.slots.len();
        if n == 0 {
            Err(WgseEngineError::StackEmpty)
        } else {
            Ok(&self.slots[n - 1])
        }
    }

    /// Replaces the register snapshot of the top frame; the
    /// interpretation loop uses this to advance the program counter.
    pub fn try_update_top_registers(&mut self, registers: Registers) -> (r: Result<
        (),
        WgseEngineError,
    >)
        ensures
            old(self)@.len() > 0 ==> r == Ok::<(), WgseEngineError>(()) && final(self)@
                == old(self)@.update(
                old(self)@.len() - 1,
                (ControlFrame {
                    signature: old(self)@.last().signature,
                    instructions: old(self)@.last().instructions,
                    registers,
                }),
            ),
            old(self)@.len() == 0 ==> r == Err::<(), WgseEngineError>(WgseEngineError::StackEmpty)
                && final(self)@ == old(self)@,
    {
        match self.slots.pop() {
            None => Err(WgseEngineError::StackEmpty),
            Some(frame) => {
                let updated = ControlFrame {
                    signature: frame.signature,
                    instructions: frame.instructions,
                    registers,
                };
                self.slots.push(updated);
                proof {
                    assert(self@ =~= old(self)@.update(
                        old(self)@.len() - 1,
                        (ControlFrame {
                            signature: old(self)@.last().signature,
                            instructions: old(self)@.last().instructions,
                            registers,
                        }),
                    ));
                }
                Ok(())
            },
        }
    }

    /// Removes and returns the top frame.
    pub fn try_pop(&mut self) -> (r: Result<ControlFrame, WgseEngineError>)
        ensures
            old(self)@.len() > 0 ==> (r matches Ok(frame) && frame == old(self)@.last()
                && final(self)@ == old(self)@.drop_last()),
            old(self)@.len() == 0 ==> (r matches Err(e) && e == WgseEngineError::StackEmpty
                && final(self)@ == old(self)@),
    {
        match self.slots.pop() {
            Some(frame) => Ok(frame),
            None => Err(WgseEngineError::StackEmpty),
        }
    }

    /// Counts the frames from the top that are not function calls,
    /// stopping at (and not counting) the first call frame.
    pub fn last_callframe_pos(&self) -> (r: usize)
        ensures
            r == non_call_suffix(self@),
    {
        let len = self.slots.len();
        let mut k: usize = 0;
        while k < len && !self.slots[len - 1 - k].is_function_call()
            invariant
                k <= len,
                len == self@.len(),
                forall|i: int|
                    len - k <= i < len ==> !(#[trigger] self@[i]).spec_is_function_call(),
            decreases len - k,
        {
            k = k + 1;
        }
        proof {
            lemma_non_call_suffix_char(self@, k as nat);
        }
        k
    }

    /// Discards every frame above the nearest function-call frame, then
    /// returns that frame, now on top. When no call frame exists the
    /// whole stack is discarded and the call fails.
    pub fn try_pop_callframe(&mut self) -> (r: Result<&ControlFrame, WgseEngineError>)
        ensures
            final(self)@ == old(self)@.subrange(
                0,
                old(self)@.len() - non_call_suffix(old(self)@),
            ),
            non_call_suffix(old(self)@) < old(self)@.len() ==> (r matches Ok(frame) && *frame
                == old(self)@[old(self)@.len() - 1 - non_call_suffix(old(self)@)]
                && frame.spec_is_function_call()),
            non_call_suffix(old(self)@) == old(self)@.len() ==> (r matches Err(e) && (e matches
            WgseEngineError::MismatchedTarget(m) && m@ == "FunctionCallFrame"@)),
    {
        let pos = self.last_callframe_pos();
        let len = self.slots.len();
        proof {
            lemma_non_call_suffix(self@);
        }
        self.slots.truncate(len - pos);
        let remaining = self.slots.len();
        if remaining == 0 {
            Err(WgseEngineError::MismatchedTarget(String::from_str("FunctionCallFrame")))
        } else {
            Ok(&self.slots[remaining - 1])
        }
    }
}

/// A suffix of `k` non-call frames that either spans the whole stack or
/// sits right above a call frame pins down `non_call_suffix`.
proof fn lemma_non_call_suffix_char(s: Seq<ControlFrame>, k: nat)
    requires
        k <= s.len(),
        forall|i: int| s.len() - k <= i < s.len() ==> !(#[trigger] s[i]).spec_is_function_call(),
        k < s.len() ==> s[s.len() - 1 - k].spec_is_function_call(),
    ensures
        non_call_suffix(s) == k,
    decreases s.len(),
{
    if k == 0 {
    } else {
        assert(!s.last().spec_is_function_call());
        assert forall|i: int|
            s.drop_last().len() - (k - 1) <= i < s.drop_last().len() implies !(
        #[trigger] s.drop_last()[i]).spec_is_function_call() by {
            assert(s.drop_last()[i] == s[i]);
        }
        if k - 1 < s.drop_last().len() {
            assert(s.drop_last()[s.drop_last().len() - 1 - (k - 1)] == s[s.len() - 1 - k]);
        }
        lemma_non_call_suffix_char(s.drop_last(), (k - 1) as nat);
    }
}

} // verus!
