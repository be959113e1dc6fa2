use vstd::prelude::*;

use crate::event::ControlFlow;

verus! {

/// Size of the first buffer that composed text is read into.
pub const INIT_BUFF_SIZE: usize = 16;

/// What follows one attempt at reading a key's composed text.
#[derive(Debug, Clone, Copy, PartialEq, Eq, Structural)]
pub enum LookupStep {
    /// The text is the first `n` bytes of the buffer.
    Done(usize),
    /// The buffer was too small: read again, once, into one of this size.
    Retry(usize),
}

/// The step after an attempt that reported `count` bytes: the first attempt
/// that overflowed is retried with exactly the reported size; otherwise the
/// text is the reported bytes, within the buffer.
pub open spec fn lookup_step_spec(first_attempt: bool, overflowed: bool, count: i32, buffer_len: usize) -> LookupStep {
    if first_attempt && overflowed && count > 0 {
        LookupStep::Retry(count as usize)
    } else if count <= 0 {
        LookupStep::Done(0)
    } else if count as int > buffer_len {
        LookupStep::Done(buffer_len)
    } else {
        LookupStep::Done(count as usize)
    }
}

/// Decides what follows an attempt at reading composed text.
pub fn lookup_step(first_attempt: bool, overflowed: bool, count: i32, buffer_len: usize) -> (r: LookupStep)
    ensures
        r == lookup_step_spec(first_attempt, overflowed, count, buffer_len),
{
    if first_attempt && overflowed && count > 0 {
        LookupStep::Retry(count as usize)
    } else if count <= 0 {
        LookupStep::Done(0)
    } else if count as usize > buffer_len {
        LookupStep::Done(buffer_len)
    } else {
        LookupStep::Done(count as usize)
    }
}

/// A blocking loop stops after a native event when the handler asked to
/// break on any of the events it produced.
pub fn stops_after(flows: &Vec<ControlFlow>) -> (r: bool)
    ensures
        r == flows@.contains(ControlFlow::Break),
{
    let mut i: usize = 0;
    while i < flows.len()
        invariant
            i <= flows@.len(),
            forall|k: int| 0 <= k < i ==> flows@[k] != ControlFlow::Break,
        decreases flows@.len() - i,
    {
        if flows[i] == ControlFlow::Break {
            return true;
        }
        i = i + 1;
    }
    false
}

} // verus!
