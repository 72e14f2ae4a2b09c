use vstd::prelude::*;

use crate::field::{read_bit_field, read_field, write_bit_field, write_field, Field};

verus! {

/// One access to a memory-mapped 32-bit register at virtual address `addr`.
///
/// The library describes every hardware action as a list of these; the
/// caller performs them in order, each with volatile accesses, driving each
/// one with [`RegOp::step`].
#[derive(Clone, Copy, Debug)]
pub enum RegOp {
    /// Store `value`, without reading the register first.
    Write { addr: usize, value: u32 },
    /// Read the register, replace `field` by `value`, store the result.
    Modify { addr: usize, field: Field<u32>, value: u32 },
    /// Read the register again and again until `field` holds `value`.
    WaitUntil { addr: usize, field: Field<u32>, value: u32 },
}

/// What to do after reading the register of a [`RegOp`].
#[derive(Clone, Copy, Debug, PartialEq, Eq)]
pub enum Step {
    /// Store this word at the operation's address; the operation is done.
    Store(u32),
    /// Read the register again: the awaited value is not there yet.
    Poll,
    /// The operation is done; store nothing.
    Done,
}

impl RegOp {
    /// The field offsets lie inside the word.
    pub open spec fn wf(self) -> bool {
        match self {
            RegOp::Write { .. } => true,
            RegOp::Modify { field, .. } => field.offset < 32,
            RegOp::WaitUntil { field, .. } => field.offset < 32,
        }
    }

    pub open spec fn spec_addr(self) -> usize {
        match self {
            RegOp::Write { addr, .. } => addr,
            RegOp::Modify { addr, .. } => addr,
            RegOp::WaitUntil { addr, .. } => addr,
        }
    }

    /// The step taken when the register reads `current` (ignored by `Write`).
    pub open spec fn step_spec(self, current: u32) -> Step {
        match self {
            RegOp::Write { value, .. } => Step::Store(value),
            RegOp::Modify { field, value, .. } => Step::Store(write_field(current, field, value)),
            RegOp::WaitUntil { field, value, .. } => if read_field(current, field) == value {
                Step::Done
            } else {
                Step::Poll
            },
        }
    }

    /// The address of the register.
    pub fn addr(&self) -> (r: usize)
        ensures
            r == self.spec_addr(),
    {
        match self {
            RegOp::Write { addr, .. } => *addr,
            RegOp::Modify { addr, .. } => *addr,
            RegOp::WaitUntil { addr, .. } => *addr,
        }
    }

    /// Whether the operation needs the register's current value.
    pub fn reads(&self) -> (r: bool)
        ensures
            r == !(*self is Write),
    {
        !matches!(self, RegOp::Write { .. })
    }

    /// The step to take when the register reads `current`.
    pub fn step(&self, current: u32) -> (r: Step)
        requires
            self.wf(),
        ensures
            r == self.step_spec(current),
    {
        match self {
            RegOp::Write { value, .. } => Step::Store(*value),
            RegOp::Modify { field, value, .. } => {
                let mut word = current;
                write_bit_field(&mut word, *field, *value);
                Step::Store(word)
            },
            RegOp::WaitUntil { field, value, .. } => {
                if read_bit_field(current, *field) == *value {
                    Step::Done
                } else {
                    Step::Poll
                }
            },
        }
    }
}

} // verus!
