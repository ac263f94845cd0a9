//! The sequence of instructions that the translator emits.

use crate::bytecode::{Instr, Instruction};
use crate::error::{TranslationError, TranslationErrorInner};
use vstd::prelude::*;

verus! {

/// What an [`InstrEncoder`] holds.
pub struct InstrEncoderView {
    /// The emitted instructions, in the order in which they were emitted.
    pub instrs: Seq<Instruction>,
    /// The number of instructions that the sequence can hold.
    pub limit: nat,
}

impl InstrEncoderView {
    /// Whether `n` more instructions can be emitted.
    pub open spec fn has_room(self, n: nat) -> bool {
        self.instrs.len() + n <= self.limit
    }

    /// The sequence with `instr` appended.
    pub open spec fn push(self, instr: Instruction) -> InstrEncoderView {
        InstrEncoderView { instrs: self.instrs.push(instr), limit: self.limit }
    }
}

/// The instructions of a function in the order in which they were emitted.
/// Instructions are only ever appended.
#[derive(Debug)]
pub struct InstrEncoder {
    instrs: Vec<Instruction>,
    limit: u32,
}

impl View for InstrEncoder {
    type V = InstrEncoderView;

    closed spec fn view(&self) -> InstrEncoderView {
        InstrEncoderView { instrs: self.instrs@, limit: self.limit as nat }
    }
}

impl InstrEncoder {
    /// Creates an empty sequence that holds as many instructions as can be
    /// referred to.
    pub fn new() -> (res: InstrEncoder)
        ensures
            res@.instrs == Seq::<Instruction>::empty(),
            res@.limit == u32::MAX,
    {
        InstrEncoder { instrs: Vec::new(), limit: u32::MAX }
    }

    /// Creates an empty sequence that holds at most `limit` instructions.
    pub fn with_limit(limit: u32) -> (res: InstrEncoder)
        ensures
            res@.instrs == Seq::<Instruction>::empty(),
            res@.limit == limit,
    {
        InstrEncoder { instrs: Vec::new(), limit }
    }

    /// The number of emitted instructions.
    pub fn len(&self) -> (res: usize)
        ensures
            res == self@.instrs.len(),
    {
        self.instrs.len()
    }

    /// The emitted instructions.
    pub fn instrs(&self) -> (res: &Vec<Instruction>)
        ensures
            res@ == self@.instrs,
    {
        &self.instrs
    }

    /// Hands out the emitted instructions.
    pub fn into_instrs(self) -> (res: Vec<Instruction>)
        ensures
            res@ == self@.instrs,
    {
        self.instrs
    }

    /// Appends an instruction and returns the reference to it.
    ///
    /// Fails if the sequence is full.
    pub fn push_instr(&mut self, instr: Instruction) -> (res: Result<Instr, TranslationError>)
        ensures
            res is Ok <==> old(self)@.has_room(1),
            res matches Ok(at) ==> at.index == old(self)@.instrs.len() && final(self)@ == old(
                self,
            )@.push(instr),
            res matches Err(error) ==> error@ == TranslationErrorInner::InstrOutOfBounds
                && final(self)@ == old(self)@,
    {
        let len: usize = self.instrs.len();
        if len >= self.limit as usize {
            return Err(TranslationError::new(TranslationErrorInner::InstrOutOfBounds));
        }
        self.instrs.push(instr);
        Ok(Instr { index: len as u32 })
    }
}

} // verus!
