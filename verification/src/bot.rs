//! A bot's program: a fixed sequence of instructions for the tape machine.

use vstd::prelude::*;

verus! {

/// One instruction of a bot program.
///
/// Movement is relative to the contestant's orientation, and the sign of a
/// counter instruction is relative to its polarity, so the same program can be
/// played mirrored from either end of the tape. Jump targets are absolute
/// indices into the program; a target at or past the end of the program simply
/// ends it.
#[derive(Clone, Copy, Debug, PartialEq, Eq, Structural)]
pub enum Instruction {
    /// Spend the tick without moving or writing.
    DoNothing,
    /// Move one cell in the contestant's own direction.
    MoveForward,
    /// Move one cell against the contestant's own direction.
    MoveBack,
    /// Add the contestant's polarity unit to the current cell (deferred write).
    Increment,
    /// Subtract the contestant's polarity unit from the current cell (deferred write).
    Decrement,
    /// Continue at the given program index if the current cell is exactly zero.
    JumpIfZero(usize),
    /// Continue at the given program index if the current cell is not zero.
    JumpIfNonZero(usize),
}

/// A bot: an immutable program to be bound to a starting position and
/// direction when the round begins.
#[derive(Debug)]
pub struct Bot {
    program: Vec<Instruction>,
}

impl View for Bot {
    type V = Seq<Instruction>;

    closed spec fn view(&self) -> Seq<Instruction> {
        self.program@
    }
}

impl Bot {
    pub fn new(program: Vec<Instruction>) -> (bot: Bot)
        ensures
            bot@ == program@,
    {
        Bot { program }
    }

    pub fn get_program(&self) -> (program: &Vec<Instruction>)
        ensures
            program@ == self@,
    {
        &self.program
    }
}

} // verus!
