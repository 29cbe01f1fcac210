//! One contestant slot: a bot's program bound to a position on the tape, a
//! movement direction and a polarity, together with its instruction pointer.

use vstd::prelude::*;

use crate::bot::{Bot, Instruction};

verus! {

/// Which end of the tape the contestant starts from: `Normal` starts at the
/// low end and moves toward higher indices, `Reversed` starts at the high end
/// and moves toward lower indices.
#[derive(Clone, Copy, Debug, PartialEq, Eq, Structural)]
pub enum Orientation {
    Normal,
    Reversed,
}

/// Whether the contestant's counter instructions act with their plain sign
/// (`Normal`) or inverted (`Reversed`), used to mirror the two competitors.
#[derive(Clone, Copy, Debug, PartialEq, Eq, Structural)]
pub enum Polarity {
    Normal,
    Reversed,
}

/// A deferred tape write: `addend` is to be added, with wraparound, to the
/// cell at `index` once both contestants have acted this tick.
#[derive(Clone, Copy, Debug, PartialEq, Eq, Structural)]
pub struct Mutation {
    pub index: usize,
    pub addend: i8,
}

impl Mutation {
    pub fn new(index: usize, addend: i8) -> (mutation: Mutation)
        ensures
            mutation == (Mutation { index, addend }),
    {
        Mutation { index, addend }
    }

    pub fn get_index(&self) -> (index: usize)
        ensures
            index == self.index,
    {
        self.index
    }

    pub fn get_addend(&self) -> (addend: i8)
        ensures
            addend == self.addend,
    {
        self.addend
    }
}

/// The mathematical state of a contestant slot.
#[verifier::ext_equal]
pub ghost struct BotInPlayView {
    pub program: Seq<Instruction>,
    pub code_pointer: int,
    pub pos: int,
    pub orientation: Orientation,
    pub polarity: Polarity,
}

/// Direction of "forward" movement for an orientation.
pub open spec fn spec_dir(orientation: Orientation) -> int {
    match orientation {
        Orientation::Normal => 1,
        Orientation::Reversed => -1,
    }
}

/// The value a counter instruction adds to a cell: `up` tells an increment
/// from a decrement, and a reversed polarity flips the sign.
pub open spec fn spec_addend(polarity: Polarity, up: bool) -> i8 {
    match polarity {
        Polarity::Normal => if up {
            1i8
        } else {
            -1i8
        },
        Polarity::Reversed => if up {
            -1i8
        } else {
            1i8
        },
    }
}

/// A program has ended once its instruction pointer stands past its last
/// instruction. A pointer past the program never re-enters it — jumps only
/// run while an instruction is executing — so an ended program stays ended.
pub open spec fn spec_ended(b: BotInPlayView) -> bool {
    b.code_pointer >= b.program.len()
}

/// Whether the contestant's position lies strictly outside the tape.
pub open spec fn spec_off_tape(b: BotInPlayView, tape_length: int) -> bool {
    b.pos < 0 || b.pos >= tape_length
}

/// Effect of executing the current instruction, given whether the cell at the
/// contestant's position is exactly zero: the slot state after the
/// instruction (before the pointer is advanced) and the optional deferred
/// write it produced.
pub open spec fn spec_execute(b: BotInPlayView, current_cell_is_zero: bool) -> (
    BotInPlayView,
    Option<Mutation>,
)
    recommends
        !spec_ended(b),
        0 <= b.code_pointer,
        0 <= b.pos,
{
    match b.program[b.code_pointer] {
        Instruction::DoNothing => (b, None),
        Instruction::MoveForward => (
            BotInPlayView { pos: b.pos + spec_dir(b.orientation), ..b },
            None,
        ),
        Instruction::MoveBack => (BotInPlayView { pos: b.pos - spec_dir(b.orientation), ..b }, None),
        Instruction::Increment => (
            b,
            Some(Mutation { index: b.pos as usize, addend: spec_addend(b.polarity, true) }),
        ),
        Instruction::Decrement => (
            b,
            Some(Mutation { index: b.pos as usize, addend: spec_addend(b.polarity, false) }),
        ),
        Instruction::JumpIfZero(target) => (
            if current_cell_is_zero {
                BotInPlayView { code_pointer: target as int, ..b }
            } else {
                b
            },
            None,
        ),
        Instruction::JumpIfNonZero(target) => (
            if !current_cell_is_zero {
                BotInPlayView { code_pointer: target as int, ..b }
            } else {
                b
            },
            None,
        ),
    }
}

/// Advancing the instruction pointer: one step forward, except that a pointer
/// already past the program stays where it is, so an ended program stays
/// ended.
pub open spec fn spec_increment(b: BotInPlayView) -> BotInPlayView {
    if b.code_pointer < b.program.len() {
        BotInPlayView { code_pointer: b.code_pointer + 1, ..b }
    } else {
        b
    }
}

/// One contestant's program bound to its in-round execution state.
#[derive(Debug)]
pub struct BotInPlay {
    program: Vec<Instruction>,
    code_pointer: usize,
    pos: i32,
    orientation: Orientation,
    polarity: Polarity,
}

impl View for BotInPlay {
    type V = BotInPlayView;

    closed spec fn view(&self) -> BotInPlayView {
        BotInPlayView {
            program: self.program@,
            code_pointer: self.code_pointer as int,
            pos: self.pos as int,
            orientation: self.orientation,
            polarity: self.polarity,
        }
    }
}

impl BotInPlay {
    /// Binds a bot to its slot: a `Normal` orientation starts at index 0, a
    /// `Reversed` one at the last index, each facing the other end.
    pub fn new(bot: &Bot, tape_length: i32, orientation: Orientation, polarity: Polarity) -> (b:
        BotInPlay)
        requires
            1 <= tape_length,
        ensures
            b@ == (BotInPlayView {
                program: bot@,
                code_pointer: 0,
                pos: match orientation {
                    Orientation::Normal => 0int,
                    Orientation::Reversed => tape_length - 1,
                },
                orientation,
                polarity,
            }),
    {
        let pos: i32 = match orientation {
            Orientation::Normal => 0,
            Orientation::Reversed => tape_length - 1,
        };
        BotInPlay { program: bot.get_program().clone(), code_pointer: 0, pos, orientation, polarity }
    }

    pub fn get_pos(&self) -> (pos: i32)
        ensures
            pos as int == self@.pos,
    {
        self.pos
    }

    pub fn program_has_ended(&self) -> (ended: bool)
        ensures
            ended == spec_ended(self@),
    {
        self.code_pointer >= self.program.len()
    }

    pub fn bot_is_off_tape(&self, tape_length: i32) -> (off: bool)
        ensures
            off == spec_off_tape(self@, tape_length as int),
    {
        self.pos < 0 || self.pos >= tape_length
    }

    /// Executes the current instruction against the given pre-tick reading of
    /// the contestant's cell and returns the deferred write, if any. The
    /// instruction pointer is advanced separately, by
    /// [`BotInPlay::increment_code_pointer`].
    pub fn execute_code(&mut self, current_cell_is_zero: bool) -> (mutation: Option<Mutation>)
        requires
            !spec_ended(old(self)@),
            0 <= old(self)@.pos < i32::MAX as int,
        ensures
            (final(self)@, mutation) == spec_execute(old(self)@, current_cell_is_zero),
    {
        match self.program[self.code_pointer] {
            Instruction::DoNothing => None,
            Instruction::MoveForward => {
                let dir: i32 = match self.orientation {
                    Orientation::Normal => 1,
                    Orientation::Reversed => -1,
                };
                self.pos = self.pos + dir;
                None
            },
            Instruction::MoveBack => {
                let dir: i32 = match self.orientation {
                    Orientation::Normal => 1,
                    Orientation::Reversed => -1,
                };
                self.pos = self.pos - dir;
                None
            },
            Instruction::Increment => {
                let addend: i8 = match self.polarity {
                    Polarity::Normal => 1,
                    Polarity::Reversed => -1,
                };
                Some(Mutation::new(self.pos as usize, addend))
            },
            Instruction::Decrement => {
                let addend: i8 = match self.polarity {
                    Polarity::Normal => -1,
                    Polarity::Reversed => 1,
                };
                Some(Mutation::new(self.pos as usize, addend))
            },
            Instruction::JumpIfZero(target) => {
                if current_cell_is_zero {
                    self.code_pointer = target;
                }
                None
            },
            Instruction::JumpIfNonZero(target) => {
                if !current_cell_is_zero {
                    self.code_pointer = target;
                }
                None
            },
        }
    }

    /// Advances the instruction pointer after an instruction was executed; an
    /// already ended program stays ended.
    pub fn increment_code_pointer(&mut self)
        ensures
            final(self)@ == spec_increment(old(self)@),
    {
        if self.code_pointer < self.program.len() {
            self.code_pointer = self.code_pointer + 1;
        }
    }
}

} // verus!
