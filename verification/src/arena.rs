//! The round engine: the shared tape, the per-tick execution protocol that
//! interleaves the two contestants over the same memory, and the termination
//! and verdict logic.

use vstd::prelude::*;

use crate::bot::{Bot, Instruction};
use crate::bot_in_play::{
    spec_ended, spec_execute, spec_increment, spec_off_tape, BotInPlay, BotInPlayView, Mutation,
    Orientation, Polarity,
};
use crate::round::{RoundParams, RoundResult};

verus! {

/// Outcome of one `advance` call: either the round is still running, or a
/// verdict has been produced and the round is over.
#[derive(Clone, Copy, Debug, PartialEq, Eq, Structural)]
pub enum RoundStatus {
    Running,
    Decided(RoundResult),
}

/// The mathematical state of a round.
#[verifier::ext_equal]
pub ghost struct ArenaView {
    pub max_steps: int,
    pub step_nr: int,
    pub tape: Seq<i8>,
    pub start_bot: BotInPlayView,
    pub end_bot: BotInPlayView,
    pub decided: Option<RoundResult>,
}

/// Signed 8-bit addition with wraparound, the only arithmetic the tape knows.
pub open spec fn spec_wrap_add(a: i8, b: i8) -> i8 {
    vstd::wrapping::i8_specs::wrapping_add(a, b)
}

/// The tape at the start of a round: both flag cells (the first and the last
/// cell) hold the most negative representable value, every other cell zero.
pub open spec fn spec_init_tape(length: int) -> Seq<i8> {
    Seq::new(
        length as nat,
        |i: int|
            if i == 0 || i == length - 1 {
                i8::MIN
            } else {
                0i8
            },
    )
}

/// Applies one deferred write, if present, with wraparound addition.
pub open spec fn spec_apply_mutation(tape: Seq<i8>, mutation: Option<Mutation>) -> Seq<i8> {
    match mutation {
        None => tape,
        Some(m) => tape.update(m.index as int, spec_wrap_add(tape[m.index as int], m.addend)),
    }
}

/// Flag A is the first cell; it is associated with the first contestant.
pub open spec fn spec_flag_a_zeroed(tape: Seq<i8>) -> bool {
    tape[0] == 0
}

/// Flag B is the last cell; it is associated with the second contestant.
pub open spec fn spec_flag_b_zeroed(tape: Seq<i8>) -> bool {
    tape[tape.len() - 1] == 0
}

/// The verdict, derived solely from whether flag A currently reads exactly
/// zero: if so, both contestants are marked as having lost, otherwise
/// neither.
pub open spec fn spec_generate_result(tape: Seq<i8>) -> RoundResult {
    if spec_flag_a_zeroed(tape) {
        RoundResult { contestant_a_lost: true, contestant_b_lost: true }
    } else {
        RoundResult { contestant_a_lost: false, contestant_b_lost: false }
    }
}

/// One contestant's half-tick against the pre-tick tape: if its program has
/// ended nothing happens; otherwise it executes one instruction against the
/// cell at its current position and its instruction pointer is advanced.
pub open spec fn spec_step_bot(b: BotInPlayView, tape: Seq<i8>) -> (BotInPlayView, Option<Mutation>)
    recommends
        0 <= b.code_pointer,
        spec_ended(b) || 0 <= b.pos < tape.len(),
{
    if spec_ended(b) {
        (b, None)
    } else {
        let executed = spec_execute(b, tape[b.pos] == 0);
        (spec_increment(executed.0), executed.1)
    }
}

/// One full tick: both contestants act against the same pre-tick tape, then
/// both deferred writes are applied, first contestant's first, and the tick
/// counter grows.
pub open spec fn spec_step(a: ArenaView) -> ArenaView {
    let stepped_start = spec_step_bot(a.start_bot, a.tape);
    let stepped_end = spec_step_bot(a.end_bot, a.tape);
    ArenaView {
        tape: spec_apply_mutation(spec_apply_mutation(a.tape, stepped_start.1), stepped_end.1),
        start_bot: stepped_start.0,
        end_bot: stepped_end.0,
        step_nr: a.step_nr + 1,
        ..a
    }
}

/// The step budget is spent once the tick counter has reached it.
pub open spec fn spec_exceeded_max_steps(a: ArenaView) -> bool {
    a.step_nr >= a.max_steps
}

/// Both programs have ended; no further instruction will ever execute.
pub open spec fn spec_both_programs_ended(a: ArenaView) -> bool {
    spec_ended(a.start_bot) && spec_ended(a.end_bot)
}

/// A contestant has lost this tick if it stands strictly outside the tape, or
/// if its flag cell read exactly zero both before this tick began and after
/// it ended.
pub open spec fn spec_has_loser(
    a: ArenaView,
    flag_a_previously_zeroed: bool,
    flag_b_previously_zeroed: bool,
) -> bool {
    ||| spec_off_tape(a.start_bot, a.tape.len() as int)
    ||| (flag_a_previously_zeroed && spec_flag_a_zeroed(a.tape))
    ||| spec_off_tape(a.end_bot, a.tape.len() as int)
    ||| (flag_b_previously_zeroed && spec_flag_b_zeroed(a.tape))
}

/// One `advance` call as a function from round state to round state and
/// outcome.
///
/// An already decided round is left untouched and its verdict repeated. An
/// undecided one first checks the terminal conditions (budget spent, or both
/// programs ended) and, if one holds, decides without ticking; otherwise it
/// snapshots both flags' zero status, runs one tick, and decides if a loss
/// condition holds afterwards.
pub open spec fn spec_advance(a: ArenaView) -> (ArenaView, RoundStatus) {
    match a.decided {
        Some(result) => (a, RoundStatus::Decided(result)),
        None => {
            if spec_exceeded_max_steps(a) || spec_both_programs_ended(a) {
                let result = spec_generate_result(a.tape);
                (ArenaView { decided: Some(result), ..a }, RoundStatus::Decided(result))
            } else {
                let flag_a_previously_zeroed = spec_flag_a_zeroed(a.tape);
                let flag_b_previously_zeroed = spec_flag_b_zeroed(a.tape);
                let ticked = spec_step(a);
                if spec_has_loser(ticked, flag_a_previously_zeroed, flag_b_previously_zeroed) {
                    let result = spec_generate_result(ticked.tape);
                    (
                        ArenaView { decided: Some(result), ..ticked },
                        RoundStatus::Decided(result),
                    )
                } else {
                    (ticked, RoundStatus::Running)
                }
            }
        },
    }
}

/// A contestant that has not ended stands on the tape; one that has ended may
/// stand anywhere.
pub open spec fn spec_on_tape_or_ended(b: BotInPlayView, tape_length: int) -> bool {
    spec_ended(b) || 0 <= b.pos < tape_length
}

/// Well-formedness of a round state: the tape is long enough for both flag
/// cells and short enough for positions to be compared as 32-bit indices;
/// instruction pointers are not negative; and while the round is undecided,
/// every contestant still executing stands on the tape.
pub open spec fn spec_wf(a: ArenaView) -> bool {
    &&& 2 <= a.tape.len() <= i32::MAX as int
    &&& 0 <= a.start_bot.code_pointer
    &&& 0 <= a.end_bot.code_pointer
    &&& a.decided is None ==> {
        &&& spec_on_tape_or_ended(a.start_bot, a.tape.len() as int)
        &&& spec_on_tape_or_ended(a.end_bot, a.tape.len() as int)
    }
}

/// The state of a freshly constructed round: initialized tape, tick counter
/// zero, first contestant at the low end facing up with plain polarity,
/// second contestant at the high end facing down with the configured
/// polarity, no verdict yet.
pub open spec fn spec_initial(
    program1: Seq<Instruction>,
    program2: Seq<Instruction>,
    params: RoundParams,
) -> ArenaView {
    ArenaView {
        max_steps: params.max_steps as int,
        step_nr: 0,
        tape: spec_init_tape(params.tape_length as int),
        start_bot: BotInPlayView {
            program: program1,
            code_pointer: 0,
            pos: 0,
            orientation: Orientation::Normal,
            polarity: Polarity::Normal,
        },
        end_bot: BotInPlayView {
            program: program2,
            code_pointer: 0,
            pos: params.tape_length - 1,
            orientation: Orientation::Reversed,
            polarity: if params.invert_polarity {
                Polarity::Reversed
            } else {
                Polarity::Normal
            },
        },
        decided: None,
    }
}

/// The round engine: owns the tape and both contestant slots, advances the
/// match one tick at a time, and decides termination.
#[derive(Debug)]
pub struct Arena {
    max_steps: u32,
    step_nr: u32,
    tape: Vec<i8>,
    start_bot: BotInPlay,
    end_bot: BotInPlay,
    decided: Option<RoundResult>,
}

impl View for Arena {
    type V = ArenaView;

    closed spec fn view(&self) -> ArenaView {
        ArenaView {
            max_steps: self.max_steps as int,
            step_nr: self.step_nr as int,
            tape: self.tape@,
            start_bot: self.start_bot@,
            end_bot: self.end_bot@,
            decided: self.decided,
        }
    }
}

impl Arena {
    /// Builds the round from its parameters and the two bot programs.
    ///
    /// The tape length must be at least 2 so that both flag cells exist, and
    /// must fit a 32-bit signed index, the machine limit of the position
    /// arithmetic.
    pub fn new(bot1: &Bot, bot2: &Bot, round_params: &RoundParams) -> (arena: Arena)
        requires
            2 <= round_params.tape_length,
            round_params.tape_length <= i32::MAX as usize,
        ensures
            arena@ == spec_initial(bot1@, bot2@, *round_params),
            spec_wf(arena@),
            arena@.tape.len() == round_params.tape_length,
            arena@.tape[0] == i8::MIN,
            arena@.tape[round_params.tape_length - 1] == i8::MIN,
            forall|i: int|
                0 < i < round_params.tape_length - 1 ==> arena@.tape[i] == 0i8,
    {
        let polarity = if round_params.invert_polarity {
            Polarity::Reversed
        } else {
            Polarity::Normal
        };
        let arena = Arena {
            max_steps: round_params.max_steps,
            step_nr: 0,
            tape: Arena::make_tape(round_params.tape_length),
            start_bot: BotInPlay::new(
                bot1,
                round_params.tape_length as i32,
                Orientation::Normal,
                Polarity::Normal,
            ),
            end_bot: BotInPlay::new(
                bot2,
                round_params.tape_length as i32,
                Orientation::Reversed,
                polarity,
            ),
            decided: None,
        };
        proof {
            assert(arena@ =~= spec_initial(bot1@, bot2@, *round_params));
        }
        arena
    }

    /// The initial tape: all cells zero, then both flag cells set to the most
    /// negative representable value.
    fn make_tape(length: usize) -> (tape: Vec<i8>)
        requires
            2 <= length,
        ensures
            tape@ == spec_init_tape(length as int),
    {
        let mut tape: Vec<i8> = Vec::new();
        let mut i: usize = 0;
        while i < length
            invariant
                i <= length,
                tape@.len() == i,
                forall|j: int| 0 <= j < i ==> tape@[j] == 0i8,
            decreases length - i,
        {
            tape.push(0i8);
            i = i + 1;
        }
        tape.set(0, i8::MIN);
        tape.set(length - 1, i8::MIN);
        proof {
            assert(tape@ =~= spec_init_tape(length as int));
        }
        tape
    }

    /// Read-only access to the tape, for diagnostics and rendering.
    pub fn get_tape(&self) -> (tape: &Vec<i8>)
        ensures
            tape@ == self@.tape,
    {
        &self.tape
    }

    /// Replaces the tape contents wholesale, keeping its length. This exists
    /// for drivers and tests that want to study the engine from a chosen
    /// tape state rather than the initial one.
    pub fn set_tape(&mut self, tape: Vec<i8>)
        requires
            tape@.len() == old(self)@.tape.len(),
        ensures
            final(self)@ == (ArenaView { tape: tape@, ..old(self)@ }),
    {
        self.tape = tape;
        proof {
            assert(final(self)@ =~= (ArenaView { tape: self.tape@, ..old(self)@ }));
        }
    }

    fn generate_result(&self) -> (result: RoundResult)
        requires
            self@.tape.len() >= 1,
        ensures
            result == spec_generate_result(self@.tape),
    {
        if self.flag_a_zeroed() {
            RoundResult::new(true, true)
        } else {
            RoundResult::new(false, false)
        }
    }

    fn exceeded_max_steps(&self) -> (exceeded: bool)
        ensures
            exceeded == spec_exceeded_max_steps(self@),
    {
        self.step_nr >= self.max_steps
    }

    fn both_programs_ended(&self) -> (ended: bool)
        ensures
            ended == spec_both_programs_ended(self@),
    {
        self.start_bot.program_has_ended() && self.end_bot.program_has_ended()
    }

    fn flag_a_zeroed(&self) -> (zeroed: bool)
        requires
            self@.tape.len() >= 1,
        ensures
            zeroed == spec_flag_a_zeroed(self@.tape),
    {
        self.tape[0] == 0
    }

    fn flag_b_zeroed(&self) -> (zeroed: bool)
        requires
            self@.tape.len() >= 1,
        ensures
            zeroed == spec_flag_b_zeroed(self@.tape),
    {
        self.tape[self.tape.len() - 1] == 0
    }

    /// Checks whether at least one contestant has lost, given the pre-tick
    /// zero snapshots of both flags.
    fn has_loser(&self, flag_a_previously_zeroed: bool, flag_b_previously_zeroed: bool) -> (loser:
        bool)
        requires
            self@.tape.len() <= i32::MAX as int,
            self@.tape.len() >= 1,
        ensures
            loser == spec_has_loser(self@, flag_a_previously_zeroed, flag_b_previously_zeroed),
    {
        self.start_bot.bot_is_off_tape(self.tape.len() as i32)
            || (flag_a_previously_zeroed && self.flag_a_zeroed())
            || self.end_bot.bot_is_off_tape(self.tape.len() as i32)
            || (flag_b_previously_zeroed && self.flag_b_zeroed())
    }

    /// Makes the given contestant take its half of the tick against the
    /// pre-tick tape and hands back its deferred write, if any.
    fn step_bot(bot_in_play: &mut BotInPlay, tape: &Vec<i8>) -> (mutation: Option<Mutation>)
        requires
            tape@.len() <= i32::MAX as int,
            0 <= old(bot_in_play)@.code_pointer,
            spec_on_tape_or_ended(old(bot_in_play)@, tape@.len() as int),
        ensures
            (final(bot_in_play)@, mutation) == spec_step_bot(old(bot_in_play)@, tape@),
    {
        if bot_in_play.program_has_ended() {
            return None;
        }
        let pos = bot_in_play.get_pos();
        let current_cell_is_zero = tape[pos as usize] == 0;
        let mutation = bot_in_play.execute_code(current_cell_is_zero);
        bot_in_play.increment_code_pointer();
        mutation
    }

    /// One tick: both contestants act against the tape as it stands at the
    /// start of the tick, then the collected writes are applied in slot
    /// order, then the tick counter grows.
    fn step(&mut self)
        requires
            spec_wf(old(self)@),
            old(self)@.decided is None,
            old(self)@.step_nr < old(self)@.max_steps,
        ensures
            final(self)@ == spec_step(old(self)@),
    {
        let optional_cell_mutation_1 = Arena::step_bot(&mut self.start_bot, &self.tape);
        let optional_cell_mutation_2 = Arena::step_bot(&mut self.end_bot, &self.tape);
        proof {
            lemma_step_bot_facts(old(self)@.start_bot, old(self)@.tape);
            lemma_step_bot_facts(old(self)@.end_bot, old(self)@.tape);
        }
        if let Some(mutation) = optional_cell_mutation_1 {
            let index = mutation.get_index();
            let value = self.tape[index];
            self.tape.set(index, value.wrapping_add(mutation.get_addend()));
        }
        if let Some(mutation) = optional_cell_mutation_2 {
            let index = mutation.get_index();
            let value = self.tape[index];
            self.tape.set(index, value.wrapping_add(mutation.get_addend()));
        }
        self.step_nr = self.step_nr + 1;
        proof {
            assert(self@ =~= spec_step(old(self)@));
        }
    }

    /// Drives the round one call further: repeats the verdict of an already
    /// decided round, decides immediately when the budget is spent or both
    /// programs have ended, and otherwise runs one tick and checks the loss
    /// conditions against the pre-tick flag snapshots.
    ///
    /// A decided round latches its result, so further calls change nothing
    /// and repeat it: over-driving the engine is harmless.
    pub fn advance(&mut self) -> (status: RoundStatus)
        requires
            spec_wf(old(self)@),
        ensures
            spec_wf(final(self)@),
            (final(self)@, status) == spec_advance(old(self)@),
            final(self)@.tape.len() == old(self)@.tape.len(),
    {
        if let Some(result) = self.decided {
            return RoundStatus::Decided(result);
        }
        if self.exceeded_max_steps() || self.both_programs_ended() {
            let result = self.generate_result();
            self.decided = Some(result);
            proof {
                assert(self@ =~= spec_advance(old(self)@).0);
            }
            return RoundStatus::Decided(result);
        }
        let flag_a_previously_zeroed = self.flag_a_zeroed();
        let flag_b_previously_zeroed = self.flag_b_zeroed();
        self.step();
        proof {
            lemma_step_bot_facts(old(self)@.start_bot, old(self)@.tape);
            lemma_step_bot_facts(old(self)@.end_bot, old(self)@.tape);
        }
        if self.has_loser(flag_a_previously_zeroed, flag_b_previously_zeroed) {
            let result = self.generate_result();
            self.decided = Some(result);
            proof {
                assert(self@ =~= spec_advance(old(self)@).0);
            }
            RoundStatus::Decided(result)
        } else {
            RoundStatus::Running
        }
    }
}

/// Facts the engine needs about one contestant's half-tick: the instruction
/// pointer stays non-negative, and a deferred write always targets the cell
/// the contestant stood on, which lies on the tape.
proof fn lemma_step_bot_facts(b: BotInPlayView, tape: Seq<i8>)
    requires
        0 <= b.code_pointer,
        spec_on_tape_or_ended(b, tape.len() as int),
    ensures
        0 <= spec_step_bot(b, tape).0.code_pointer,
        spec_step_bot(b, tape).1 matches Some(m) ==> 0 <= m.index < tape.len(),
{
}

/// A contestant whose program has ended stays ended across any half-tick: it
/// neither executes nor moves again.
pub proof fn lemma_ended_program_stays_ended(b: BotInPlayView, tape: Seq<i8>)
    requires
        spec_ended(b),
    ensures
        spec_step_bot(b, tape).0 == b,
        spec_step_bot(b, tape).1 is None,
{
}

/// With a step budget of zero, the very first `advance` of a fresh round
/// decides at once, and neither contestant is marked as having lost, whatever
/// the two programs are: flag A starts at the most negative value, not at
/// zero.
pub proof fn lemma_zero_budget_decides_first_advance(
    program1: Seq<Instruction>,
    program2: Seq<Instruction>,
    params: RoundParams,
)
    requires
        2 <= params.tape_length,
        params.max_steps == 0,
    ensures
        spec_advance(spec_initial(program1, program2, params)).1 == RoundStatus::Decided(
            (RoundResult { contestant_a_lost: false, contestant_b_lost: false }),
        ),
{
    assert(spec_init_tape(params.tape_length as int)[0] == i8::MIN);
}

/// Two contestants whose programs are empty have both ended before the first
/// tick, so the very first `advance` of a fresh round decides, whatever the
/// step budget; and since flag A still holds its initial, non-zero value,
/// neither contestant is marked as having lost.
pub proof fn lemma_empty_programs_decide_first_advance(
    program1: Seq<Instruction>,
    program2: Seq<Instruction>,
    params: RoundParams,
)
    requires
        2 <= params.tape_length,
        program1.len() == 0,
        program2.len() == 0,
    ensures
        spec_advance(spec_initial(program1, program2, params)).1 == RoundStatus::Decided(
            (RoundResult { contestant_a_lost: false, contestant_b_lost: false }),
        ),
{
    assert(spec_init_tape(params.tape_length as int)[0] == i8::MIN);
}

/// An idle program: more than one instruction, all of them `DoNothing`.
pub open spec fn spec_idle_program(program: Seq<Instruction>) -> bool {
    &&& program.len() > 1
    &&& forall|i: int| 0 <= i < program.len() ==> program[i] == Instruction::DoNothing
}

/// With a step budget of one and two idle programs of more than one
/// instruction, the first `advance` of a fresh round runs a tick and reports
/// the round still running, and the second finds the budget spent and
/// decides; flag A never left its initial, non-zero value, so neither
/// contestant is marked as having lost.
pub proof fn lemma_one_step_budget_decides_on_second_advance(
    program1: Seq<Instruction>,
    program2: Seq<Instruction>,
    params: RoundParams,
)
    requires
        2 <= params.tape_length,
        params.max_steps == 1,
        spec_idle_program(program1),
        spec_idle_program(program2),
    ensures
        spec_advance(spec_initial(program1, program2, params)).1 == RoundStatus::Running,
        spec_advance(spec_advance(spec_initial(program1, program2, params)).0).1
            == RoundStatus::Decided(
            (RoundResult { contestant_a_lost: false, contestant_b_lost: false }),
        ),
{
    let a = spec_initial(program1, program2, params);
    assert(a.tape[0] == i8::MIN);
    assert(a.tape[a.tape.len() - 1] == i8::MIN);
    assert(program1[0] == Instruction::DoNothing);
    assert(program2[0] == Instruction::DoNothing);
    let ticked = spec_step(a);
    assert(ticked.tape == a.tape);
    assert(!spec_has_loser(ticked, false, false));
    assert(spec_advance(a) == (ticked, RoundStatus::Running));
}

/// A contestant leaves the tape untouched this tick: either its program has
/// ended, or the instruction it is about to execute produces no deferred
/// write.
pub open spec fn spec_writes_nothing(b: BotInPlayView, tape: Seq<i8>) -> bool {
    spec_step_bot(b, tape).1 is None
}

/// A tape that is all zero at the start of a tick, both flag cells included,
/// decides that very tick with a mutual loss, provided neither contestant
/// writes to the tape during it: flag A then reads exactly zero both before
/// and after the tick, so the sustained-zero loss condition holds and the
/// verdict marks both contestants as having lost.
///
/// The proviso is needed: a contestant whose pending instruction writes to
/// flag cell A would lift that cell off zero within the tick, and the verdict
/// would mark neither contestant instead.
pub proof fn lemma_all_zero_tape_decides_mutual_loss(a: ArenaView)
    requires
        a.decided is None,
        2 <= a.tape.len(),
        forall|i: int| 0 <= i < a.tape.len() ==> a.tape[i] == 0i8,
        spec_writes_nothing(a.start_bot, a.tape),
        spec_writes_nothing(a.end_bot, a.tape),
    ensures
        spec_advance(a).1 == RoundStatus::Decided(
            (RoundResult { contestant_a_lost: true, contestant_b_lost: true }),
        ),
{
    assert(a.tape[0] == 0);
    assert(a.tape[a.tape.len() - 1] == 0);
}

/// Applying the two deferred writes of one tick in either order yields the
/// same tape: wraparound addition commutes, so even two writes to the same
/// cell are order-independent. Together with the tick protocol itself, which
/// hands both contestants the same pre-tick tape, this makes the engine's
/// choice of application order unobservable.
pub proof fn lemma_mutation_order_independent(
    tape: Seq<i8>,
    mutation1: Option<Mutation>,
    mutation2: Option<Mutation>,
)
    requires
        mutation1 matches Some(m) ==> 0 <= m.index < tape.len(),
        mutation2 matches Some(m) ==> 0 <= m.index < tape.len(),
    ensures
        spec_apply_mutation(spec_apply_mutation(tape, mutation1), mutation2)
            == spec_apply_mutation(spec_apply_mutation(tape, mutation2), mutation1),
{
    if mutation1 matches Some(m1) && mutation2 matches Some(m2) {
        assert(spec_apply_mutation(spec_apply_mutation(tape, mutation1), mutation2)
            =~= spec_apply_mutation(spec_apply_mutation(tape, mutation2), mutation1));
    }
}

/// The engine applies the two deferred writes of a tick in slot order, first
/// contestant's first; this shows the opposite order would have produced the
/// very same tape. Since both contestants also execute against the same
/// pre-tick tape, nothing the engine exposes depends on the order within a
/// tick.
pub proof fn lemma_tick_write_order_unobservable(a: ArenaView)
    requires
        0 <= a.start_bot.code_pointer,
        0 <= a.end_bot.code_pointer,
        spec_on_tape_or_ended(a.start_bot, a.tape.len() as int),
        spec_on_tape_or_ended(a.end_bot, a.tape.len() as int),
    ensures
        spec_step(a).tape == spec_apply_mutation(
            spec_apply_mutation(a.tape, spec_step_bot(a.end_bot, a.tape).1),
            spec_step_bot(a.start_bot, a.tape).1,
        ),
{
    lemma_step_bot_facts(a.start_bot, a.tape);
    lemma_step_bot_facts(a.end_bot, a.tape);
    lemma_mutation_order_independent(
        a.tape,
        spec_step_bot(a.start_bot, a.tape).1,
        spec_step_bot(a.end_bot, a.tape).1,
    );
}

/// The outcomes of the first `n` calls of `advance`, in order, from a given
/// round state.
pub open spec fn spec_trace(a: ArenaView, n: nat) -> Seq<RoundStatus>
    decreases n,
{
    if n == 0 {
        Seq::empty()
    } else {
        let advanced = spec_advance(a);
        seq![advanced.1] + spec_trace(advanced.0, (n - 1) as nat)
    }
}

/// Full determinism of a round: two rounds built from the same parameters and
/// the same two programs produce, call for call, the same sequence of
/// outcomes; there is no hidden randomness anywhere in the engine.
pub proof fn lemma_round_trip_deterministic(
    program1: Seq<Instruction>,
    program2: Seq<Instruction>,
    params: RoundParams,
    a1: ArenaView,
    a2: ArenaView,
    n: nat,
)
    requires
        a1 == spec_initial(program1, program2, params),
        a2 == spec_initial(program1, program2, params),
    ensures
        spec_trace(a1, n) == spec_trace(a2, n),
{
}

} // verus!
