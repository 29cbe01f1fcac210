use bf_bot_core::arena::{Arena, RoundStatus};
use bf_bot_core::bot::{Bot, Instruction};
use bf_bot_core::round::{RoundParams, RoundResult};

/// Constructs a Bot with an empty program.
fn make_empty_bot() -> Bot {
    Bot::new(vec![])
}

/// Constructs a Bot that waits three turns and then terminates its program.
fn make_bot_idle_three_turns() -> Bot {
    Bot::new(vec![
        Instruction::DoNothing,
        Instruction::DoNothing,
        Instruction::DoNothing,
    ])
}

fn make_round_params(max_steps: u32) -> RoundParams {
    RoundParams {
        tape_length: 10,
        invert_polarity: false,
        max_steps,
    }
}

#[test]
#[allow(non_snake_case)]
fn arena_maxStepsIsZero_returnsRoundResultRightAwayNeitherBotLoses() {
    let round_params = make_round_params(0);
    let bot_a = make_bot_idle_three_turns();
    let bot_b = make_bot_idle_three_turns();
    let mut arena = Arena::new(&bot_a, &bot_b, &round_params);
    assert_eq!(
        arena.advance(),
        RoundStatus::Decided(RoundResult::new(false, false))
    );
}

#[test]
#[allow(non_snake_case)]
fn iterator_maxStepsIsOne_returnsRoundResultOnSecondCall() {
    let round_params = make_round_params(1);
    let bot_a = make_bot_idle_three_turns();
    let bot_b = make_bot_idle_three_turns();
    let mut arena = Arena::new(&bot_a, &bot_b, &round_params);
    assert_eq!(arena.advance(), RoundStatus::Running);
    assert!(matches!(arena.advance(), RoundStatus::Decided(_)));
}

#[test]
#[allow(non_snake_case)]
fn iterator_bothEmptyBots_returnsRoundResultRightAway() {
    let round_params = make_round_params(100_000);
    let bot_a = make_empty_bot();
    let bot_b = make_empty_bot();
    let mut arena = Arena::new(&bot_a, &bot_b, &round_params);
    assert!(matches!(arena.advance(), RoundStatus::Decided(_)));
}

#[test]
#[allow(non_snake_case)]
fn iterator_bothFlagsStartAtZero_bothBotsLoseInFirstStep() {
    let round_params = make_round_params(1);
    let bot_a = make_bot_idle_three_turns();
    let bot_b = make_bot_idle_three_turns();
    let mut arena = Arena::new(&bot_a, &bot_b, &round_params);
    arena.set_tape(vec![0i8; round_params.tape_length]);
    assert_eq!(
        arena.advance(),
        RoundStatus::Decided(RoundResult::new(true, true))
    );
}

#[test]
fn construction_initializes_flag_cells_and_zeroes_the_rest() {
    for tape_length in [2usize, 3, 10, 100] {
        let round_params = RoundParams {
            tape_length,
            invert_polarity: false,
            max_steps: 1,
        };
        let arena = Arena::new(&make_empty_bot(), &make_empty_bot(), &round_params);
        let tape = arena.get_tape();
        assert_eq!(tape.len(), tape_length);
        assert_eq!(tape[0], i8::MIN);
        assert_eq!(tape[tape_length - 1], i8::MIN);
        for i in 1..tape_length - 1 {
            assert_eq!(tape[i], 0i8);
        }
    }
}

#[test]
fn empty_programs_decide_right_away_with_neither_bot_losing() {
    let round_params = make_round_params(100_000);
    let mut arena = Arena::new(&make_empty_bot(), &make_empty_bot(), &round_params);
    assert_eq!(
        arena.advance(),
        RoundStatus::Decided(RoundResult::new(false, false))
    );
}

#[test]
fn increment_adds_one_to_the_current_cell_with_wraparound() {
    let bot_a = Bot::new(vec![Instruction::Increment]);
    let bot_b = make_empty_bot();
    let round_params = make_round_params(5);
    let mut arena = Arena::new(&bot_a, &bot_b, &round_params);
    assert_eq!(arena.advance(), RoundStatus::Running);
    // Flag A held the most negative value; one increment moves it up by one.
    assert_eq!(arena.get_tape()[0], -127i8);
}

#[test]
fn increment_wraps_the_most_positive_value_to_the_most_negative() {
    let bot_a = Bot::new(vec![Instruction::Increment]);
    let bot_b = make_empty_bot();
    let round_params = make_round_params(5);
    let mut arena = Arena::new(&bot_a, &bot_b, &round_params);
    let mut forced = vec![0i8; 10];
    forced[0] = i8::MAX;
    forced[9] = 3;
    arena.set_tape(forced);
    assert_eq!(arena.advance(), RoundStatus::Running);
    assert_eq!(arena.get_tape()[0], i8::MIN);
}

#[test]
fn decrement_wraps_the_most_negative_value_to_the_most_positive() {
    let bot_a = Bot::new(vec![Instruction::Decrement]);
    let bot_b = make_empty_bot();
    let round_params = make_round_params(5);
    let mut arena = Arena::new(&bot_a, &bot_b, &round_params);
    assert_eq!(arena.advance(), RoundStatus::Running);
    assert_eq!(arena.get_tape()[0], i8::MAX);
}

#[test]
fn inverted_polarity_flips_the_second_bots_increment() {
    let bot_a = make_empty_bot();
    let bot_b = Bot::new(vec![Instruction::Increment]);
    let round_params = RoundParams {
        tape_length: 10,
        invert_polarity: true,
        max_steps: 5,
    };
    let mut arena = Arena::new(&bot_a, &bot_b, &round_params);
    assert_eq!(arena.advance(), RoundStatus::Running);
    // Flag B held the most negative value; an inverted increment subtracts
    // one, wrapping it to the most positive value.
    assert_eq!(arena.get_tape()[9], i8::MAX);
}

#[test]
fn second_bot_starts_at_the_high_end_and_moves_inward() {
    let bot_a = make_empty_bot();
    let bot_b = Bot::new(vec![Instruction::MoveForward, Instruction::Increment]);
    let round_params = make_round_params(5);
    let mut arena = Arena::new(&bot_a, &bot_b, &round_params);
    assert_eq!(arena.advance(), RoundStatus::Running);
    assert_eq!(arena.advance(), RoundStatus::Running);
    assert_eq!(arena.get_tape()[8], 1i8);
}

#[test]
fn same_tick_writes_to_one_cell_both_apply() {
    // On a two-cell tape the bots start next to each other. After the first
    // tick both stand on cell 1: bot A moved forward, bot B idled on its flag.
    let bot_a = Bot::new(vec![Instruction::MoveForward, Instruction::Increment]);
    let bot_b = Bot::new(vec![Instruction::DoNothing, Instruction::Increment]);
    let round_params = RoundParams {
        tape_length: 2,
        invert_polarity: false,
        max_steps: 5,
    };
    let mut arena = Arena::new(&bot_a, &bot_b, &round_params);
    assert_eq!(arena.advance(), RoundStatus::Running);
    // Both bots now read cell 1's pre-tick value and both deferred writes
    // land: the cell moves up by two in one tick.
    assert_eq!(arena.advance(), RoundStatus::Running);
    assert_eq!(arena.get_tape()[1], -126i8);
}

#[test]
fn moving_off_the_tape_ends_the_round() {
    let bot_a = Bot::new(vec![Instruction::MoveBack]);
    let bot_b = make_bot_idle_three_turns();
    let round_params = make_round_params(100);
    let mut arena = Arena::new(&bot_a, &bot_b, &round_params);
    // Flag A is still at its initial, non-zero value, so nobody is marked as
    // having lost even though the round ends.
    assert_eq!(
        arena.advance(),
        RoundStatus::Decided(RoundResult::new(false, false))
    );
}

#[test]
fn backward_jump_keeps_a_program_running_until_the_budget_ends_it() {
    // Bot A spins: its jump leads back into the program whenever its cell is
    // not zero, so its program never ends and only the budget stops the round.
    let bot_a = Bot::new(vec![Instruction::DoNothing, Instruction::JumpIfNonZero(0)]);
    let bot_b = make_empty_bot();
    let round_params = make_round_params(3);
    let mut arena = Arena::new(&bot_a, &bot_b, &round_params);
    assert_eq!(arena.advance(), RoundStatus::Running);
    assert_eq!(arena.advance(), RoundStatus::Running);
    assert_eq!(arena.advance(), RoundStatus::Running);
    assert_eq!(
        arena.advance(),
        RoundStatus::Decided(RoundResult::new(false, false))
    );
}

#[test]
fn jump_if_zero_is_not_taken_on_a_non_zero_cell() {
    let bot_a = Bot::new(vec![Instruction::JumpIfZero(3), Instruction::Increment]);
    let bot_b = make_empty_bot();
    let round_params = make_round_params(10);
    let mut arena = Arena::new(&bot_a, &bot_b, &round_params);
    // Flag A is not zero, so the jump falls through and the increment runs.
    assert_eq!(arena.advance(), RoundStatus::Running);
    assert_eq!(arena.advance(), RoundStatus::Running);
    assert_eq!(arena.get_tape()[0], -127i8);
}

#[test]
fn jump_if_zero_is_taken_on_a_zero_cell() {
    // Bot A walks onto the zero cell next to its flag; the jump then leads
    // past the end of the program, ending it before the increment ever runs.
    let bot_a = Bot::new(vec![
        Instruction::MoveForward,
        Instruction::JumpIfZero(4),
        Instruction::Increment,
        Instruction::DoNothing,
        Instruction::DoNothing,
    ]);
    let bot_b = make_empty_bot();
    let round_params = make_round_params(100);
    let mut arena = Arena::new(&bot_a, &bot_b, &round_params);
    assert_eq!(arena.advance(), RoundStatus::Running);
    assert_eq!(arena.advance(), RoundStatus::Running);
    // Both programs have now ended, so the next call decides; the skipped
    // increment never touched cell 1.
    assert_eq!(
        arena.advance(),
        RoundStatus::Decided(RoundResult::new(false, false))
    );
    assert_eq!(arena.get_tape()[1], 0i8);
}

#[test]
fn identical_rounds_produce_identical_outcomes_tick_for_tick() {
    let program = vec![
        Instruction::Increment,
        Instruction::MoveForward,
        Instruction::Increment,
        Instruction::JumpIfNonZero(1),
    ];
    let round_params = make_round_params(7);
    let mut first = Arena::new(&Bot::new(program.clone()), &make_bot_idle_three_turns(), &round_params);
    let mut second = Arena::new(&Bot::new(program), &make_bot_idle_three_turns(), &round_params);
    for _ in 0..8 {
        assert_eq!(first.advance(), second.advance());
        assert_eq!(first.get_tape(), second.get_tape());
    }
}

#[test]
fn a_decided_round_latches_its_verdict() {
    let round_params = make_round_params(0);
    let mut arena = Arena::new(&make_bot_idle_three_turns(), &make_bot_idle_three_turns(), &round_params);
    let first = arena.advance();
    assert_eq!(first, RoundStatus::Decided(RoundResult::new(false, false)));
    let tape_after = arena.get_tape().clone();
    assert_eq!(arena.advance(), first);
    assert_eq!(arena.get_tape(), &tape_after);
}
