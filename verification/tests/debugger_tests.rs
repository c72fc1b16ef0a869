use invaders8080::debugger::{
    command_code, parse_command, run_steps, run_until, Command, Relation, RunEnd,
};
use invaders8080::state8080::State8080;

fn machine(program: &[u8]) -> State8080 {
    let mut state = State8080::default();
    assert!(state.load_rom(program));
    state
}

#[test]
fn empty_line_is_a_step() {
    assert_eq!(parse_command(b""), Command::Step);
    assert_eq!(parse_command(b"   "), Command::Step);
    assert_eq!(parse_command(b"\n"), Command::Step);
    assert_eq!(parse_command(b" \t\r\n"), Command::Step);
}

#[test]
fn commands_without_argument() {
    assert_eq!(parse_command(b"quit"), Command::Quit);
    assert_eq!(parse_command(b"  QUIT  \n"), Command::Quit);
    assert_eq!(parse_command(b"Quit now"), Command::Quit);
    assert_eq!(parse_command(b"status"), Command::Status);
    assert_eq!(parse_command(b"STATUS\n"), Command::Status);
    assert_eq!(parse_command(b"help"), Command::Help);
    assert_eq!(parse_command(b"\thelp me"), Command::Help);
}

#[test]
fn unknown_words() {
    assert_eq!(parse_command(b"foo"), Command::Unknown);
    assert_eq!(parse_command(b"quitx"), Command::Unknown);
    assert_eq!(parse_command(b"qui"), Command::Unknown);
    assert_eq!(parse_command(b"runs 5"), Command::Unknown);
    assert_eq!(parse_command(b"r"), Command::Unknown);
    assert_eq!(parse_command(b"statu"), Command::Unknown);
    assert_eq!(parse_command(b"q\x00it"), Command::Unknown);
    assert_eq!(parse_command(b"5"), Command::Unknown);
}

#[test]
fn run_with_a_count() {
    assert_eq!(parse_command(b"run 5"), Command::Run(5));
    assert_eq!(parse_command(b"run 0"), Command::Run(0));
    assert_eq!(parse_command(b"RUN 10\n"), Command::Run(10));
    assert_eq!(parse_command(b"\trun\t1000\r\n"), Command::Run(1000));
    assert_eq!(parse_command(b"run 5 6"), Command::Run(5));
    assert_eq!(parse_command(b"run +7"), Command::Run(7));
    assert_eq!(parse_command(b"run -3"), Command::Run(-3));
    assert_eq!(parse_command(b"run 007"), Command::Run(7));
    assert_eq!(parse_command(b"run 2147483647"), Command::Run(2147483647));
    assert_eq!(parse_command(b"run -2147483648"), Command::Run(-2147483648));
    assert_eq!(parse_command(b"run 00000000000000000012"), Command::Run(12));
}

#[test]
fn run_with_no_number_counts_as_zero() {
    assert_eq!(parse_command(b"run abc"), Command::Run(0));
    assert_eq!(parse_command(b"run 2147483648"), Command::Run(0));
    assert_eq!(parse_command(b"run -2147483649"), Command::Run(0));
    assert_eq!(parse_command(b"run 99999999999999999999999"), Command::Run(0));
    assert_eq!(parse_command(b"run 5x"), Command::Run(0));
    assert_eq!(parse_command(b"run +"), Command::Run(0));
    assert_eq!(parse_command(b"run -"), Command::Run(0));
    assert_eq!(parse_command(b"run --1"), Command::Run(0));
    assert_eq!(parse_command(b"run 1.5"), Command::Run(0));
}

#[test]
fn run_without_a_count() {
    assert_eq!(parse_command(b"run"), Command::RunMissingArgument);
    assert_eq!(parse_command(b"run   \n"), Command::RunMissingArgument);
}

#[test]
fn conditions() {
    assert_eq!(parse_command(b"cnd a=5"), Command::Until('a', Relation::Equal, 5));
    assert_eq!(parse_command(b"cnd B<255"), Command::Until('b', Relation::Less, 255));
    assert_eq!(parse_command(b"CND H>0\n"), Command::Until('h', Relation::Greater, 0));
    assert_eq!(parse_command(b"cnd c=+17"), Command::Until('c', Relation::Equal, 17));
    assert_eq!(parse_command(b"cnd d=001"), Command::Until('d', Relation::Equal, 1));
    assert_eq!(parse_command(b"cnd e=9 x"), Command::Until('e', Relation::Equal, 9));
    assert_eq!(parse_command(b"cnd l=200"), Command::Until('l', Relation::Equal, 200));
}

#[test]
fn conditions_that_are_refused() {
    assert_eq!(parse_command(b"cnd"), Command::ConditionMissingArgument);
    assert_eq!(parse_command(b"cnd  \n"), Command::ConditionMissingArgument);
    assert_eq!(parse_command(b"cnd a"), Command::ConditionInvalidFormat);
    assert_eq!(parse_command(b"cnd a5"), Command::ConditionInvalidFormat);
    assert_eq!(parse_command(b"cnd =5"), Command::ConditionInvalidFormat);
    assert_eq!(parse_command(b"cnd <"), Command::ConditionInvalidFormat);
    assert_eq!(parse_command(b"cnd a=256"), Command::ConditionInvalidValue);
    assert_eq!(parse_command(b"cnd a="), Command::ConditionInvalidValue);
    assert_eq!(parse_command(b"cnd a=-1"), Command::ConditionInvalidValue);
    assert_eq!(parse_command(b"cnd a==5"), Command::ConditionInvalidValue);
    assert_eq!(parse_command(b"cnd a=0x10"), Command::ConditionInvalidValue);
    assert_eq!(parse_command(b"cnd x=abc"), Command::ConditionInvalidValue);
    assert_eq!(parse_command(b"cnd a= 5"), Command::ConditionInvalidValue);
    assert_eq!(parse_command(b"cnd x=5"), Command::ConditionInvalidRegister);
    assert_eq!(parse_command(b"cnd f=5"), Command::ConditionInvalidRegister);
    assert_eq!(parse_command(b"cnd ab=5"), Command::ConditionInvalidRegister);
    assert_eq!(parse_command(b"cnd 1=5"), Command::ConditionInvalidRegister);
}

#[test]
fn codes_for_the_prompt() {
    assert_eq!(command_code(Command::Quit), -1);
    assert_eq!(command_code(Command::Step), 0);
    assert_eq!(command_code(Command::Run(3)), 0);
    assert_eq!(command_code(Command::RunMissingArgument), 0);
    assert_eq!(command_code(Command::Until('a', Relation::Equal, 1)), 0);
    assert_eq!(command_code(Command::ConditionMissingArgument), 0);
    assert_eq!(command_code(Command::ConditionInvalidFormat), 0);
    assert_eq!(command_code(Command::ConditionInvalidValue), 0);
    assert_eq!(command_code(Command::ConditionInvalidRegister), 0);
    assert_eq!(command_code(Command::Status), 1);
    assert_eq!(command_code(Command::Help), 1);
    assert_eq!(command_code(Command::Unknown), 1);
}

#[test]
fn run_steps_counts_instructions() {
    // INR A; INR A; INR A; INR A
    let mut state = machine(&[0x3C, 0x3C, 0x3C, 0x3C]);
    assert_eq!(run_steps(&mut state, 0), RunEnd::Finished);
    assert_eq!(state.get_pc(), 0);
    assert_eq!(run_steps(&mut state, 3), RunEnd::Finished);
    assert_eq!(state.get_pc(), 3);
    assert_eq!(State8080::get_reg(&state, 'a'), 3);
    assert_eq!(run_steps(&mut state, 1), RunEnd::Finished);
    assert_eq!(State8080::get_reg(&state, 'a'), 4);
}

#[test]
fn run_steps_stops_at_unimplemented_opcode() {
    // INR A; INR A; HLT
    let mut state = machine(&[0x3C, 0x3C, 0x76, 0x3C]);
    assert_eq!(run_steps(&mut state, 5), RunEnd::Unimplemented(0x76));
    assert_eq!(state.get_pc(), 2);
    assert_eq!(State8080::get_reg(&state, 'a'), 2);
    assert_eq!(run_steps(&mut state, 1), RunEnd::Unimplemented(0x76));
    assert_eq!(state.get_pc(), 2);
    // exactly as many as run before the opcode
    let mut state = machine(&[0x3C, 0x3C, 0x76]);
    assert_eq!(run_steps(&mut state, 2), RunEnd::Finished);
    assert_eq!(state.get_pc(), 2);
}

#[test]
fn run_until_register_holds_value() {
    // INR A; INR B; INR B; JMP 0000
    let mut state = machine(&[0x3C, 0x04, 0x04, 0xC3, 0x00, 0x00]);
    assert_eq!(run_until(&mut state, 'a', 5, 1000), RunEnd::Finished);
    assert_eq!(State8080::get_reg(&state, 'a'), 5);
    assert_eq!(State8080::get_reg(&state, 'b'), 8);
    assert_eq!(state.get_pc(), 1);
    // already there: nothing runs
    assert_eq!(run_until(&mut state, 'a', 5, 1000), RunEnd::Finished);
    assert_eq!(state.get_pc(), 1);
    assert_eq!(run_until(&mut state, 'b', 10, 1000), RunEnd::Finished);
    assert_eq!(State8080::get_reg(&state, 'b'), 10);
    assert_eq!(state.get_pc(), 3);
    assert_eq!(State8080::get_reg(&state, 'a'), 5);
}

#[test]
fn run_until_gives_up() {
    // JMP 0000
    let mut state = machine(&[0xC3, 0x00, 0x00]);
    assert_eq!(run_until(&mut state, 'c', 1, 10), RunEnd::OutOfSteps);
    assert_eq!(state.get_pc(), 0);
    assert_eq!(run_until(&mut state, 'c', 1, 0), RunEnd::OutOfSteps);
    // INR D; INR D; opcode 08
    let mut state = machine(&[0x14, 0x14, 0x08]);
    assert_eq!(run_until(&mut state, 'd', 3, 10), RunEnd::Unimplemented(0x08));
    assert_eq!(state.get_pc(), 2);
    assert_eq!(State8080::get_reg(&state, 'd'), 2);
    let mut state = machine(&[0x14, 0x14, 0x08]);
    assert_eq!(run_until(&mut state, 'd', 2, 2), RunEnd::Finished);
    let mut state = machine(&[0x14, 0x14, 0x08]);
    assert_eq!(run_until(&mut state, 'd', 2, 1), RunEnd::OutOfSteps);
    assert_eq!(State8080::get_reg(&state, 'd'), 1);
}
