//! The debugger's commands: how a line of text is read as a command, and
//! how the commands that run the machine run it.

use vstd::prelude::*;
use crate::isa::implemented;
use crate::machine::{is_register_name, Machine};
use crate::state8080::{emulate_8080_op, is_implemented, State8080};

verus! {

/// The relation written in a condition.
#[derive(Clone, Copy, Debug, PartialEq, Eq, Structural)]
pub enum Relation {
    Equal,
    Less,
    Greater,
}

/// What a line of input asks for.
#[derive(Clone, Copy, Debug, PartialEq, Eq, Structural)]
pub enum Command {
    /// An empty line.
    Step,
    /// `quit`
    Quit,
    /// `run N`; an `N` that is no number counts as 0.
    Run(i32),
    /// `run` without `N`.
    RunMissingArgument,
    /// `cnd <reg><op><value>`: run until the register holds the value.
    Until(char, Relation, u8),
    /// `cnd` without a condition.
    ConditionMissingArgument,
    /// A condition without `=`, `<` or `>`, or with nothing before it.
    ConditionInvalidFormat,
    /// A condition whose value is no number from 0 to 255.
    ConditionInvalidValue,
    /// A condition on something other than one of `a b c d e h l`.
    ConditionInvalidRegister,
    /// `status`
    Status,
    /// `help`
    Help,
    /// Any other word.
    Unknown,
}

/// How a run of the machine ended.
#[derive(Clone, Copy, Debug, PartialEq, Eq, Structural)]
pub enum RunEnd {
    /// Every instruction asked for ran, or the condition was reached.
    Finished,
    /// The allowance of instructions ran out before the condition held.
    OutOfSteps,
    /// PC came to an opcode that the interpreter does not execute.
    Unimplemented(u8),
}

/// The letters of `quit`.
pub const WORD_QUIT: [u8; 4] = [0x71, 0x75, 0x69, 0x74];

/// The letters of `run`.
pub const WORD_RUN: [u8; 3] = [0x72, 0x75, 0x6E];

/// The letters of `cnd`.
pub const WORD_CND: [u8; 3] = [0x63, 0x6E, 0x64];

/// The letters of `status`.
pub const WORD_STATUS: [u8; 6] = [0x73, 0x74, 0x61, 0x74, 0x75, 0x73];

/// The letters of `help`.
pub const WORD_HELP: [u8; 4] = [0x68, 0x65, 0x6C, 0x70];

/// Whether a byte is ASCII white space.
pub open spec fn is_space(b: u8) -> bool {
    b == 0x20 || (0x09 <= b && b <= 0x0D)
}

/// Whether a byte is a decimal digit.
pub open spec fn is_digit(b: u8) -> bool {
    0x30 <= b && b <= 0x39
}

/// Whether a byte is one of `=`, `<`, `>`.
pub open spec fn is_relation(b: u8) -> bool {
    b == 0x3D || b == 0x3C || b == 0x3E
}

/// The relation that one of `=`, `<`, `>` stands for.
pub open spec fn relation_of(b: u8) -> Relation {
    if b == 0x3C {
        Relation::Less
    } else if b == 0x3E {
        Relation::Greater
    } else {
        Relation::Equal
    }
}

/// A byte with an ASCII capital turned into its small letter.
pub open spec fn lower(b: u8) -> u8 {
    if 0x41 <= b && b <= 0x5A {
        (b + 0x20) as u8
    } else {
        b
    }
}

/// A text with every ASCII capital turned into its small letter.
pub open spec fn lowered(s: Seq<u8>) -> Seq<u8> {
    s.map_values(|b: u8| lower(b))
}

/// The first index from `i` on that holds no white space, or the length.
pub open spec fn skip_spaces(s: Seq<u8>, i: int) -> int
    decreases s.len() - i,
{
    if 0 <= i < s.len() && is_space(s[i]) {
        skip_spaces(s, i + 1)
    } else {
        i
    }
}

/// The first index from `i` on that holds white space, or the length.
pub open spec fn skip_word(s: Seq<u8>, i: int) -> int
    decreases s.len() - i,
{
    if 0 <= i < s.len() && !is_space(s[i]) {
        skip_word(s, i + 1)
    } else {
        i
    }
}

/// The first index from `i` on that holds one of `=`, `<`, `>`, or the
/// length.
pub open spec fn find_relation(s: Seq<u8>, i: int) -> int
    decreases s.len() - i,
{
    if 0 <= i < s.len() && !is_relation(s[i]) {
        find_relation(s, i + 1)
    } else {
        i
    }
}

/// The word that starts at `i`: the bytes up to the next white space.
pub open spec fn word_at(s: Seq<u8>, i: int) -> Seq<u8> {
    s.subrange(i, skip_word(s, i))
}

/// Where the first word of a line starts.
pub open spec fn first_start(s: Seq<u8>) -> int {
    skip_spaces(s, 0)
}

/// Where the second word of a line starts.
pub open spec fn second_start(s: Seq<u8>) -> int {
    skip_spaces(s, skip_word(s, first_start(s)))
}

/// The number that a text of decimal digits writes.
pub open spec fn digits_value(s: Seq<u8>) -> int
    decreases s.len(),
{
    if s.len() == 0 {
        0
    } else {
        digits_value(s.drop_last()) * 10 + (s.last() - 0x30)
    }
}

/// Whether every byte is a decimal digit.
pub open spec fn all_digits(s: Seq<u8>) -> bool {
    forall|i: int| 0 <= i < s.len() ==> is_digit(#[trigger] s[i])
}

/// The number that `s` writes, if `s` is one or more decimal digits and
/// the number is at most `max`.
pub open spec fn parse_unsigned(s: Seq<u8>, max: int) -> Option<int> {
    if s.len() > 0 && all_digits(s) && digits_value(s) <= max {
        Some(digits_value(s))
    } else {
        None
    }
}

/// `s` without a `+` in front.
pub open spec fn without_plus(s: Seq<u8>) -> Seq<u8> {
    if s.len() > 0 && s[0] == 0x2B {
        s.drop_first()
    } else {
        s
    }
}

/// A number from 0 to 255 in decimal, with or without a `+` in front.
pub open spec fn parse_u8(s: Seq<u8>) -> Option<u8> {
    match parse_unsigned(without_plus(s), 0xFF) {
        Some(v) => Some(v as u8),
        None => None,
    }
}

/// A number that fits 32 bits with a sign, in decimal, with or without a
/// `+` or `-` in front.
pub open spec fn parse_i32(s: Seq<u8>) -> Option<i32> {
    if s.len() > 0 && s[0] == 0x2D {
        match parse_unsigned(s.drop_first(), 0x8000_0000) {
            Some(v) => Some((-v) as i32),
            None => None,
        }
    } else {
        match parse_unsigned(without_plus(s), 0x7FFF_FFFF) {
            Some(v) => Some(v as i32),
            None => None,
        }
    }
}

/// The register that a byte names, in either case.
pub open spec fn register_named(b: u8) -> Option<char> {
    let c = lower(b);
    if c == 0x61 {
        Some('a')
    } else if c == 0x62 {
        Some('b')
    } else if c == 0x63 {
        Some('c')
    } else if c == 0x64 {
        Some('d')
    } else if c == 0x65 {
        Some('e')
    } else if c == 0x68 {
        Some('h')
    } else if c == 0x6C {
        Some('l')
    } else {
        None
    }
}

/// What a condition `<reg><op><value>` asks for. The condition is split
/// at its first `=`, `<` or `>`.
pub open spec fn condition_of(w: Seq<u8>) -> Command {
    let k = find_relation(w, 0);
    if k >= w.len() || k == 0 {
        Command::ConditionInvalidFormat
    } else {
        match parse_u8(w.subrange(k + 1, w.len() as int)) {
            None => Command::ConditionInvalidValue,
            Some(value) => match register_named(w[0]) {
                Some(name) => if k == 1 {
                    Command::Until(name, relation_of(w[k]), value)
                } else {
                    Command::ConditionInvalidRegister
                },
                None => Command::ConditionInvalidRegister,
            },
        }
    }
}

/// What a line asks for. The line is read as words between white space;
/// the first word is the command, in either case, and the second its
/// argument.
pub open spec fn command_of(line: Seq<u8>) -> Command {
    let name = lowered(word_at(line, first_start(line)));
    let argument = word_at(line, second_start(line));
    if name.len() == 0 {
        Command::Step
    } else if name == WORD_QUIT@ {
        Command::Quit
    } else if name == WORD_RUN@ {
        if argument.len() == 0 {
            Command::RunMissingArgument
        } else {
            match parse_i32(argument) {
                Some(n) => Command::Run(n),
                None => Command::Run(0),
            }
        }
    } else if name == WORD_CND@ {
        if argument.len() == 0 {
            Command::ConditionMissingArgument
        } else {
            condition_of(argument)
        }
    } else if name == WORD_STATUS@ {
        Command::Status
    } else if name == WORD_HELP@ {
        Command::Help
    } else {
        Command::Unknown
    }
}

/// The code that the prompt gets for a command: -1 to leave, 1 where
/// nothing ran, 0 otherwise.
pub open spec fn code_of(command: Command) -> i32 {
    match command {
        Command::Quit => -1i32,
        Command::Status => 1,
        Command::Help => 1,
        Command::Unknown => 1,
        _ => 0,
    }
}

/// The machine after up to `n` instructions, with the instructions that
/// were left when it stopped. It stops early at an opcode that the
/// interpreter does not execute.
pub open spec fn run_for(m: Machine, n: nat) -> (Machine, nat)
    decreases n,
{
    if n == 0 || !implemented(m.opcode()) {
        (m, n)
    } else {
        run_for(m.step(), (n - 1) as nat)
    }
}

/// The machine after it has run until register `name` holds `value`,
/// with how that ended. It gives up after `limit` instructions and stops
/// at an opcode that the interpreter does not execute.
pub open spec fn run_to(m: Machine, name: char, value: u8, limit: nat) -> (Machine, RunEnd)
    decreases limit,
{
    if m.named(name) == value {
        (m, RunEnd::Finished)
    } else if limit == 0 {
        (m, RunEnd::OutOfSteps)
    } else if !implemented(m.opcode()) {
        (m, RunEnd::Unimplemented(m.opcode()))
    } else {
        run_to(m.step(), name, value, (limit - 1) as nat)
    }
}

fn space(b: u8) -> (yes: bool)
    ensures
        yes == is_space(b),
{
    b == 0x20 || (0x09 <= b && b <= 0x0D)
}

fn to_lower(b: u8) -> (c: u8)
    ensures
        c == lower(b),
{
    if 0x41 <= b && b <= 0x5A {
        b + 0x20
    } else {
        b
    }
}

fn scan_spaces(line: &[u8], from: usize) -> (to: usize)
    requires
        from <= line@.len(),
    ensures
        to == skip_spaces(line@, from as int),
        from <= to <= line@.len(),
{
    let mut i = from;
    while i < line.len() && space(line[i])
        invariant
            from <= i <= line@.len(),
            skip_spaces(line@, from as int) == skip_spaces(line@, i as int),
        decreases line@.len() - i,
    {
        i = i + 1;
    }
    i
}

fn scan_word(line: &[u8], from: usize) -> (to: usize)
    requires
        from <= line@.len(),
    ensures
        to == skip_word(line@, from as int),
        from <= to <= line@.len(),
{
    let mut i = from;
    while i < line.len() && !space(line[i])
        invariant
            from <= i <= line@.len(),
            skip_word(line@, from as int) == skip_word(line@, i as int),
        decreases line@.len() - i,
    {
        i = i + 1;
    }
    i
}

/// Whether the bytes of `line` from `start` to `end` spell `keyword` in
/// either case.
fn word_is(line: &[u8], start: usize, end: usize, keyword: &[u8]) -> (same: bool)
    requires
        start <= end <= line@.len(),
    ensures
        same == (lowered(line@.subrange(start as int, end as int)) == keyword@),
{
    let ghost word = lowered(line@.subrange(start as int, end as int));
    if end - start != keyword.len() {
        return false;
    }
    let mut i: usize = 0;
    while i < keyword.len()
        invariant
            start <= end <= line@.len(),
            end - start == keyword@.len(),
            i <= keyword@.len(),
            word == lowered(line@.subrange(start as int, end as int)),
            forall|j: int| 0 <= j < i ==> word[j] == keyword@[j],
        decreases keyword@.len() - i,
    {
        if to_lower(line[start + i]) != keyword[i] {
            assert(word[i as int] != keyword@[i as int]);
            return false;
        }
        i = i + 1;
    }
    assert(word =~= keyword@);
    true
}

/// A text of digits writes at least what any part of it from the front
/// writes.
proof fn lemma_digits_grow(s: Seq<u8>, n: int)
    requires
        all_digits(s),
        0 <= n <= s.len(),
    ensures
        0 <= digits_value(s.subrange(0, n)) <= digits_value(s),
    decreases s.len() - n,
{
    if n == s.len() {
        assert(s.subrange(0, n) =~= s);
        lemma_digits_nonnegative(s);
    } else {
        lemma_digits_grow(s, n + 1);
        let longer = s.subrange(0, n + 1);
        assert(longer.drop_last() =~= s.subrange(0, n));
        assert(is_digit(s[n]));
        lemma_digits_nonnegative(s.subrange(0, n));
    }
}

proof fn lemma_digits_nonnegative(s: Seq<u8>)
    requires
        all_digits(s),
    ensures
        0 <= digits_value(s),
    decreases s.len(),
{
    if s.len() > 0 {
        assert(is_digit(s[s.len() - 1]));
        lemma_digits_nonnegative(s.drop_last());
    }
}

/// The number that the bytes of `line` from `start` to `end` write, if
/// they are digits and it is at most `max`.
fn read_unsigned(line: &[u8], start: usize, end: usize, max: u64) -> (value: Option<u64>)
    requires
        start <= end <= line@.len(),
        max <= 0xFFFF_FFFF,
    ensures
        match value {
            Some(v) => parse_unsigned(line@.subrange(start as int, end as int), max as int) == Some(
                v as int,
            ),
            None => parse_unsigned(line@.subrange(start as int, end as int), max as int).is_none(),
        },
{
    let ghost text = line@.subrange(start as int, end as int);
    if start == end {
        return None;
    }
    let mut value: u64 = 0;
    let mut i = start;
    while i < end
        invariant
            start <= i <= end <= line@.len(),
            max <= 0xFFFF_FFFF,
            text == line@.subrange(start as int, end as int),
            all_digits(text.subrange(0, i - start)),
            value == digits_value(text.subrange(0, i - start)),
            value <= max,
        decreases end - i,
    {
        let b = line[i];
        let ghost before = text.subrange(0, i - start);
        let ghost after = text.subrange(0, i - start + 1);
        assert(after.drop_last() =~= before);
        assert(after.last() == b);
        if !(0x30 <= b && b <= 0x39) {
            assert(!is_digit(text[i - start]));
            return None;
        }
        let next = value * 10 + (b - 0x30) as u64;
        assert(all_digits(after));
        if next > max {
            proof {
                if all_digits(text) {
                    lemma_digits_grow(text, i - start + 1);
                }
            }
            return None;
        }
        value = next;
        i = i + 1;
    }
    assert(text.subrange(0, end - start) =~= text);
    Some(value)
}

fn read_u8(line: &[u8], start: usize, end: usize) -> (value: Option<u8>)
    requires
        start <= end <= line@.len(),
    ensures
        value == parse_u8(line@.subrange(start as int, end as int)),
{
    let ghost text = line@.subrange(start as int, end as int);
    let from = if start < end && line[start] == 0x2B {
        assert(text.drop_first() =~= line@.subrange(start + 1, end as int));
        start + 1
    } else {
        start
    };
    match read_unsigned(line, from, end, 0xFF) {
        Some(v) => Some(v as u8),
        None => None,
    }
}

fn read_i32(line: &[u8], start: usize, end: usize) -> (value: Option<i32>)
    requires
        start <= end <= line@.len(),
    ensures
        value == parse_i32(line@.subrange(start as int, end as int)),
{
    let ghost text = line@.subrange(start as int, end as int);
    if start < end && line[start] == 0x2D {
        assert(text.drop_first() =~= line@.subrange(start + 1, end as int));
        match read_unsigned(line, start + 1, end, 0x8000_0000) {
            Some(v) => Some((0 - v as i64) as i32),
            None => None,
        }
    } else {
        let from = if start < end && line[start] == 0x2B {
            assert(text.drop_first() =~= line@.subrange(start + 1, end as int));
            start + 1
        } else {
            start
        };
        match read_unsigned(line, from, end, 0x7FFF_FFFF) {
            Some(v) => Some(v as i32),
            None => None,
        }
    }
}

fn read_register(b: u8) -> (name: Option<char>)
    ensures
        name == register_named(b),
        name.is_some() ==> is_register_name(name.unwrap()),
{
    let c = to_lower(b);
    if c == 0x61 {
        Some('a')
    } else if c == 0x62 {
        Some('b')
    } else if c == 0x63 {
        Some('c')
    } else if c == 0x64 {
        Some('d')
    } else if c == 0x65 {
        Some('e')
    } else if c == 0x68 {
        Some('h')
    } else if c == 0x6C {
        Some('l')
    } else {
        None
    }
}

/// Reads the condition that the bytes of `line` from `start` to `end`
/// write.
fn read_condition(line: &[u8], start: usize, end: usize) -> (command: Command)
    requires
        start <= end <= line@.len(),
    ensures
        command == condition_of(line@.subrange(start as int, end as int)),
{
    let ghost w = line@.subrange(start as int, end as int);
    let mut k = start;
    while k < end && !(line[k] == 0x3D || line[k] == 0x3C || line[k] == 0x3E)
        invariant
            start <= k <= end <= line@.len(),
            w == line@.subrange(start as int, end as int),
            find_relation(w, 0) == find_relation(w, k - start),
        decreases end - k,
    {
        k = k + 1;
    }
    if k >= end || k == start {
        return Command::ConditionInvalidFormat;
    }
    assert(w.subrange(k - start + 1, w.len() as int) =~= line@.subrange(k + 1, end as int));
    match read_u8(line, k + 1, end) {
        None => Command::ConditionInvalidValue,
        Some(value) => match read_register(line[start]) {
            Some(name) => {
                if k == start + 1 {
                    let relation = if line[k] == 0x3C {
                        Relation::Less
                    } else if line[k] == 0x3E {
                        Relation::Greater
                    } else {
                        Relation::Equal
                    };
                    Command::Until(name, relation, value)
                } else {
                    Command::ConditionInvalidRegister
                }
            },
            None => Command::ConditionInvalidRegister,
        },
    }
}

/// Reads a line of input as a command.
pub fn parse_command(line: &[u8]) -> (command: Command)
    ensures
        command == command_of(line@),
        match command {
            Command::Until(name, _, _) => is_register_name(name),
            _ => true,
        },
{
    let start = scan_spaces(line, 0);
    let end = scan_word(line, start);
    let argument_start = scan_spaces(line, end);
    let argument_end = scan_word(line, argument_start);
    let ghost name = lowered(word_at(line@, first_start(line@)));
    assert(name.len() == end - start);
    if start == end {
        Command::Step
    } else if word_is(line, start, end, WORD_QUIT.as_slice()) {
        Command::Quit
    } else if word_is(line, start, end, WORD_RUN.as_slice()) {
        if argument_start == argument_end {
            Command::RunMissingArgument
        } else {
            match read_i32(line, argument_start, argument_end) {
                Some(n) => Command::Run(n),
                None => Command::Run(0),
            }
        }
    } else if word_is(line, start, end, WORD_CND.as_slice()) {
        if argument_start == argument_end {
            Command::ConditionMissingArgument
        } else {
            let command = read_condition(line, argument_start, argument_end);
            proof {
                let w = line@.subrange(argument_start as int, argument_end as int);
                if find_relation(w, 0) == 1 && w.len() > 1 {
                    assert(w[0] == line@[argument_start as int]);
                }
            }
            command
        }
    } else if word_is(line, start, end, WORD_STATUS.as_slice()) {
        Command::Status
    } else if word_is(line, start, end, WORD_HELP.as_slice()) {
        Command::Help
    } else {
        Command::Unknown
    }
}

/// The code that the prompt gets for a command.
pub fn command_code(command: Command) -> (code: i32)
    ensures
        code == code_of(command),
{
    match command {
        Command::Quit => -1,
        Command::Status => 1,
        Command::Help => 1,
        Command::Unknown => 1,
        _ => 0,
    }
}

/// Runs `n` instructions, or fewer if PC comes to an opcode that the
/// interpreter does not execute.
pub fn run_steps(state: &mut State8080, n: u32) -> (end: RunEnd)
    requires
        old(state).wf(),
    ensures
        final(state).wf(),
        final(state)@ == run_for(old(state)@, n as nat).0,
        end == (if run_for(old(state)@, n as nat).1 == 0 {
            RunEnd::Finished
        } else {
            RunEnd::Unimplemented(final(state)@.opcode())
        }),
{
    let mut left = n;
    while left > 0
        invariant
            state.wf(),
            run_for(old(state)@, n as nat) == run_for(state@, left as nat),
        decreases left,
    {
        let opcode = state.read_mem(state.get_pc());
        if !is_implemented(opcode) {
            return RunEnd::Unimplemented(opcode);
        }
        let _ = emulate_8080_op(state);
        left = left - 1;
    }
    RunEnd::Finished
}

/// Runs until register `name` holds `value`, for at most `limit`
/// instructions.
pub fn run_until(state: &mut State8080, name: char, value: u8, limit: u32) -> (end: RunEnd)
    requires
        old(state).wf(),
        is_register_name(name),
    ensures
        final(state).wf(),
        final(state)@ == run_to(old(state)@, name, value, limit as nat).0,
        end == run_to(old(state)@, name, value, limit as nat).1,
{
    let mut left = limit;
    loop
        invariant
            state.wf(),
            is_register_name(name),
            run_to(old(state)@, name, value, limit as nat) == run_to(
                state@,
                name,
                value,
                left as nat,
            ),
        decreases left,
    {
        if State8080::get_reg(state, name) == value {
            return RunEnd::Finished;
        }
        if left == 0 {
            return RunEnd::OutOfSteps;
        }
        let opcode = state.read_mem(state.get_pc());
        if !is_implemented(opcode) {
            return RunEnd::Unimplemented(opcode);
        }
        let _ = emulate_8080_op(state);
        left = left - 1;
    }
}

} // verus!
