use vstd::prelude::*;

verus! {

/// The debugging configuration and the state of the breakpoint machine.
#[derive(Debug, Clone, Copy, PartialEq, Eq, Structural)]
pub struct Debugger {
    /// Print a disassembly line before each instruction.
    pub debug: bool,
    /// Prompt for a command before every instruction.
    pub interactive: bool,
    /// A breakpoint is armed.
    pub debug_break: bool,
    /// Address of the breakpoint.
    pub break_point: u16,
    /// Run freely until the armed breakpoint is reached.
    pub debug_run: bool,
}

/// A command of the console protocol.
#[derive(Debug, Clone, Copy, PartialEq, Eq, Structural)]
pub enum Command {
    /// `regdump`: show the registers and timers.
    RegDump,
    /// `memdump`: show the word at `pc`.
    MemDump,
    /// `break <hex-address>`: arm a breakpoint.
    SetBreak(u16),
    /// `break`: disarm the breakpoint.
    ClearBreak,
    /// `run`: run freely until the breakpoint.
    Run,
    /// `+input`: hold key 0 down.
    KeyDown,
    /// `-input`: release key 0.
    KeyUp,
    /// `help`: list the commands.
    Help,
    /// `break` followed by an argument that is no hexadecimal address.
    Malformed,
    /// Anything else: execute one instruction.
    Step,
}

/// The value of a hexadecimal digit, either case.
pub open spec fn hex_digit_value(c: char) -> Option<nat> {
    let k = c as u32;
    if 48 <= k <= 57 {
        Some((k - 48) as nat)
    } else if 97 <= k <= 102 {
        Some((k - 87) as nat)
    } else if 65 <= k <= 70 {
        Some((k - 55) as nat)
    } else {
        None
    }
}

/// Every character of `s` is a hexadecimal digit.
pub open spec fn all_hex(s: Seq<char>) -> bool {
    forall|k: int| 0 <= k < s.len() ==> (#[trigger] hex_digit_value(s[k])) is Some
}

/// The number that the hexadecimal digits `s` spell.
pub open spec fn hex_number(s: Seq<char>) -> nat
    decreases s.len(),
{
    if s.len() == 0 {
        0
    } else {
        hex_number(s.drop_last()) * 16 + hex_digit_value(s.last()).unwrap_or(0)
    }
}

/// A 16-bit address written in hexadecimal: at least one digit, no sign,
/// no prefix, and a value that fits in 16 bits.
pub open spec fn hex_address(s: Seq<char>) -> Option<u16> {
    if s.len() > 0 && all_hex(s) && hex_number(s) <= 0xFFFF {
        Some(hex_number(s) as u16)
    } else {
        None
    }
}

/// The command that a console line (without its line terminator) stands for.
pub open spec fn command_of(s: Seq<char>) -> Command {
    if s == "regdump"@ {
        Command::RegDump
    } else if s == "+input"@ {
        Command::KeyDown
    } else if s == "-input"@ {
        Command::KeyUp
    } else if s == "memdump"@ {
        Command::MemDump
    } else if s.len() >= "break "@.len() && s.take("break "@.len() as int) == "break "@ {
        match hex_address(s.skip("break "@.len() as int)) {
            Some(a) => Command::SetBreak(a),
            None => Command::Malformed,
        }
    } else if s == "break"@ {
        Command::ClearBreak
    } else if s == "run"@ {
        Command::Run
    } else if s == "help"@ {
        Command::Help
    } else {
        Command::Step
    }
}

proof fn lemma_hex_number_prefix(s: Seq<char>, k: int)
    requires
        0 <= k <= s.len(),
    ensures
        hex_number(s.take(k)) <= hex_number(s),
    decreases s.len(),
{
    if k < s.len() {
        assert(s.drop_last().take(k) =~= s.take(k));
        lemma_hex_number_prefix(s.drop_last(), k);
    } else {
        assert(s.take(k) =~= s);
    }
}

fn str_equals(a: &str, b: &str) -> (r: bool)
    ensures
        r == (a@ == b@),
{
    let n = a.unicode_len();
    if n != b.unicode_len() {
        return false;
    }
    let mut k: usize = 0;
    while k < n
        invariant
            n == a@.len(),
            n == b@.len(),
            k <= n,
            a@.take(k as int) == b@.take(k as int),
        decreases n - k,
    {
        if a.get_char(k) != b.get_char(k) {
            return false;
        }
        proof {
            assert(a@.take(k + 1) =~= a@.take(k as int).push(a@[k as int]));
            assert(b@.take(k + 1) =~= b@.take(k as int).push(b@[k as int]));
        }
        k += 1;
    }
    proof {
        assert(a@ =~= a@.take(n as int));
        assert(b@ =~= b@.take(n as int));
    }
    true
}

fn starts_with(a: &str, prefix: &str) -> (r: bool)
    ensures
        r == (a@.len() >= prefix@.len() && a@.take(prefix@.len() as int) == prefix@),
{
    let n = prefix.unicode_len();
    if a.unicode_len() < n {
        return false;
    }
    let mut k: usize = 0;
    while k < n
        invariant
            n == prefix@.len(),
            n <= a@.len(),
            k <= n,
            a@.take(k as int) == prefix@.take(k as int),
        decreases n - k,
    {
        if a.get_char(k) != prefix.get_char(k) {
            proof {
                assert(a@.take(n as int)[k as int] != prefix@[k as int]);
            }
            return false;
        }
        proof {
            assert(a@.take(k + 1) =~= a@.take(k as int).push(a@[k as int]));
            assert(prefix@.take(k + 1) =~= prefix@.take(k as int).push(prefix@[k as int]));
        }
        k += 1;
    }
    proof {
        assert(prefix@ =~= prefix@.take(n as int));
    }
    true
}

fn digit_value(c: char) -> (r: Option<u32>)
    ensures
        r matches Some(d) ==> hex_digit_value(c) == Some(d as nat),
        r is None ==> hex_digit_value(c) is None,
{
    let k = c as u32;
    if 48 <= k && k <= 57 {
        Some(k - 48)
    } else if 97 <= k && k <= 102 {
        Some(k - 87)
    } else if 65 <= k && k <= 70 {
        Some(k - 55)
    } else {
        None
    }
}

/// The hexadecimal address spelled by `s` from character `start` on.
pub fn parse_hex_address(s: &str, start: usize) -> (r: Option<u16>)
    requires
        start <= s@.len(),
    ensures
        r == hex_address(s@.skip(start as int)),
{
    let n = s.unicode_len();
    let ghost t = s@.skip(start as int);
    if start == n {
        return None;
    }
    let mut value: u32 = 0;
    let mut k: usize = start;
    while k < n
        invariant
            n == s@.len(),
            start < n,
            t == s@.skip(start as int),
            start <= k <= n,
            all_hex(t.take(k - start)),
            value as nat == hex_number(t.take(k - start)),
            value <= 0xFFFF,
        decreases n - k,
    {
        let c = s.get_char(k);
        let ghost prefix = t.take(k - start + 1);
        proof {
            assert(prefix.drop_last() =~= t.take(k - start));
            assert(prefix.last() == c);
        }
        match digit_value(c) {
            Some(d) => {
                value = value * 16 + d;
                if value > 0xFFFF {
                    proof {
                        lemma_hex_number_prefix(t, k - start + 1);
                    }
                    return None;
                }
            },
            None => {
                assert(!all_hex(t));
                return None;
            },
        }
        k += 1;
        proof {
            assert(all_hex(prefix));
        }
    }
    proof {
        assert(t.take(n - start) =~= t);
    }
    Some(value as u16)
}

/// Reads a console line (without its line terminator) as a command.
pub fn parse_command(line: &str) -> (r: Command)
    ensures
        r == command_of(line@),
{
    if str_equals(line, "regdump") {
        Command::RegDump
    } else if str_equals(line, "+input") {
        Command::KeyDown
    } else if str_equals(line, "-input") {
        Command::KeyUp
    } else if str_equals(line, "memdump") {
        Command::MemDump
    } else if starts_with(line, "break ") {
        let start = "break ".unicode_len();
        match parse_hex_address(line, start) {
            Some(a) => Command::SetBreak(a),
            None => Command::Malformed,
        }
    } else if str_equals(line, "break") {
        Command::ClearBreak
    } else if str_equals(line, "run") {
        Command::Run
    } else if str_equals(line, "help") {
        Command::Help
    } else {
        Command::Step
    }
}

/// Whether the console is asked for a command before executing at `pc`:
/// in free-run mode only at an armed breakpoint, otherwise when interactive.
pub open spec fn prompts_spec(d: Debugger, pc: u16) -> bool {
    if d.debug_run {
        d.debug_break && pc == d.break_point
    } else {
        d.interactive
    }
}

/// The configuration after `command`, and whether the instruction at hand is
/// then executed.
pub open spec fn apply_spec(d: Debugger, command: Command) -> (Debugger, bool) {
    match command {
        Command::SetBreak(a) => (Debugger { debug_break: true, break_point: a, ..d }, false),
        Command::ClearBreak => (Debugger { debug_break: false, ..d }, false),
        Command::Run => (Debugger { debug_run: true, ..d }, true),
        Command::Step => (d, true),
        _ => (d, false),
    }
}

impl Debugger {
    /// Whether to ask for a command before executing at `pc`.
    pub fn prompts(&self, pc: u16) -> (r: bool)
        ensures
            r == prompts_spec(*self, pc),
    {
        if self.debug_run {
            self.debug_break && pc == self.break_point
        } else {
            self.interactive
        }
    }

    /// Applies `command`; returns whether the instruction at hand is executed.
    pub fn apply(&mut self, command: Command) -> (proceed: bool)
        ensures
            (*final(self), proceed) == apply_spec(*old(self), command),
    {
        match command {
            Command::SetBreak(a) => {
                self.debug_break = true;
                self.break_point = a;
                false
            },
            Command::ClearBreak => {
                self.debug_break = false;
                false
            },
            Command::Run => {
                self.debug_run = true;
                true
            },
            Command::Step => true,
            _ => false,
        }
    }
}

} // verus!
