//! The debugger's command language: `show cpu|ioregs|memory`, `step`,
//! `last`, `break <0xADDR>`, `run [debug cpu|human]` and `help`. Parsing
//! updates the debugger's state and tells the shell what to print.
use vstd::prelude::*;
use vstd::string::StringSliceAdditionalSpecFns;

verus! {

pub const SPACE: u8 = 0x20;

pub open spec fn word_show() -> Seq<u8> {
    seq![0x73u8, 0x68u8, 0x6Fu8, 0x77u8]
}

pub open spec fn word_step() -> Seq<u8> {
    seq![0x73u8, 0x74u8, 0x65u8, 0x70u8]
}

pub open spec fn word_last() -> Seq<u8> {
    seq![0x6Cu8, 0x61u8, 0x73u8, 0x74u8]
}

pub open spec fn word_break() -> Seq<u8> {
    seq![0x62u8, 0x72u8, 0x65u8, 0x61u8, 0x6Bu8]
}

pub open spec fn word_help() -> Seq<u8> {
    seq![0x68u8, 0x65u8, 0x6Cu8, 0x70u8]
}

pub open spec fn word_run() -> Seq<u8> {
    seq![0x72u8, 0x75u8, 0x6Eu8]
}

pub open spec fn word_debug() -> Seq<u8> {
    seq![0x64u8, 0x65u8, 0x62u8, 0x75u8, 0x67u8]
}

pub open spec fn word_cpu() -> Seq<u8> {
    seq![0x63u8, 0x70u8, 0x75u8]
}

pub open spec fn word_human() -> Seq<u8> {
    seq![0x68u8, 0x75u8, 0x6Du8, 0x61u8, 0x6Eu8]
}

pub open spec fn word_ioregs() -> Seq<u8> {
    seq![0x69u8, 0x6Fu8, 0x72u8, 0x65u8, 0x67u8, 0x73u8]
}

pub open spec fn word_memory() -> Seq<u8> {
    seq![0x6Du8, 0x65u8, 0x6Du8, 0x6Fu8, 0x72u8, 0x79u8]
}

/// The pieces of `s` between single spaces; two spaces in a row give an
/// empty piece, and there is always at least one piece.
pub open spec fn split_spaces(s: Seq<u8>) -> Seq<Seq<u8>>
    decreases s.len(),
{
    if s.len() == 0 {
        seq![Seq::<u8>::empty()]
    } else {
        let rest = split_spaces(s.drop_last());
        if s.last() == SPACE {
            rest.push(Seq::<u8>::empty())
        } else {
            rest.update(rest.len() - 1, rest.last().push(s.last()))
        }
    }
}

pub open spec fn hex_digit(b: u8) -> Option<int> {
    if 0x30 <= b <= 0x39 {
        Some(b - 0x30)
    } else if 0x61 <= b <= 0x66 {
        Some(b - 0x61 + 10)
    } else if 0x41 <= b <= 0x46 {
        Some(b - 0x41 + 10)
    } else {
        None
    }
}

pub open spec fn all_hex(s: Seq<u8>) -> bool {
    forall|i: int| 0 <= i < s.len() ==> hex_digit(#[trigger] s[i]) is Some
}

/// The number that hex digits spell, most significant first.
pub open spec fn hex_value(s: Seq<u8>) -> int
    decreases s.len(),
{
    if s.len() == 0 {
        0
    } else {
        hex_value(s.drop_last()) * 16 + hex_digit(s.last())->0
    }
}

/// A 16-bit number in hex: an optional `+`, then at least one digit.
pub open spec fn parse_hex16(s: Seq<u8>) -> Option<u16> {
    let digits = if s.len() > 0 && s[0] == 0x2B {
        s.drop_first()
    } else {
        s
    };
    if digits.len() > 0 && all_hex(digits) && hex_value(digits) <= 0xFFFF {
        Some(hex_value(digits) as u16)
    } else {
        None
    }
}

/// What the shell prints after a command.
#[derive(Clone, Copy, Debug, PartialEq, Eq, Structural)]
pub enum DebugReply {
    Nothing,
    ShowCpu,
    ShowIoRegs,
    ShowMemory,
    PrintLast,
    Help,
    InvalidCommand,
    ShowArgCount,
    InvalidShowParam,
    BreakArgCount,
    /// The argument of `break` is not `0x` followed by a 16-bit hex number.
    InvalidAddress,
    RunArgCount,
    InvalidRunParam,
    /// Word `n` of the command is neither `cpu` nor `human`.
    InvalidRunDebugParam(usize),
}

#[derive(Clone, Copy, Debug, PartialEq, Eq, Structural)]
pub struct Debugger {
    /// Run until an instruction at or after this address.
    pub break_addr: Option<u16>,
    /// Leave the prompt and let the CPU run.
    pub should_run_cpu: bool,
    /// Trace while running: bit 0 CPU state, bit 1 instructions.
    pub run_debug: u8,
    /// Print the next instruction run.
    pub is_step: bool,
}

pub open spec fn show_reply(p: Seq<Seq<u8>>) -> DebugReply {
    if p.len() != 1 {
        DebugReply::ShowArgCount
    } else if p[0] == word_cpu() {
        DebugReply::ShowCpu
    } else if p[0] == word_ioregs() {
        DebugReply::ShowIoRegs
    } else if p[0] == word_memory() {
        DebugReply::ShowMemory
    } else {
        DebugReply::InvalidShowParam
    }
}

/// The address that `break` takes: `0x` followed by a hex number.
pub open spec fn break_address(w: Seq<u8>) -> Option<u16> {
    if w.len() < 2 || w[0] != 0x30 || w[1] != 0x78 {
        None
    } else {
        parse_hex16(w.subrange(2, w.len() as int))
    }
}

pub open spec fn break_spec(d: Debugger, p: Seq<Seq<u8>>) -> (Debugger, DebugReply) {
    if p.len() != 1 {
        (d, DebugReply::BreakArgCount)
    } else {
        match break_address(p[0]) {
            Some(a) => (Debugger { break_addr: Some(a), ..d }, DebugReply::Nothing),
            None => (Debugger { break_addr: None, ..d }, DebugReply::InvalidAddress),
        }
    }
}

/// 1 for `cpu`, 2 for `human`, 0 for anything else.
pub open spec fn trace_kind(w: Seq<u8>) -> u8 {
    if w == word_cpu() {
        1
    } else if w == word_human() {
        2
    } else {
        0
    }
}

/// `run` alone resumes without traces; `run debug A [B]` reads the
/// parameters in order up to the first invalid one, and the CPU runs with
/// the traces named before it, if any.
pub open spec fn run_spec(d: Debugger, p: Seq<Seq<u8>>) -> (Debugger, DebugReply) {
    if p.len() == 0 {
        (Debugger { run_debug: 0, should_run_cpu: true, ..d }, DebugReply::Nothing)
    } else if p.len() < 2 || p.len() > 3 {
        (d, DebugReply::RunArgCount)
    } else if p[0] != word_debug() {
        (d, DebugReply::InvalidRunParam)
    } else {
        let k1 = trace_kind(p[1]);
        let k2: u8 = if p.len() == 3 && k1 != 0 {
            trace_kind(p[2])
        } else {
            3
        };
        let cpu = k1 == 1 || k2 == 1;
        let human = k1 == 2 || k2 == 2;
        let d2 = if cpu || human {
            Debugger {
                run_debug: ((if human {
                    2int
                } else {
                    0
                }) + (if cpu {
                    1int
                } else {
                    0
                })) as u8,
                should_run_cpu: true,
                ..d
            }
        } else {
            d
        };
        let reply = if k1 == 0 {
            DebugReply::InvalidRunDebugParam(2)
        } else if k2 == 0 {
            DebugReply::InvalidRunDebugParam(3)
        } else {
            DebugReply::Nothing
        };
        (d2, reply)
    }
}

/// The effect of one command line, split into words.
pub open spec fn parse_spec(d: Debugger, words: Seq<Seq<u8>>) -> (Debugger, DebugReply) {
    let cmd = words[0];
    let rest = words.drop_first();
    if cmd == word_show() {
        (d, show_reply(rest))
    } else if cmd == word_step() {
        (Debugger { is_step: true, should_run_cpu: true, ..d }, DebugReply::Nothing)
    } else if cmd == word_last() {
        (d, DebugReply::PrintLast)
    } else if cmd == word_break() {
        let (d2, r) = break_spec(d, rest);
        (Debugger { should_run_cpu: true, ..d2 }, r)
    } else if cmd == word_help() {
        (d, DebugReply::Help)
    } else if cmd == word_run() {
        run_spec(d, rest)
    } else if cmd.len() == 0 {
        (d, DebugReply::Nothing)
    } else {
        (d, DebugReply::InvalidCommand)
    }
}

proof fn lemma_split_nonempty(s: Seq<u8>)
    ensures
        split_spaces(s).len() >= 1,
    decreases s.len(),
{
    if s.len() > 0 {
        lemma_split_nonempty(s.drop_last());
    }
}

fn eq_bytes(w: &[u8], lit: &[u8]) -> (r: bool)
    ensures
        r == (w@ == lit@),
{
    if w.len() != lit.len() {
        return false;
    }
    let mut i: usize = 0;
    while i < w.len()
        invariant
            w@.len() == lit@.len(),
            i <= w@.len(),
            forall|j: int| 0 <= j < i ==> w@[j] == lit@[j],
        decreases w@.len() - i,
    {
        if w[i] != lit[i] {
            return false;
        }
        i = i + 1;
    }
    assert(w@ =~= lit@);
    true
}

fn is_show(w: &[u8]) -> (r: bool)
    ensures
        r == (w@ == word_show()),
{
    let lit: [u8; 4] = [0x73, 0x68, 0x6F, 0x77];
    assert(lit@ =~= word_show());
    eq_bytes(w, &lit)
}

fn is_step(w: &[u8]) -> (r: bool)
    ensures
        r == (w@ == word_step()),
{
    let lit: [u8; 4] = [0x73, 0x74, 0x65, 0x70];
    assert(lit@ =~= word_step());
    eq_bytes(w, &lit)
}

fn is_last(w: &[u8]) -> (r: bool)
    ensures
        r == (w@ == word_last()),
{
    let lit: [u8; 4] = [0x6C, 0x61, 0x73, 0x74];
    assert(lit@ =~= word_last());
    eq_bytes(w, &lit)
}

fn is_break(w: &[u8]) -> (r: bool)
    ensures
        r == (w@ == word_break()),
{
    let lit: [u8; 5] = [0x62, 0x72, 0x65, 0x61, 0x6B];
    assert(lit@ =~= word_break());
    eq_bytes(w, &lit)
}

fn is_help(w: &[u8]) -> (r: bool)
    ensures
        r == (w@ == word_help()),
{
    let lit: [u8; 4] = [0x68, 0x65, 0x6C, 0x70];
    assert(lit@ =~= word_help());
    eq_bytes(w, &lit)
}

fn is_run(w: &[u8]) -> (r: bool)
    ensures
        r == (w@ == word_run()),
{
    let lit: [u8; 3] = [0x72, 0x75, 0x6E];
    assert(lit@ =~= word_run());
    eq_bytes(w, &lit)
}

fn is_debug(w: &[u8]) -> (r: bool)
    ensures
        r == (w@ == word_debug()),
{
    let lit: [u8; 5] = [0x64, 0x65, 0x62, 0x75, 0x67];
    assert(lit@ =~= word_debug());
    eq_bytes(w, &lit)
}

fn is_cpu(w: &[u8]) -> (r: bool)
    ensures
        r == (w@ == word_cpu()),
{
    let lit: [u8; 3] = [0x63, 0x70, 0x75];
    assert(lit@ =~= word_cpu());
    eq_bytes(w, &lit)
}

fn is_human(w: &[u8]) -> (r: bool)
    ensures
        r == (w@ == word_human()),
{
    let lit: [u8; 5] = [0x68, 0x75, 0x6D, 0x61, 0x6E];
    assert(lit@ =~= word_human());
    eq_bytes(w, &lit)
}

fn is_ioregs(w: &[u8]) -> (r: bool)
    ensures
        r == (w@ == word_ioregs()),
{
    let lit: [u8; 6] = [0x69, 0x6F, 0x72, 0x65, 0x67, 0x73];
    assert(lit@ =~= word_ioregs());
    eq_bytes(w, &lit)
}

fn is_memory(w: &[u8]) -> (r: bool)
    ensures
        r == (w@ == word_memory()),
{
    let lit: [u8; 6] = [0x6D, 0x65, 0x6D, 0x6F, 0x72, 0x79];
    assert(lit@ =~= word_memory());
    eq_bytes(w, &lit)
}

fn trace_kind_of(w: &[u8]) -> (r: u8)
    ensures
        r == trace_kind(w@),
{
    if is_cpu(w) {
        1
    } else if is_human(w) {
        2
    } else {
        0
    }
}

/// Splits a command line at single spaces.
pub fn split_words(s: &[u8]) -> (words: Vec<Vec<u8>>)
    ensures
        words@.len() == split_spaces(s@).len(),
        forall|k: int| 0 <= k < words@.len() ==> #[trigger] words@[k]@ == split_spaces(s@)[k],
{
    let mut words: Vec<Vec<u8>> = Vec::new();
    words.push(Vec::new());
    let mut i: usize = 0;
    assert(s@.subrange(0, 0) =~= Seq::<u8>::empty());
    while i < s.len()
        invariant
            i <= s@.len(),
            words@.len() == split_spaces(s@.subrange(0, i as int)).len(),
            words@.len() >= 1,
            forall|k: int|
                0 <= k < words@.len() ==> #[trigger] words@[k]@ == split_spaces(
                    s@.subrange(0, i as int),
                )[k],
        decreases s@.len() - i,
    {
        let ghost prefix = s@.subrange(0, i as int);
        let ghost next = s@.subrange(0, i + 1);
        assert(next.drop_last() =~= prefix);
        assert(next.last() == s@[i as int]);
        proof {
            lemma_split_nonempty(prefix);
        }
        if s[i] == SPACE {
            words.push(Vec::new());
        } else {
            let mut last: Vec<u8> = words.pop().unwrap();
            last.push(s[i]);
            words.push(last);
        }
        i = i + 1;
    }
    assert(s@.subrange(0, s@.len() as int) =~= s@);
    words
}

/// The value of `s` read as `+`? hex-digit+ within 16 bits.
pub fn from_hex16(s: &[u8]) -> (r: Option<u16>)
    ensures
        r == parse_hex16(s@),
{
    let start: usize = if s.len() > 0 && s[0] == 0x2B { 1 } else { 0 };
    let ghost digits = if s@.len() > 0 && s@[0] == 0x2B { s@.drop_first() } else { s@ };
    assert(digits =~= s@.subrange(start as int, s@.len() as int));
    if start >= s.len() {
        return None;
    }
    let mut value: u32 = 0;
    let mut i: usize = start;
    while i < s.len()
        invariant
            start <= i <= s@.len(),
            digits == s@.subrange(start as int, s@.len() as int),
            digits == (if s@.len() > 0 && s@[0] == 0x2B {
                s@.drop_first()
            } else {
                s@
            }),
            all_hex(s@.subrange(start as int, i as int)),
            value == hex_value(s@.subrange(start as int, i as int)),
            value <= 0xFFFF,
        decreases s@.len() - i,
    {
        let b: u8 = s[i];
        let d: u32 = if 0x30 <= b && b <= 0x39 {
            (b - 0x30) as u32
        } else if 0x61 <= b && b <= 0x66 {
            (b - 0x61 + 10) as u32
        } else if 0x41 <= b && b <= 0x46 {
            (b - 0x41 + 10) as u32
        } else {
            proof {
                assert(digits[i - start] == s@[i as int]);
                assert(hex_digit(digits[i - start]) is None);
                assert(!all_hex(digits));
            }
            return None;
        };
        let ghost before = s@.subrange(start as int, i as int);
        let ghost after = s@.subrange(start as int, i + 1);
        assert(after.drop_last() =~= before);
        value = value * 16 + d;
        i = i + 1;
        assert(all_hex(after)) by {
            assert forall|j: int| 0 <= j < after.len() implies hex_digit(#[trigger] after[j]) is Some by {
                if j < before.len() {
                    assert(after[j] == before[j]);
                }
            }
        }
        if value > 0xFFFF {
            proof {
                if all_hex(digits) {
                    lemma_hex_value_grows(digits, i - start);
                    assert(digits.subrange(0, i - start) =~= s@.subrange(start as int, i as int));
                }
            }
            return None;
        }
    }
    assert(s@.subrange(start as int, s@.len() as int) == digits);
    Some(value as u16)
}

proof fn lemma_hex_value_grows(s: Seq<u8>, n: int)
    requires
        0 < n <= s.len(),
        all_hex(s),
    ensures
        hex_value(s) >= hex_value(s.subrange(0, n)),
    decreases s.len(),
{
    if s.len() > n {
        let t = s.drop_last();
        assert(all_hex(t)) by {
            assert forall|j: int| 0 <= j < t.len() implies hex_digit(#[trigger] t[j]) is Some by {
                assert(t[j] == s[j]);
            }
        }
        lemma_hex_value_grows(t, n);
        assert(t.subrange(0, n) =~= s.subrange(0, n));
        lemma_hex_value_nonneg(t);
        assert(hex_digit(s[s.len() - 1]) is Some);
    } else {
        assert(s.subrange(0, n) =~= s);
    }
}

proof fn lemma_hex_value_nonneg(s: Seq<u8>)
    requires
        all_hex(s),
    ensures
        hex_value(s) >= 0,
    decreases s.len(),
{
    if s.len() > 0 {
        let t = s.drop_last();
        assert(all_hex(t)) by {
            assert forall|j: int| 0 <= j < t.len() implies hex_digit(#[trigger] t[j]) is Some by {
                assert(t[j] == s[j]);
            }
        }
        lemma_hex_value_nonneg(t);
        assert(hex_digit(s[s.len() - 1]) is Some);
    }
}

impl Debugger {
    pub fn new() -> (d: Debugger)
        ensures
            d == (Debugger { break_addr: None, should_run_cpu: false, run_debug: 0, is_step: false }),
    {
        Debugger { break_addr: None, should_run_cpu: false, run_debug: 0x00, is_step: false }
    }

    /// Leaves a `run`: the prompt comes back at the next instruction.
    pub fn cancel_run(&mut self)
        ensures
            *final(self) == (Debugger { run_debug: 0, should_run_cpu: false, ..*old(self) }),
    {
        self.run_debug = 0;
        self.should_run_cpu = false;
    }

    /// Runs one command line.
    pub fn parse(&mut self, command: &str) -> (r: DebugReply)
        ensures
            (*final(self), r) == parse_spec(*old(self), split_spaces(command.spec_bytes())),
    {
        let words: Vec<Vec<u8>> = split_words(command.as_bytes());
        let ghost ws = split_spaces(command.spec_bytes());
        proof {
            lemma_split_nonempty(command.spec_bytes());
        }
        let n: usize = words.len();
        let cmd: &[u8] = words[0].as_slice();
        if is_show(cmd) {
            if n != 2 {
                return DebugReply::ShowArgCount;
            }
            let p: &[u8] = words[1].as_slice();
            assert(ws.drop_first()[0] == ws[1]);
            if is_cpu(p) {
                DebugReply::ShowCpu
            } else if is_ioregs(p) {
                DebugReply::ShowIoRegs
            } else if is_memory(p) {
                DebugReply::ShowMemory
            } else {
                DebugReply::InvalidShowParam
            }
        } else if is_step(cmd) {
            self.is_step = true;
            self.should_run_cpu = true;
            DebugReply::Nothing
        } else if is_last(cmd) {
            DebugReply::PrintLast
        } else if is_break(cmd) {
            self.should_run_cpu = true;
            if n != 2 {
                return DebugReply::BreakArgCount;
            }
            let p: &[u8] = words[1].as_slice();
            assert(ws.drop_first()[0] == ws[1]);
            let addr: Option<u16> = if p.len() < 2 || p[0] != 0x30 || p[1] != 0x78 {
                None
            } else {
                let tail: &[u8] = slice_from(p, 2);
                from_hex16(tail)
            };
            self.break_addr = addr;
            match addr {
                Some(_) => DebugReply::Nothing,
                None => DebugReply::InvalidAddress,
            }
        } else if is_help(cmd) {
            DebugReply::Help
        } else if is_run(cmd) {
            if n == 1 {
                self.run_debug = 0;
                self.should_run_cpu = true;
                return DebugReply::Nothing;
            }
            if n < 3 || n > 4 {
                return DebugReply::RunArgCount;
            }
            assert(ws.drop_first()[0] == ws[1]);
            assert(ws.drop_first()[1] == ws[2]);
            if !is_debug(words[1].as_slice()) {
                return DebugReply::InvalidRunParam;
            }
            let k1: u8 = trace_kind_of(words[2].as_slice());
            let k2: u8 = if n == 4 && k1 != 0 {
                assert(ws.drop_first()[2] == ws[3]);
                trace_kind_of(words[3].as_slice())
            } else {
                3
            };
            let cpu: bool = k1 == 1 || k2 == 1;
            let human: bool = k1 == 2 || k2 == 2;
            if cpu || human {
                self.run_debug = if human { 0b10 } else { 0b00 };
                self.run_debug = if cpu { self.run_debug + 0b01 } else { self.run_debug };
                self.should_run_cpu = true;
            }
            if k1 == 0 {
                DebugReply::InvalidRunDebugParam(2)
            } else if k2 == 0 {
                DebugReply::InvalidRunDebugParam(3)
            } else {
                DebugReply::Nothing
            }
        } else if cmd.len() == 0 {
            DebugReply::Nothing
        } else {
            DebugReply::InvalidCommand
        }
    }
}

/// What the shell does after an instruction ran at `address`.
#[derive(Clone, Copy, Debug, PartialEq, Eq, Structural)]
pub enum DebugAction {
    /// Print the trace that `run debug` asked for (CPU state, instruction)
    /// and go on.
    Trace(bool, bool),
    /// Print the instruction if `print` and go on.
    Continue(bool),
    /// Print the instruction if `print`, then open the prompt.
    Prompt(bool),
}

pub open spec fn action_spec(d: Debugger, address: u16) -> (Debugger, DebugAction) {
    if d.run_debug != 0 {
        (d, DebugAction::Trace(d.run_debug % 2 == 1, (d.run_debug / 2) % 2 == 1))
    } else {
        match d.break_addr {
            Some(a) => if address >= a {
                (Debugger { break_addr: None, ..d }, DebugAction::Prompt(true))
            } else {
                (d, DebugAction::Continue(d.is_step))
            },
            None => (d, DebugAction::Prompt(d.is_step)),
        }
    }
}

impl Debugger {
    /// Decides, after the instruction at `address`, whether to trace, to go
    /// on, or to stop at the prompt (a breakpoint at or before `address`, or
    /// no breakpoint and no run at all).
    pub fn run(&mut self, address: u16) -> (r: DebugAction)
        ensures
            (*final(self), r) == action_spec(*old(self), address),
    {
        if self.run_debug != 0x00 {
            let debug_cpu: bool = self.run_debug % 2 == 1;
            let debug_human: bool = (self.run_debug / 2) % 2 == 1;
            return DebugAction::Trace(debug_cpu, debug_human);
        }
        match self.break_addr {
            Some(addr) => {
                if address >= addr {
                    self.break_addr = None;
                    DebugAction::Prompt(true)
                } else {
                    DebugAction::Continue(self.is_step)
                }
            },
            None => DebugAction::Prompt(self.is_step),
        }
    }

    /// Called before each prompt line: the step and run requests are done.
    pub fn reset_prompt(&mut self)
        ensures
            *final(self) == (Debugger { should_run_cpu: false, is_step: false, ..*old(self) }),
    {
        self.should_run_cpu = false;
        self.is_step = false;
    }
}

/// The bytes of `s` from `start` on.
fn slice_from(s: &[u8], start: usize) -> (r: &[u8])
    requires
        start <= s@.len(),
    ensures
        r@ == s@.subrange(start as int, s@.len() as int),
{
    &s[start..s.len()]
}

} // verus!
