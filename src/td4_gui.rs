//! The simulation controller: sole owner and mutator of the CPU state, it
//! routes every operator intent to a state change, a clock change, or a
//! request to advance the processor by one cycle.
use vstd::prelude::*;

use crate::bits::{bit_of, edit_bit, edited, lemma_edit_keeps_other_bits, read_bit};
use crate::clock::{Clock, RunState};
use crate::style::Theme;

verus! {

/// Tick period of a freshly started simulator, in milliseconds.
pub const START_PERIOD: u64 = 300;

/// Registers: A and B (low four bits meaningful), program counter, carry flag.
#[derive(Clone, Copy, Debug, PartialEq, Eq, Structural)]
pub struct Reg {
    pub a: u8,
    pub b: u8,
    pub pc: u8,
    pub flag: bool,
}

/// The input and output ports, four bits each.
#[derive(Clone, Copy, Debug, PartialEq, Eq, Structural)]
pub struct Port {
    pub input: u8,
    pub output: u8,
}

pub open spec fn zero_reg() -> Reg {
    Reg { a: 0, b: 0, pc: 0, flag: false }
}

pub open spec fn zero_port() -> Port {
    Port { input: 0, output: 0 }
}

impl Reg {
    /// All registers zero and the carry flag clear.
    pub fn zero() -> (r: Reg)
        ensures
            r == zero_reg(),
    {
        Reg { a: 0, b: 0, pc: 0, flag: false }
    }
}

impl Port {
    /// Both ports zero.
    pub fn zero() -> (r: Port)
        ensures
            r == zero_port(),
    {
        Port { input: 0, output: 0 }
    }
}

/// An operator intent, or a signal of the clock.
#[derive(Clone, Copy, Debug, PartialEq, Eq, Structural)]
pub enum Message {
    Reset,
    Tick,
    Run,
    Step,
    Stop,
    /// Flip bit (second field) of the memory byte at the address (first
    /// field); the third is the value the bit's control displayed.
    RomEdit(usize, u8, bool),
    /// Flip bit (first field) of the input port; the second is the value the
    /// bit's control displayed.
    InputEdit(u8, bool),
    /// A new tick period, in milliseconds.
    SliderChanged(u64),
}

/// What the caller has to do after a message was handled.
#[derive(Clone, Copy, Debug, PartialEq, Eq, Structural)]
pub enum Command {
    /// Nothing more.
    Nothing,
    /// Run the stepping engine once on the current state and hand its
    /// outcome to [`TD4::step`].
    Advance,
}

/// Whether the targets a message names exist in a memory of `len` bytes.
pub open spec fn message_fits(m: Message, len: nat) -> bool {
    match m {
        Message::RomEdit(addr, bit, _) => addr < len && bit < 8,
        Message::InputEdit(bit, _) => bit < 4,
        _ => true,
    }
}

/// The whole state of the simulator, as a value.
pub struct Td4View {
    pub reg: Reg,
    pub port: Port,
    pub prg: Seq<u8>,
    pub clock: Clock,
}

/// The state after one cycle of the stepping engine, which left the
/// registers `reg` and ports `port` and named `next_pc` as the next address.
pub open spec fn advanced(s: Td4View, reg: Reg, port: Port, next_pc: u8) -> Td4View {
    Td4View { reg: Reg { pc: next_pc, ..reg }, port, ..s }
}

/// The state after message `m` was handled. Bit edits are honoured only
/// while idle; a tick or a step leaves the state to the advance it asks for.
pub open spec fn updated(s: Td4View, m: Message) -> Td4View {
    match m {
        Message::Reset => Td4View { reg: zero_reg(), port: zero_port(), ..s },
        Message::Tick => s,
        Message::Step => s,
        Message::Run => Td4View { clock: s.clock.ran(), ..s },
        Message::Stop => Td4View { clock: s.clock.stopped(), ..s },
        Message::RomEdit(addr, bit, shown) => if s.clock.state == RunState::Idle {
            Td4View { prg: s.prg.update(addr as int, edited(s.prg[addr as int], bit, shown)), ..s }
        } else {
            s
        },
        Message::InputEdit(bit, shown) => if s.clock.state == RunState::Idle {
            Td4View { port: Port { input: edited(s.port.input, bit, shown), ..s.port }, ..s }
        } else {
            s
        },
        Message::SliderChanged(ms) => Td4View { clock: s.clock.with_period(ms), ..s },
    }
}

/// What handling message `m` in state `s` asks of the caller: a tick always
/// advances, a manual step only while idle.
pub open spec fn command_for(s: Td4View, m: Message) -> Command {
    match m {
        Message::Tick => Command::Advance,
        Message::Step => if s.clock.state == RunState::Idle {
            Command::Advance
        } else {
            Command::Nothing
        },
        _ => Command::Nothing,
    }
}

/// The simulator: CPU state, program memory and clock.
pub struct TD4 {
    reg: Reg,
    port: Port,
    prg: Vec<u8>,
    clock: Clock,
}

impl View for TD4 {
    type V = Td4View;

    closed spec fn view(&self) -> Td4View {
        Td4View { reg: self.reg, port: self.port, prg: self.prg@, clock: self.clock }
    }
}

impl TD4 {
    pub open spec fn wf(&self) -> bool {
        self@.clock.wf()
    }

    /// A simulator at rest with program memory `prg`, registers and ports
    /// zero, and a tick period of `START_PERIOD`.
    pub fn new(prg: Vec<u8>) -> (r: TD4)
        ensures
            r.wf(),
            r@.reg == zero_reg(),
            r@.port == zero_port(),
            r@.prg == prg@,
            r@.clock.state == RunState::Idle,
            r@.clock.period == START_PERIOD,
    {
        TD4 { reg: Reg::zero(), port: Port::zero(), prg, clock: Clock::new(START_PERIOD) }
    }

    pub fn reg(&self) -> (r: Reg)
        ensures
            r == self@.reg,
    {
        self.reg
    }

    pub fn port(&self) -> (r: Port)
        ensures
            r == self@.port,
    {
        self.port
    }

    pub fn prg(&self) -> (r: &Vec<u8>)
        ensures
            r@ == self@.prg,
    {
        &self.prg
    }

    pub fn clock(&self) -> (r: Clock)
        ensures
            r == self@.clock,
    {
        self.clock
    }

    /// The period at which the simulator wants tick messages, or `None`
    /// while it is idle and wants none.
    pub fn tick_period(&self) -> (r: Option<u64>)
        ensures
            r == (match self@.clock.state {
                RunState::Idle => None,
                RunState::Active => Some(self@.clock.period),
            }),
    {
        self.clock.tick_period()
    }

    /// Whether the program counter points at `addr`.
    pub fn is_pc(&self, addr: usize) -> (r: bool)
        ensures
            r == (self@.reg.pc as int == addr as int),
    {
        self.reg.pc as usize == addr
    }

    /// Zeroes registers, flag and ports; memory and clock are untouched.
    pub fn reset(&mut self)
        requires
            old(self).wf(),
        ensures
            final(self).wf(),
            final(self)@ == updated(old(self)@, Message::Reset),
    {
        self.reg = Reg::zero();
        self.port = Port::zero();
    }

    /// Starts free running if idle; does nothing if already running.
    pub fn run(&mut self)
        requires
            old(self).wf(),
        ensures
            final(self).wf(),
            final(self)@ == updated(old(self)@, Message::Run),
    {
        self.clock.run();
    }

    /// Stops free running if running; does nothing if already idle.
    pub fn stop(&mut self)
        requires
            old(self).wf(),
        ensures
            final(self).wf(),
            final(self)@ == updated(old(self)@, Message::Stop),
    {
        self.clock.stop();
    }

    /// Sets the tick period, clamped into the accepted range.
    pub fn set_period(&mut self, ms: u64)
        requires
            old(self).wf(),
        ensures
            final(self).wf(),
            final(self)@ == updated(old(self)@, Message::SliderChanged(ms)),
    {
        self.clock.set_period(ms);
    }

    /// Sets bit `bit` of the input port to `!shown`, while idle.
    pub fn edit_input_bit(&mut self, bit: u8, shown: bool)
        requires
            old(self).wf(),
            bit < 4,
        ensures
            final(self).wf(),
            final(self)@ == updated(old(self)@, Message::InputEdit(bit, shown)),
    {
        if !self.clock.is_active() {
            self.port.input = edit_bit(self.port.input, bit, shown);
        }
    }

    /// Sets bit `bit` of the memory byte at `addr` to `!shown`, while idle.
    pub fn edit_memory_bit(&mut self, addr: usize, bit: u8, shown: bool)
        requires
            old(self).wf(),
            addr < old(self)@.prg.len(),
            bit < 8,
        ensures
            final(self).wf(),
            final(self)@ == updated(old(self)@, Message::RomEdit(addr, bit, shown)),
    {
        if !self.clock.is_active() {
            let byte = edit_bit(self.prg[addr], bit, shown);
            self.prg.set(addr, byte);
        }
    }

    /// Handles one message and says whether the processor must now advance.
    pub fn update(&mut self, message: Message) -> (c: Command)
        requires
            old(self).wf(),
            message_fits(message, old(self)@.prg.len()),
        ensures
            final(self).wf(),
            final(self)@ == updated(old(self)@, message),
            c == command_for(old(self)@, message),
    {
        match message {
            Message::Reset => {
                self.reset();
                Command::Nothing
            },
            Message::Tick => Command::Advance,
            Message::Run => {
                self.run();
                Command::Nothing
            },
            Message::Step => if self.clock.is_active() {
                Command::Nothing
            } else {
                Command::Advance
            },
            Message::InputEdit(bit, shown) => {
                self.edit_input_bit(bit, shown);
                Command::Nothing
            },
            Message::RomEdit(addr, bit, shown) => {
                self.edit_memory_bit(addr, bit, shown);
                Command::Nothing
            },
            Message::Stop => {
                self.stop();
                Command::Nothing
            },
            Message::SliderChanged(ms) => {
                self.set_period(ms);
                Command::Nothing
            },
        }
    }

    /// Lets `ms` milliseconds pass on the clock and returns how many tick
    /// messages fell due in them; none while idle.
    pub fn elapse(&mut self, ms: u64) -> (n: u64)
        requires
            old(self).wf(),
        ensures
            final(self).wf(),
            final(self)@ == (Td4View { clock: old(self)@.clock.elapsed(ms), ..old(self)@ }),
            n == old(self)@.clock.signals_in(ms),
            old(self)@.clock.state == RunState::Idle ==> n == 0,
    {
        self.clock.elapse(ms)
    }

    /// Takes in one cycle of the stepping engine: the registers and ports it
    /// left, and the next program counter it returned.
    pub fn step(&mut self, reg: Reg, port: Port, next_pc: u8)
        requires
            old(self).wf(),
        ensures
            final(self).wf(),
            final(self)@ == advanced(old(self)@, reg, port, next_pc),
    {
        self.reg = Reg { pc: next_pc, ..reg };
        self.port = port;
    }
}

/// A manual step while running changes nothing and asks for no advance;
/// only ticks of the clock move the processor then.
pub proof fn lemma_step_ignored_while_active(s: Td4View)
    requires
        s.clock.state == RunState::Active,
    ensures
        updated(s, Message::Step) == s,
        command_for(s, Message::Step) == Command::Nothing,
{
}

/// A reset zeroes registers, flag and both ports, and leaves program memory
/// and the clock exactly as they were.
pub proof fn lemma_reset_keeps_memory(s: Td4View)
    ensures
        updated(s, Message::Reset).reg == zero_reg(),
        updated(s, Message::Reset).port == zero_port(),
        updated(s, Message::Reset).prg == s.prg,
        updated(s, Message::Reset).clock == s.clock,
{
}

/// The run state moves from idle to active only on `Run`, and from active
/// to idle only on `Stop`; every other message leaves it as it was.
pub proof fn lemma_only_run_and_stop_switch(s: Td4View, m: Message)
    requires
        s.clock.wf(),
    ensures
        updated(s, m).clock.state != s.clock.state ==> (s.clock.state == RunState::Idle && m
            == Message::Run) || (s.clock.state == RunState::Active && m == Message::Stop),
        m == Message::Run ==> updated(s, m).clock.state == RunState::Active,
        m == Message::Stop ==> updated(s, m).clock.state == RunState::Idle,
{
}

/// A memory edit changes only the addressed byte, and only its addressed bit.
pub proof fn lemma_memory_edit_is_local(s: Td4View, addr: usize, bit: u8, shown: bool, j: int)
    requires
        s.clock.state == RunState::Idle,
        addr < s.prg.len(),
        bit < 8,
        0 <= j < s.prg.len(),
    ensures
        updated(s, Message::RomEdit(addr, bit, shown)).prg.len() == s.prg.len(),
        j != addr ==> updated(s, Message::RomEdit(addr, bit, shown)).prg[j] == s.prg[j],
        updated(s, Message::RomEdit(addr, bit, shown)).prg[addr as int] & !(1u8 << bit)
            == s.prg[addr as int] & !(1u8 << bit),
{
    lemma_edit_keeps_other_bits(s.prg[addr as int], bit, shown);
}

/// The label of a bit's control.
pub fn bit2text(bit: bool) -> (r: char)
    ensures
        r == (if bit { '1' } else { '0' }),
{
    if bit {
        '1'
    } else {
        '0'
    }
}

/// The look of a bit's control.
pub fn bit2style(bit: bool) -> (r: Theme)
    ensures
        r == (if bit { Theme::Light } else { Theme::Dark }),
{
    if bit {
        Theme::Light
    } else {
        Theme::Dark
    }
}

/// The bits of the low nibble of `halfbyte`, most significant first.
pub open spec fn nibble_bits(halfbyte: u8) -> Seq<bool> {
    Seq::new(4, |k: int| bit_of(halfbyte, (3 - k) as u8))
}

/// The four indicator lights of a register, most significant bit first.
pub fn led4bit(halfbyte: u8) -> (r: Vec<bool>)
    ensures
        r@ == nibble_bits(halfbyte),
{
    let mut r: Vec<bool> = Vec::new();
    let mut k: u8 = 0;
    while k < 4
        invariant
            k <= 4,
            r@ == nibble_bits(halfbyte).take(k as int),
        decreases 4 - k,
    {
        r.push(read_bit(halfbyte, 3 - k));
        k = k + 1;
        assert(r@ =~= nibble_bits(halfbyte).take(k as int));
    }
    assert(r@ =~= nibble_bits(halfbyte));
    r
}

} // verus!
