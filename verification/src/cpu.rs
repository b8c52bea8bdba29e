//! The processor: registers, program counter, stack pointer, interrupt
//! master enable with its one-instruction EI delay, the HALT flag, and the
//! bus it owns.
//!
//! `CpuState` is the mathematical state of the whole machine.  Every
//! mutation of the processor is specified as a function from `CpuState` to
//! `CpuState`; the fetch-decode-execute step composes them.

use vstd::prelude::*;

use crate::bus::Bus;
use crate::bus::BusView;
use crate::bus::bus_read_of;
use crate::bus::bus_wf;
use crate::bus::bus_write_of;
use crate::opcode::Opcode;
use crate::opcode::execute_opcode;
use crate::opcode::spec_decode;
use crate::opcode::spec_execute;
use crate::registers::Registers;
use crate::registers::initial_registers;
use crate::wadd16;
use crate::wsub16;

verus! {

/// The mathematical state of the processor and the bus it owns.
#[verifier::ext_equal]
pub struct CpuState {
    pub regs: Registers,
    pub pc: u16,
    pub sp: u16,
    pub ime: bool,
    pub halted: bool,
    /// The EI delay counter: EI arms it at 2; the step prologue counts it
    /// down and raises IME on the transition to zero.
    pub ei_delay: u8,
    /// Whether STOP retires as a no-op instead of surfacing a fault.
    pub stop_as_noop: bool,
    pub bus: BusView,
}

impl CpuState {
    pub open spec fn wf(self) -> bool {
        bus_wf(self.bus)
    }

    /// The byte the bus yields at `address`.
    pub open spec fn read8(self, address: u16) -> u8 {
        bus_read_of(self.bus, address)
    }

    /// The state after the bus accepts a byte at `address`.
    pub open spec fn write8(self, address: u16, value: u8) -> CpuState {
        CpuState { bus: bus_write_of(self.bus, address, value), ..self }
    }

    pub open spec fn with_pc(self, pc: u16) -> CpuState {
        CpuState { pc, ..self }
    }

    pub open spec fn with_regs(self, regs: Registers) -> CpuState {
        CpuState { regs, ..self }
    }

    /// The same machine with its flag cell replaced.
    pub open spec fn with_flags(self, f: crate::registers::Flags) -> CpuState {
        CpuState { regs: Registers { f, ..self.regs }, ..self }
    }

    /// The little-endian word at `address`.
    pub open spec fn read16(self, address: u16) -> u16 {
        (self.read8(address) + 0x100 * self.read8(wadd16(address, 1))) as u16
    }
}

/// The state after a word is pushed: the stack grows downward, high byte
/// first, so the low byte ends at the lower address.
pub open spec fn spec_push_word(s: CpuState, value: u16) -> CpuState {
    let high_at = wsub16(s.sp, 1);
    let low_at = wsub16(s.sp, 2);
    let s1 = CpuState { sp: high_at, ..s }.write8(high_at, (value / 0x100) as u8);
    CpuState { sp: low_at, ..s1 }.write8(low_at, (value % 0x100) as u8)
}

/// The word a pop yields: low byte at SP, high byte above it.
pub open spec fn spec_pop_word_value(s: CpuState) -> u16 {
    (s.read8(s.sp) + 0x100 * s.read8(wadd16(s.sp, 1))) as u16
}

/// The state after a word is popped: only SP moves.
pub open spec fn spec_pop_word_state(s: CpuState) -> CpuState {
    CpuState { sp: wadd16(s.sp, 2), ..s }
}

/// The enabled-and-pending interrupt bits.
pub open spec fn spec_pending(s: CpuState) -> u8 {
    s.bus.interrupt_enable & s.bus.interrupt_flags
}

/// The index of the lowest set bit among the five interrupt bits: the
/// priority order is strict by bit index.
pub open spec fn lowest_interrupt_bit(pending: u8) -> u8 {
    if pending & 0x01 != 0 {
        0
    } else if pending & 0x02 != 0 {
        1
    } else if pending & 0x04 != 0 {
        2
    } else if pending & 0x08 != 0 {
        3
    } else {
        4
    }
}

/// The interrupt poll between instructions.  A pending interrupt always
/// clears HALT; if IME is set the dispatcher additionally clears IME,
/// acknowledges the chosen bit in IF, pushes PC and jumps to the fixed
/// vector, which costs 20 cycles.
pub open spec fn spec_interrupt_step(s: CpuState) -> (CpuState, u8) {
    let pending = spec_pending(s);
    if pending == 0 {
        (s, 0)
    } else {
        let woken = CpuState { halted: false, ..s };
        if !s.ime {
            (woken, 0)
        } else {
            let n = lowest_interrupt_bit(pending);
            let acked = CpuState {
                ime: false,
                bus: BusView {
                    interrupt_flags: s.bus.interrupt_flags & !(1u8 << n),
                    ..s.bus
                },
                ..woken
            };
            let pushed = spec_push_word(acked, s.pc);
            (CpuState { pc: (0x40 + 8 * n) as u16, ..pushed }, 20)
        }
    }
}

/// The EI-delay countdown in the step prologue: 2 becomes 1; 1 becomes 0
/// and raises IME; 0 stays.
pub open spec fn spec_ime_update(s: CpuState) -> CpuState {
    if s.ei_delay == 2 {
        CpuState { ei_delay: 1, ..s }
    } else if s.ei_delay == 1 {
        CpuState { ei_delay: 0, ime: true, ..s }
    } else {
        CpuState { ei_delay: 0, ..s }
    }
}

/// One whole step of the machine: the EI-delay countdown, the interrupt
/// poll, the HALT idle, and otherwise the fetch, decode and execution of
/// the instruction at PC — together with the cycles it costs or the fault
/// it surfaces.
pub open spec fn spec_step(s: CpuState) -> (CpuState, Result<u8, CpuError>) {
    let s1 = spec_ime_update(s);
    let polled = spec_interrupt_step(s1);
    let s2 = polled.0;
    if polled.1 > 0 {
        (s2, Ok(polled.1))
    } else if s2.halted {
        (s2, Ok(4u8))
    } else {
        let op = spec_decode(s2.read8(s2.pc));
        spec_execute(s2.with_pc(crate::wadd16(s2.pc, 1)), op)
    }
}

/// A fault the step surfaces instead of executing: the driver decides
/// whether to abort.
#[derive(Clone, Copy, Debug, PartialEq, Eq, Structural)]
pub enum CpuError {
    /// The opcode byte at `pc` hits a reserved slot of the base table.
    InvalidOpcode { pc: u16, byte: u8 },
    /// A STOP instruction retired while STOP is configured as fatal.
    Stop { pc: u16 },
}

/// The processor.
pub struct CPU {
    // Standard registers
    pub registers: Registers,
    // Program counter
    pub pc: u16,
    // Stack pointer
    pub sp: u16,
    // Interrupt master enable
    pub ime: bool,
    // Halt flag
    pub halted: bool,
    // Address bus
    pub bus: Bus,
    // Counts down the one-instruction delay of EI
    pub interrupt_enable_counter: u8,
    // Whether STOP retires as a no-op instead of surfacing a fault
    pub stop_as_noop: bool,
}

impl View for CPU {
    type V = CpuState;

    open spec fn view(&self) -> CpuState {
        CpuState {
            regs: self.registers,
            pc: self.pc,
            sp: self.sp,
            ime: self.ime,
            halted: self.halted,
            ei_delay: self.interrupt_enable_counter,
            stop_as_noop: self.stop_as_noop,
            bus: self.bus@,
        }
    }
}

impl CPU {
    pub open spec fn wf(&self) -> bool {
        self@.wf()
    }

    /// A processor over the given bus, as control arrives from the boot
    /// ROM: PC at 0x100, SP at 0xFFFE, IME off, not halted, STOP fatal.
    pub fn new(bus: Bus) -> (cpu: CPU)
        ensures
            cpu@ == (CpuState {
                regs: initial_registers(),
                pc: 0x100,
                sp: 0xFFFE,
                ime: false,
                halted: false,
                ei_delay: 0,
                stop_as_noop: false,
                bus: bus@,
            }),
            bus.wf() ==> cpu.wf(),
    {
        let ghost bus_view = bus@;
        let cpu = CPU {
            registers: Registers::new(),
            pc: 0x100,
            sp: 0xFFFE,
            bus,
            ime: false,
            halted: false,
            interrupt_enable_counter: 0,
            stop_as_noop: false,
        };
        proof {
            assert(cpu@ =~~= (CpuState {
                regs: initial_registers(),
                pc: 0x100,
                sp: 0xFFFE,
                ime: false,
                halted: false,
                ei_delay: 0,
                stop_as_noop: false,
                bus: bus_view,
            }));
        }
        cpu
    }

    /// Count the EI delay down; IME rises on the transition to zero, so it
    /// is set only after the instruction following EI has retired.
    pub fn update_ime(&mut self)
        ensures
            final(self)@ == spec_ime_update(old(self)@),
            final(self).wf() == old(self).wf(),
    {
        if self.interrupt_enable_counter == 2 {
            self.interrupt_enable_counter = 1;
        } else if self.interrupt_enable_counter == 1 {
            self.ime = true;
            self.interrupt_enable_counter = 0;
        } else {
            self.interrupt_enable_counter = 0;
        }
        proof {
            assert(self@ =~~= spec_ime_update(old(self)@));
        }
    }

    /// Poll the interrupt controller between instructions.
    pub fn handleinterrupt(&mut self) -> (cycles: u8)
        requires
            old(self).wf(),
        ensures
            final(self).wf(),
            final(self)@ == spec_interrupt_step(old(self)@).0,
            cycles == spec_interrupt_step(old(self)@).1,
    {
        let triggered = self.bus.interrupt_enable() & self.bus.interrupt_flags();
        if triggered == 0 {
            proof {
                assert(self@ =~~= spec_interrupt_step(old(self)@).0);
            }
            return 0;
        }
        self.halted = false;
        if !self.ime {
            proof {
                assert(self@ =~~= spec_interrupt_step(old(self)@).0);
            }
            return 0;
        }
        self.ime = false;
        let n: u8 = if triggered & 0x01 != 0 {
            0
        } else if triggered & 0x02 != 0 {
            1
        } else if triggered & 0x04 != 0 {
            2
        } else if triggered & 0x08 != 0 {
            3
        } else {
            4
        };
        self.bus.acknowledge_interrupt(n);
        let return_pc = self.pc;
        self.push_word(return_pc);
        self.pc = 0x0040 + 8 * (n as u16);
        proof {
            assert(self@ =~~= spec_interrupt_step(old(self)@).0);
        }
        20
    }

    /// The opcode or operand byte at PC; PC moves past it.
    pub fn next_byte(&mut self) -> (byte: u8)
        requires
            old(self).wf(),
        ensures
            final(self).wf(),
            byte == old(self)@.read8(old(self).pc),
            final(self)@ == old(self)@.with_pc(wadd16(old(self).pc, 1)),
    {
        let byte = self.bus.read(self.pc);
        self.pc = self.pc.wrapping_add(1);
        proof {
            assert(self@ =~~= old(self)@.with_pc(wadd16(old(self).pc, 1)));
        }
        byte
    }

    /// The little-endian immediate word at PC; PC moves past it.
    pub fn next_word(&mut self) -> (value: u16)
        requires
            old(self).wf(),
        ensures
            final(self).wf(),
            value == old(self)@.read16(old(self).pc),
            final(self)@ == old(self)@.with_pc(wadd16(old(self).pc, 2)),
    {
        let low = self.next_byte() as u16;
        let high = self.next_byte() as u16;
        proof {
            assert(self@ =~~= old(self)@.with_pc(wadd16(old(self).pc, 2)));
        }
        high * 0x100 + low
    }

    /// The byte at PC, PC unmoved.
    pub fn peek_byte(&self) -> (byte: u8)
        requires
            self.wf(),
        ensures
            byte == self@.read8(self.pc),
    {
        self.bus.read(self.pc)
    }

    /// The byte at PC plus `offset`, PC unmoved.
    pub fn peek_byte_at_offset(&self, offset: u16) -> (byte: u8)
        requires
            self.wf(),
        ensures
            byte == self@.read8(wadd16(self.pc, offset)),
    {
        self.bus.read(self.pc.wrapping_add(offset))
    }

    /// The little-endian word at PC, PC unmoved.
    pub fn peek_word(&self) -> (value: u16)
        requires
            self.wf(),
        ensures
            value == self@.read16(self.pc),
    {
        let low = self.bus.read(self.pc) as u16;
        let high = self.bus.read(self.pc.wrapping_add(1)) as u16;
        high * 0x100 + low
    }

    /// The four bytes starting at PC, as a little-endian double word.
    pub fn peek_double(&self) -> (value: u32)
        requires
            self.wf(),
        ensures
            value == self@.read8(self.pc) + 0x100 * self@.read8(wadd16(self.pc, 1)) + 0x10000
                * self@.read8(wadd16(self.pc, 2)) + 0x1000000 * self@.read8(wadd16(self.pc, 3)),
    {
        let b0 = self.bus.read(self.pc) as u32;
        let b1 = self.bus.read(self.pc.wrapping_add(1)) as u32;
        let b2 = self.bus.read(self.pc.wrapping_add(2)) as u32;
        let b3 = self.bus.read(self.pc.wrapping_add(3)) as u32;
        b0 + 0x100 * b1 + 0x10000 * b2 + 0x1000000 * b3
    }

    /// Push one byte: SP moves down, then the byte lands at SP.
    pub fn push_byte(&mut self, value: u8)
        requires
            old(self).wf(),
        ensures
            final(self).wf(),
            final(self)@ == (CpuState { sp: wsub16(old(self).sp, 1), ..old(self)@ }).write8(
                wsub16(old(self).sp, 1),
                value,
            ),
    {
        let sp = self.sp.wrapping_sub(1);
        self.sp = sp;
        self.bus.write(sp, value);
        proof {
            assert(self@ =~~= (CpuState { sp: wsub16(old(self).sp, 1), ..old(self)@ }).write8(
                wsub16(old(self).sp, 1),
                value,
            ));
        }
    }

    /// Pop one byte: the byte at SP, then SP moves up.
    pub fn pop_byte(&mut self) -> (value: u8)
        requires
            old(self).wf(),
        ensures
            final(self).wf(),
            value == old(self)@.read8(old(self).sp),
            final(self)@ == (CpuState { sp: wadd16(old(self).sp, 1), ..old(self)@ }),
    {
        let sp = self.sp;
        let value = self.bus.read(sp);
        self.sp = sp.wrapping_add(1);
        proof {
            assert(self@ =~~= (CpuState { sp: wadd16(old(self).sp, 1), ..old(self)@ }));
        }
        value
    }

    /// Push a word: high byte first, so the low byte sits at the lower
    /// address.
    pub fn push_word(&mut self, value: u16)
        requires
            old(self).wf(),
        ensures
            final(self).wf(),
            final(self)@ == spec_push_word(old(self)@, value),
    {
        self.push_byte((value / 0x100) as u8);
        self.push_byte((value % 0x100) as u8);
        proof {
            assert(self@ =~~= spec_push_word(old(self)@, value));
        }
    }

    /// Pop a word: low byte at SP, high byte above it.
    pub fn pop_word(&mut self) -> (value: u16)
        requires
            old(self).wf(),
        ensures
            final(self).wf(),
            value == spec_pop_word_value(old(self)@),
            final(self)@ == spec_pop_word_state(old(self)@),
    {
        let low = self.pop_byte() as u16;
        let high = self.pop_byte() as u16;
        proof {
            assert(self@ =~~= spec_pop_word_state(old(self)@));
        }
        high * 0x100 + low
    }

    /// Raise or clear the HALT flag.
    pub fn set_halted(&mut self, halted: bool)
        ensures
            final(self)@ == (CpuState { halted, ..old(self)@ }),
            final(self).wf() == old(self).wf(),
    {
        self.halted = halted;
        proof {
            assert(self@ =~~= (CpuState { halted, ..old(self)@ }));
        }
    }

    /// One step of the machine: count the EI delay down, service a
    /// pending interrupt, idle while halted, and otherwise fetch, decode
    /// and execute the instruction at PC.  Returns the cycle cost, or the
    /// fault a reserved opcode or a fatal STOP surfaces.
    pub fn execute_next_instruction(&mut self) -> (result: Result<u8, CpuError>)
        requires
            old(self).wf(),
        ensures
            final(self).wf(),
            final(self)@ == spec_step(old(self)@).0,
            result == spec_step(old(self)@).1,
    {
        self.update_ime();
        let interrupt_cycles = self.handleinterrupt();
        if interrupt_cycles > 0 {
            return Ok(interrupt_cycles);
        }
        if self.halted {
            return Ok(4);
        }
        let byte = self.next_byte();
        let opcode = Opcode::from_byte(byte);
        execute_opcode(self, opcode)
    }

    /// Retire a STOP instruction: a no-op when configured so, otherwise a
    /// fault carrying the address of the STOP opcode.
    pub fn stop(&mut self) -> (result: Result<u8, CpuError>)
        ensures
            *final(self) == *old(self),
            result == (if old(self).stop_as_noop {
                Result::<u8, CpuError>::Ok(4)
            } else {
                Result::<u8, CpuError>::Err(CpuError::Stop { pc: wsub16(old(self).pc, 1) })
            }),
    {
        if self.stop_as_noop {
            Ok(4)
        } else {
            Err(CpuError::Stop { pc: self.pc.wrapping_sub(1) })
        }
    }
}

/// Addresses backed by plain RAM cells of the bus: video RAM, work RAM
/// with its echo, and high RAM.  A write there is read back unchanged.
pub open spec fn plain_ram(address: u16) -> bool {
    (0x8000 <= address < 0xA000) || (0xC000 <= address < 0xFE00) || (0xFF80 <= address < 0xFFFF)
}

/// Stack round trip: pushing a word and popping it back yields the word
/// exactly and restores SP, whenever both stack cells lie in plain RAM.
#[verifier::rlimit(100)]
pub proof fn lemma_stack_round_trip(s: CpuState, value: u16)
    requires
        s.wf(),
        plain_ram(wsub16(s.sp, 1)),
        plain_ram(wsub16(s.sp, 2)),
    ensures
        spec_pop_word_value(spec_push_word(s, value)) == value,
        spec_pop_word_state(spec_push_word(s, value)).sp == s.sp,
{
    let pushed = spec_push_word(s, value);
    assert(wadd16(pushed.sp, 1) == wsub16(s.sp, 1));
    assert(pushed.read8(pushed.sp) == value % 0x100);
    assert(pushed.read8(wsub16(s.sp, 1)) == value / 0x100);
}

/// The AF case of the stack round trip: popping the pushed word into AF
/// restores it with the low nibble cleared, because the flag cell never
/// stores its low four bits.
pub proof fn lemma_stack_round_trip_af(s: CpuState, value: u16)
    requires
        s.wf(),
        plain_ram(wsub16(s.sp, 1)),
        plain_ram(wsub16(s.sp, 2)),
    ensures
        ({
            let pushed = spec_push_word(s, value);
            let popped = crate::opcode::targets::target16_store(
                spec_pop_word_state(pushed),
                crate::opcode::targets::Target16::AF,
                spec_pop_word_value(pushed),
            );
            popped.regs.af_spec() == value & 0xFFF0
        }),
{
    lemma_stack_round_trip(s, value);
    crate::registers::lemma_af_round_trip(spec_pop_word_state(spec_push_word(s, value)).regs, value);
}

/// The EI delay and the immediacy of DI: EI leaves IME untouched, the
/// prologue of the instruction after EI still leaves it untouched, and
/// only the prologue after that one raises it — so IME becomes 1 only
/// after the instruction following EI retires.  DI clears IME at once.
pub proof fn lemma_ei_di_timing(s: CpuState)
    ensures
        crate::opcode::interrupt::spec_enable_interrupt(s, true).ime == s.ime,
        spec_ime_update(crate::opcode::interrupt::spec_enable_interrupt(s, true)).ime == s.ime,
        spec_ime_update(
            spec_ime_update(crate::opcode::interrupt::spec_enable_interrupt(s, true)),
        ).ime,
        !crate::opcode::interrupt::spec_enable_interrupt(s, false).ime,
{
}

/// Interrupt dispatch priority: with IME set and interrupt bits both
/// armed and fired, the dispatcher takes the lowest-numbered pending bit
/// — every lower bit is clear — jumps to its fixed vector at
/// 0x40 + 8 * n, clears IME, and clears exactly that bit in IF.  The two
/// stack cells must lie off the interrupt registers themselves, which the
/// push would otherwise overwrite.
#[verifier::rlimit(100)]
pub proof fn lemma_interrupt_priority(s: CpuState)
    requires
        s.wf(),
        s.ime,
        spec_pending(s) != 0,
        wsub16(s.sp, 1) != 0xFF0F && wsub16(s.sp, 1) != 0xFFFF,
        wsub16(s.sp, 2) != 0xFF0F && wsub16(s.sp, 2) != 0xFFFF,
    ensures
        ({
            let p = spec_pending(s);
            let n = lowest_interrupt_bit(p);
            let after = spec_interrupt_step(s).0;
            &&& spec_interrupt_step(s).1 == 20
            &&& after.pc == 0x40 + 8 * n
            &&& !after.ime
            &&& p & (1u8 << n) != 0
            &&& (n != 0 ==> p & 0x01 == 0)
            &&& (n > 1 ==> p & 0x02 == 0)
            &&& (n > 2 ==> p & 0x04 == 0)
            &&& (n > 3 ==> p & 0x08 == 0)
            &&& after.bus.interrupt_flags == s.bus.interrupt_flags & !(1u8 << n)
        }),
{
    let enable = s.bus.interrupt_enable;
    let fired = s.bus.interrupt_flags;
    let p = spec_pending(s);
    let n = lowest_interrupt_bit(p);
    assert(enable < 0x20 ==> (enable & fired) < 0x20) by (bit_vector);
    assert((p & 0x01 == 0 && p & 0x02 == 0 && p & 0x04 == 0 && p & 0x08 == 0 && p != 0 && p
        < 0x20) ==> p & 0x10 != 0) by (bit_vector);
    assert(1u8 << 0 == 0x01 && 1u8 << 1 == 0x02 && 1u8 << 2 == 0x04 && 1u8 << 3 == 0x08 && 1u8 << 4
        == 0x10) by (bit_vector);
    let acked_bus = BusView { interrupt_flags: fired & !(1u8 << n), ..s.bus };
    let a1 = wsub16(s.sp, 1);
    let a2 = wsub16(s.sp, 2);
    let b1 = bus_write_of(acked_bus, a1, (s.pc / 0x100) as u8);
    let b2 = bus_write_of(b1, a2, (s.pc % 0x100) as u8);
    assert(b1.interrupt_flags == acked_bus.interrupt_flags);
    assert(b2.interrupt_flags == acked_bus.interrupt_flags);
    assert(spec_interrupt_step(s).0.bus =~~= b2);
}

} // verus!
