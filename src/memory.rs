//! The 65536-word memory and its memory-mapped device registers.

use vstd::prelude::*;

verus! {

/// Keyboard status register: reads 1 while a key is waiting.
pub const KBSR: u16 = 0xFE00;

/// Keyboard data register: reading it consumes the waiting key.
pub const KBDR: u16 = 0xFE02;

/// Display status register: the display is always ready.
pub const DSR: u16 = 0xFE04;

/// Display data register: a write here produces a character.
pub const DDR: u16 = 0xFE06;

/// Machine control register: a write of 0 requests a halt.
pub const MCR: u16 = 0xFFFE;

/// The abstract state of memory: the stored words, the keyboard-ready latch,
/// the character written to the display and not yet reported, and whether
/// the last write to the machine control register was a halt request not yet
/// observed.
#[verifier::ext_equal]
pub struct MemoryState {
    pub cells: Seq<i16>,
    pub keyboard_ready: bool,
    pub last_char: Option<i16>,
    pub halt_requested: bool,
}

impl MemoryState {
    /// The value a read of `addr` yields.
    pub open spec fn read_value(self, addr: u16) -> i16 {
        if addr == DSR {
            1
        } else if addr == KBSR {
            if self.keyboard_ready {
                1
            } else {
                0
            }
        } else {
            self.cells[addr as int]
        }
    }

    /// The state after a read of `addr`: reading the keyboard data clears
    /// the keyboard-ready latch.
    pub open spec fn after_read(self, addr: u16) -> MemoryState {
        if addr == KBDR {
            MemoryState { keyboard_ready: false, ..self }
        } else {
            self
        }
    }

    /// The state after `value` is written to `addr`; a write to the display
    /// data register also latches the character, and a write to the machine
    /// control register sets the halt request exactly when `value` is 0.
    pub open spec fn after_write(self, addr: u16, value: i16) -> MemoryState {
        MemoryState {
            cells: self.cells.update(addr as int, value),
            last_char: if addr == DDR {
                Some(value)
            } else {
                self.last_char
            },
            halt_requested: if addr == MCR {
                value == 0
            } else {
                self.halt_requested
            },
            ..self
        }
    }

    /// Every address is backed by a cell.
    pub open spec fn wf(self) -> bool {
        self.cells.len() == 0x10000
    }
}

/// LC-3 memory, with its memory-mapped keyboard, display and control registers.
#[derive(Debug)]
pub struct LC3Memory {
    mem: [i16; 65536],
    keyboard_ready: bool,
    last_char: Option<i16>,
    halt_requested: bool,
}

impl View for LC3Memory {
    type V = MemoryState;

    closed spec fn view(&self) -> MemoryState {
        MemoryState {
            cells: self.mem@,
            keyboard_ready: self.keyboard_ready,
            last_char: self.last_char,
            halt_requested: self.halt_requested,
        }
    }
}

impl LC3Memory {
    /// Memory with every cell 0, no key waiting, no character pending and
    /// no halt requested.
    pub fn new() -> (r: Self)
        ensures
            r@.wf(),
            forall|i: int| 0 <= i < 0x10000 ==> #[trigger] r@.cells[i] == 0,
            !r@.keyboard_ready,
            r@.last_char is None,
            !r@.halt_requested,
    {
        LC3Memory { mem: [0i16; 65536], keyboard_ready: false, last_char: None, halt_requested: false }
    }

    /// Every memory has a cell at each address.
    pub proof fn lemma_wf(&self)
        ensures
            self@.wf(),
    {
    }

    /// Reads the word at `index`, with the side effects of the device registers.
    pub fn get(&mut self, index: u16) -> (r: i16)
        ensures
            r == old(self)@.read_value(index),
            final(self)@ == old(self)@.after_read(index),
    {
        if index == DSR {
            return 1;
        } else if index == KBSR {
            if self.keyboard_ready {
                return 1;
            } else {
                return 0;
            }
        } else if index == KBDR {
            self.keyboard_ready = false;
        }
        self.mem[index as usize]
    }

    /// Writes `value` at `index`; a write to the display data register also
    /// latches the character for the processor to report, and a write to the
    /// machine control register records whether it requests a halt.
    pub fn put(&mut self, index: u16, value: i16)
        ensures
            final(self)@ == old(self)@.after_write(index, value),
    {
        if index == DDR {
            self.last_char = Some(value);
        } else if index == MCR {
            self.halt_requested = value == 0;
        }
        self.mem[index as usize] = value;
        assert(self@ =~~= old(self)@.after_write(index, value));
    }

    /// Takes the character latched by a display write, if any, and clears the latch.
    pub(crate) fn take_char(&mut self) -> (r: Option<i16>)
        ensures
            r == old(self)@.last_char,
            final(self)@ == (MemoryState { last_char: None, ..old(self)@ }),
    {
        let r = self.last_char;
        self.last_char = None;
        r
    }

    /// Takes a pending halt request, if any, and clears it.
    pub(crate) fn take_halt_request(&mut self) -> (r: bool)
        ensures
            r == old(self)@.halt_requested,
            final(self)@ == (MemoryState { halt_requested: false, ..old(self)@ }),
    {
        let r = self.halt_requested;
        self.halt_requested = false;
        r
    }

    /// Raises the keyboard-ready latch.
    pub(crate) fn set_keyboard_ready(&mut self)
        ensures
            final(self)@ == (MemoryState { keyboard_ready: true, ..old(self)@ }),
    {
        self.keyboard_ready = true;
    }
}

} // verus!
