//! Rows of bit controls: one per bit of the input port or of a memory byte,
//! most significant bit first, each carrying the edit it asks for.
use vstd::prelude::*;

use crate::bits::{bit_of, read_bit};
use crate::td4_gui::{message_fits, Message};

verus! {

/// The edits that the input port's four controls ask for, most significant
/// bit first; each carries its bit's index and the value it displays.
pub open spec fn input_row(value: u8) -> Seq<Message> {
    Seq::new(4, |k: int| Message::InputEdit((3 - k) as u8, bit_of(value, (3 - k) as u8)))
}

/// The edits that the eight controls of the memory byte at `addr` ask for,
/// most significant bit first.
pub open spec fn rom_row(addr: usize, value: u8) -> Seq<Message> {
    Seq::new(8, |k: int| Message::RomEdit(addr, (7 - k) as u8, bit_of(value, (7 - k) as u8)))
}

/// Editor of the input port's nibble.
#[derive(Clone, Copy, Debug, Default)]
pub struct InputHalfByte {}

impl InputHalfByte {
    /// The controls of the nibble `value`, as the edits they ask for.
    pub fn buttons(&self, value: u8) -> (r: Vec<Message>)
        ensures
            r@ == input_row(value),
    {
        let mut r: Vec<Message> = Vec::new();
        let mut k: u8 = 0;
        while k < 4
            invariant
                k <= 4,
                r@ == input_row(value).take(k as int),
            decreases 4 - k,
        {
            let i: u8 = 3 - k;
            r.push(Message::InputEdit(i, read_bit(value, i)));
            k = k + 1;
            assert(r@ =~= input_row(value).take(k as int));
        }
        assert(r@ =~= input_row(value));
        r
    }
}

/// Editor of one memory byte.
#[derive(Clone, Copy, Debug, Default)]
pub struct RomByte {}

impl RomByte {
    /// The controls of the byte `value` at address `addr`, as the edits they
    /// ask for.
    pub fn buttons(&self, addr: usize, value: u8) -> (r: Vec<Message>)
        ensures
            r@ == rom_row(addr, value),
    {
        let mut r: Vec<Message> = Vec::new();
        let mut k: u8 = 0;
        while k < 8
            invariant
                k <= 8,
                r@ == rom_row(addr, value).take(k as int),
            decreases 8 - k,
        {
            let i: u8 = 7 - k;
            r.push(Message::RomEdit(addr, i, read_bit(value, i)));
            k = k + 1;
            assert(r@ =~= rom_row(addr, value).take(k as int));
        }
        assert(r@ =~= rom_row(addr, value));
        r
    }
}

/// One byte editor per address of program memory.
#[derive(Debug, Default)]
pub struct RomTable {
    pub table: Vec<RomByte>,
}

impl RomTable {
    /// Rebuilds one editor per byte of `prg`, dropping the old ones, and
    /// returns each address's row of controls. Every edit in them names an
    /// address and a bit that exist.
    pub fn create_layout(&mut self, prg: &Vec<u8>) -> (r: Vec<Vec<Message>>)
        ensures
            final(self).table@.len() == prg@.len(),
            r@.len() == prg@.len(),
            forall|a: int| 0 <= a < prg@.len() ==> #[trigger] r@[a]@ == rom_row(a as usize, prg@[a]),
            forall|a: int, k: int|
                0 <= a < prg@.len() && 0 <= k < r@[a]@.len() ==> message_fits(
                    #[trigger] r@[a]@[k],
                    prg@.len(),
                ),
    {
        self.table = Vec::new();
        let mut r: Vec<Vec<Message>> = Vec::new();
        let mut a: usize = 0;
        while a < prg.len()
            invariant
                a <= prg@.len(),
                self.table@.len() == a,
                r@.len() == a,
                forall|b: int| 0 <= b < a ==> #[trigger] r@[b]@ == rom_row(b as usize, prg@[b]),
            decreases prg@.len() - a,
        {
            let byte = RomByte {};
            let row = byte.buttons(a, prg[a]);
            self.table.push(byte);
            r.push(row);
            a = a + 1;
        }
        assert forall|b: int, k: int|
            0 <= b < prg@.len() && 0 <= k < r@[b]@.len() implies message_fits(
                #[trigger] r@[b]@[k],
                prg@.len(),
            ) by {
            assert(r@[b]@ == rom_row(b as usize, prg@[b]));
        }
        r
    }
}

} // verus!
