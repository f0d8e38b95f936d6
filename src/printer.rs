//! A listing of decoded instructions, one per line, each after its address.
use vstd::prelude::*;
use crate::hex::{append_hex_padded, hex_padded};
use crate::i8085::{asm_text, Instruction};

verus! {

/// A value that has a one-line text form.
pub trait Print {
    /// The text form.
    spec fn text(&self) -> Seq<char>;

    /// Writes the text form.
    fn print(&self) -> (r: String)
        ensures
            r@ == self.text();
}

impl Print for Instruction {
    open spec fn text(&self) -> Seq<char> {
        asm_text(*self)
    }

    fn print(&self) -> (r: String) {
        self.raw_asm()
    }
}

/// How many bits the addresses of a listing have.
#[derive(Debug, Clone, Copy, PartialEq, Eq, Structural)]
pub enum AddressWidth {
    Bits16,
    Bits32,
    Bits64,
}

/// How many hexadecimal digits an address of this width is written with.
pub open spec fn digit_count(w: AddressWidth) -> nat {
    match w {
        AddressWidth::Bits16 => 4,
        AddressWidth::Bits32 => 8,
        AddressWidth::Bits64 => 16,
    }
}

/// One line of a listing: the address in hexadecimal, zero-padded to the
/// width's digit count, four spaces, the item's text and a line break.
pub open spec fn listing_line<I: Print>(addr: usize, item: I, w: AddressWidth) -> Seq<char> {
    hex_padded(addr as nat, digit_count(w)) + "    "@ + item.text() + "\n"@
}

/// The lines of all entries, in order.
pub open spec fn listing<I: Print>(entries: Seq<(usize, I)>, w: AddressWidth) -> Seq<char>
    decreases entries.len(),
{
    if entries.len() == 0 {
        Seq::empty()
    } else {
        listing(entries.drop_last(), w) + listing_line(entries.last().0, entries.last().1, w)
    }
}

/// Decoded items with their addresses, ready to be listed.
pub struct Printer<I: Print> {
    instructions: Vec<(usize, I)>,
    address_width: AddressWidth,
    color: bool,
}

impl<I: Print> Printer<I> {
    /// The items with their addresses, in listing order.
    pub closed spec fn entries(&self) -> Seq<(usize, I)> {
        self.instructions@
    }

    /// The width that addresses are written with.
    pub closed spec fn width(&self) -> AddressWidth {
        self.address_width
    }

    /// Whether the listing asks for colour.
    pub closed spec fn colored(&self) -> bool {
        self.color
    }

    /// A printer for these items, without colour.
    pub fn new(instructions: Vec<(usize, I)>, address_width: AddressWidth) -> (r: Printer<I>)
        ensures
            r.entries() == instructions@,
            r.width() == address_width,
            !r.colored(),
    {
        Printer { instructions, address_width, color: false }
    }

    /// The same printer, asking for colour.
    pub fn with_color(self) -> (r: Printer<I>)
        ensures
            r.entries() == self.entries(),
            r.width() == self.width(),
            r.colored(),
    {
        let mut p = self;
        p.color = true;
        p
    }

    /// Whether the listing asks for colour.
    pub fn is_colored(&self) -> (r: bool)
        ensures
            r == self.colored(),
    {
        self.color
    }

    /// The listing: for each item in order, its address in hexadecimal, four
    /// spaces, its text and a line break.
    pub fn print(&self) -> (r: String)
        ensures
            r@ == listing(self.entries(), self.width()),
    {
        let width: usize = match self.address_width {
            AddressWidth::Bits16 => 4,
            AddressWidth::Bits32 => 8,
            AddressWidth::Bits64 => 16,
        };
        let mut out = String::new();
        let mut k: usize = 0;
        while k < self.instructions.len()
            invariant
                k <= self.instructions@.len(),
                width == digit_count(self.address_width),
                out@ == listing(self.instructions@.take(k as int), self.address_width),
            decreases self.instructions@.len() - k,
        {
            let (addr, item) = &self.instructions[k];
            let ghost before = out@;
            append_hex_padded(&mut out, *addr as u64, width);
            out.append("    ");
            out.append(item.print().as_str());
            out.append("\n");
            proof {
                let next = self.instructions@.take(k + 1);
                assert(next.drop_last() =~= self.instructions@.take(k as int));
                assert(next.last() == self.instructions@[k as int]);
                assert(out@ =~= before + listing_line(*addr, *item, self.address_width));
            }
            k = k + 1;
        }
        assert(self.instructions@.take(k as int) =~= self.instructions@);
        out
    }
}

} // verus!
