//! A diagnostic dump of the register file: every register in binary, two
//! to a line. It reads the registers and changes nothing.

use vstd::prelude::*;
use vstd::string::StringExecFns;
use crate::bits::bit_of;
use crate::cpu::CPU;

verus! {

/// The digit that shows bit `index` of `value`.
pub open spec fn binary_digit(value: u8, index: u8) -> char {
    if bit_of(value, index) {
        '1'
    } else {
        '0'
    }
}

/// The `count` leading binary digits of `value`, bit 7 first.
pub open spec fn binary_digits(value: u8, count: nat) -> Seq<char> {
    Seq::new(count, |i: int| binary_digit(value, (7 - i) as u8))
}

/// A byte in binary: `0b` and all eight digits, leading zeros included.
pub open spec fn spec_binary(value: u8) -> Seq<char> {
    seq!['0', 'b'] + binary_digits(value, 8)
}

/// One line of the dump: two registers by name, each in binary.
pub open spec fn spec_line(first: char, x: u8, second: char, y: u8) -> Seq<char> {
    seq![first, ':', ' '] + spec_binary(x) + seq![' ', second, ':', ' '] + spec_binary(y)
        + seq!['\n']
}

/// Appends `value` in binary to `text`.
fn append_binary(text: &mut String, value: u8)
    ensures
        final(text)@ == old(text)@ + spec_binary(value),
{
    let ghost before = text@;
    proof {
        reveal_strlit("0b");
        reveal_strlit("0");
        reveal_strlit("1");
    }
    text.append("0b");
    assert(text@ =~= before + seq!['0', 'b'] + binary_digits(value, 0));
    let mut index: u8 = 8;
    while index > 0
        invariant
            index <= 8,
            text@ == before + seq!['0', 'b'] + binary_digits(value, (8 - index) as nat),
            "0"@ == seq!['0'],
            "1"@ == seq!['1'],
        decreases index,
    {
        let ghost shown = binary_digits(value, (8 - index) as nat);
        index = index - 1;
        if value & (1u8 << index) != 0 {
            text.append("1");
        } else {
            text.append("0");
        }
        assert(binary_digits(value, (8 - index) as nat) =~= shown.push(
            binary_digit(value, index),
        ));
        assert(text@ =~= before + seq!['0', 'b'] + binary_digits(value, (8 - index) as nat));
    }
    assert(text@ =~= before + spec_binary(value));
}

/// Appends one line of the dump to `text`.
fn append_line(text: &mut String, first: &str, x: u8, second: &str, y: u8)
    ensures
        final(text)@ == old(text)@ + first@ + spec_binary(x) + second@ + spec_binary(y) + seq![
            '\n',
        ],
{
    proof {
        reveal_strlit("\n");
    }
    text.append(first);
    append_binary(text, x);
    text.append(second);
    append_binary(text, y);
    text.append("\n");
}

impl CPU {
    /// The text of the dump: four lines, for `a` and `b`, `c` and `d`, `e`
    /// and the encoded flags `f`, `h` and `l`.
    pub open spec fn spec_dump(self) -> Seq<char> {
        spec_line('a', self.registers.a, 'b', self.registers.b) + spec_line(
            'c',
            self.registers.c,
            'd',
            self.registers.d,
        ) + spec_line('e', self.registers.e, 'f', self.registers.f.spec_to_byte()) + spec_line(
            'h',
            self.registers.h,
            'l',
            self.registers.l,
        )
    }

    /// Renders the registers for inspection.
    pub fn dump(&self) -> (text: String)
        ensures
            text@ == self.spec_dump(),
    {
        proof {
            reveal_strlit("a: ");
            reveal_strlit(" b: ");
            reveal_strlit("c: ");
            reveal_strlit(" d: ");
            reveal_strlit("e: ");
            reveal_strlit(" f: ");
            reveal_strlit("h: ");
            reveal_strlit(" l: ");
        }
        let mut text = String::new();
        append_line(&mut text, "a: ", self.registers.a, " b: ", self.registers.b);
        append_line(&mut text, "c: ", self.registers.c, " d: ", self.registers.d);
        append_line(&mut text, "e: ", self.registers.e, " f: ", self.registers.f.to_byte());
        append_line(&mut text, "h: ", self.registers.h, " l: ", self.registers.l);
        assert(text@ =~= self.spec_dump());
        text
    }
}

} // verus!
