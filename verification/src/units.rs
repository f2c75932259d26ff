//! Numbers and byte counts as people read them.

use vstd::prelude::*;
use vstd::string::StringExecFns;

use crate::params::{GB, KB, MB};

verus! {

/// The unit in which a byte count is shown.
#[derive(Clone, Copy, Debug, PartialEq, Eq)]
pub enum ByteUnit {
    B,
    KiB,
    MiB,
}

/// The values of the byte units.
pub proof fn lemma_unit_values()
    ensures
        KB == 1024,
        MB == 1024 * 1024,
        GB == 1024 * 1024 * 1024,
{
    assert(1usize << 10 == 1024) by (bit_vector);
    assert(1024usize << 10 == 1048576) by (bit_vector);
    assert(1048576usize << 10 == 1073741824) by (bit_vector);
}

/// The character of the digit `d`.
pub open spec fn digit_char(d: nat) -> char
    recommends
        d < 10,
{
    if d == 0 {
        '0'
    } else if d == 1 {
        '1'
    } else if d == 2 {
        '2'
    } else if d == 3 {
        '3'
    } else if d == 4 {
        '4'
    } else if d == 5 {
        '5'
    } else if d == 6 {
        '6'
    } else if d == 7 {
        '7'
    } else if d == 8 {
        '8'
    } else {
        '9'
    }
}

/// `n` in decimal digits, the most significant first, without leading
/// zeros.
pub open spec fn decimal(n: nat) -> Seq<char>
    decreases n,
{
    if n < 10 {
        seq![digit_char(n)]
    } else {
        decimal(n / 10).push(digit_char(n % 10))
    }
}

/// The letters of a unit.
pub open spec fn suffix_of(unit: ByteUnit) -> Seq<char> {
    match unit {
        ByteUnit::B => seq!['B'],
        ByteUnit::KiB => seq!['K', 'i', 'B'],
        ByteUnit::MiB => seq!['M', 'i', 'B'],
    }
}

/// `n` bytes in the largest unit that does not exceed them, rounded down.
pub open spec fn scaled(n: usize) -> (usize, ByteUnit) {
    if n >= MB {
        ((n / MB) as usize, ByteUnit::MiB)
    } else if n >= KB {
        ((n / KB) as usize, ByteUnit::KiB)
    } else {
        (n, ByteUnit::B)
    }
}

/// `n` bytes as text: the scaled number, then the unit.
pub open spec fn human(n: usize) -> Seq<char> {
    decimal(scaled(n).0 as nat) + suffix_of(scaled(n).1)
}

fn digit_str(d: u8) -> (s: &'static str)
    requires
        d < 10,
    ensures
        s@ == seq![digit_char(d as nat)],
{
    proof {
        reveal_strlit("0");
        reveal_strlit("1");
        reveal_strlit("2");
        reveal_strlit("3");
        reveal_strlit("4");
        reveal_strlit("5");
        reveal_strlit("6");
        reveal_strlit("7");
        reveal_strlit("8");
        reveal_strlit("9");
    }
    let s = if d == 0 {
        "0"
    } else if d == 1 {
        "1"
    } else if d == 2 {
        "2"
    } else if d == 3 {
        "3"
    } else if d == 4 {
        "4"
    } else if d == 5 {
        "5"
    } else if d == 6 {
        "6"
    } else if d == 7 {
        "7"
    } else if d == 8 {
        "8"
    } else {
        "9"
    };
    assert(s@ =~= seq![digit_char(d as nat)]);
    s
}

/// Writes `n` in decimal at the end of `out`.
pub fn push_decimal(out: &mut String, n: u128)
    ensures
        final(out)@ == old(out)@ + decimal(n as nat),
    decreases n,
{
    if n >= 10 {
        push_decimal(out, n / 10);
    }
    out.append(digit_str((n % 10) as u8));
    assert(out@ =~= old(out)@ + decimal(n as nat));
}

impl ByteUnit {
    /// The letters of the unit.
    pub fn suffix(self) -> (s: &'static str)
        ensures
            s@ == suffix_of(self),
    {
        proof {
            reveal_strlit("B");
            reveal_strlit("KiB");
            reveal_strlit("MiB");
        }
        let s = match self {
            ByteUnit::B => "B",
            ByteUnit::KiB => "KiB",
            ByteUnit::MiB => "MiB",
        };
        assert(s@ =~= suffix_of(self));
        s
    }
}

/// The number and the unit by which `n` bytes are shown: whole MiB from one
/// MiB on, whole KiB from one KiB on, bytes below that.
pub fn human_scale(n: usize) -> (shown: (usize, ByteUnit))
    ensures
        shown == scaled(n),
{
    proof {
        lemma_unit_values();
    }
    if n >= MB {
        (n / MB, ByteUnit::MiB)
    } else if n >= KB {
        (n / KB, ByteUnit::KiB)
    } else {
        (n, ByteUnit::B)
    }
}

/// `n` bytes as text, such as `64KiB`.
pub fn human_bytes(n: usize) -> (s: String)
    ensures
        s@ == human(n),
{
    let (value, unit) = human_scale(n);
    let mut s = String::new();
    push_decimal(&mut s, value as u128);
    s.append(unit.suffix());
    s
}

} // verus!
