//! Text encodings of byte strings.
//!
//! Lower-case hexadecimal is the library's canonical text form for proof
//! bytes and field-element representations; it is implemented here and
//! proved against an exact character-level description.

use vstd::prelude::*;
use vstd::string::StringExecFns;

verus! {

/// The lower-case hexadecimal digit for a value below 16.
pub open spec fn hex_char_of(n: int) -> char {
    if n == 0 {
        '0'
    } else if n == 1 {
        '1'
    } else if n == 2 {
        '2'
    } else if n == 3 {
        '3'
    } else if n == 4 {
        '4'
    } else if n == 5 {
        '5'
    } else if n == 6 {
        '6'
    } else if n == 7 {
        '7'
    } else if n == 8 {
        '8'
    } else if n == 9 {
        '9'
    } else if n == 10 {
        'a'
    } else if n == 11 {
        'b'
    } else if n == 12 {
        'c'
    } else if n == 13 {
        'd'
    } else if n == 14 {
        'e'
    } else {
        'f'
    }
}

/// The two hexadecimal digits of one byte, high digit first.
pub open spec fn hex_pair(b: u8) -> Seq<char> {
    seq![hex_char_of(b as int / 16), hex_char_of(b as int % 16)]
}

/// The hexadecimal encoding of a byte string: two digits per byte, in order.
pub open spec fn hex_of_bytes(b: Seq<u8>) -> Seq<char>
    decreases b.len(),
{
    if b.len() == 0 {
        Seq::empty()
    } else {
        hex_of_bytes(b.drop_last()) + hex_pair(b.last())
    }
}

/// Appends the hexadecimal digit of a value below 16.
fn push_hex_char(s: &mut String, nibble: u8)
    requires
        nibble < 16,
    ensures
        final(s)@ == old(s)@ + seq![hex_char_of(nibble as int)],
{
    if nibble == 0 {
        s.append("0");
        proof {
            reveal_strlit("0");
            assert(("0")@ =~= seq![hex_char_of(0)]);
        }
    } else if nibble == 1 {
        s.append("1");
        proof {
            reveal_strlit("1");
            assert(("1")@ =~= seq![hex_char_of(1)]);
        }
    } else if nibble == 2 {
        s.append("2");
        proof {
            reveal_strlit("2");
            assert(("2")@ =~= seq![hex_char_of(2)]);
        }
    } else if nibble == 3 {
        s.append("3");
        proof {
            reveal_strlit("3");
            assert(("3")@ =~= seq![hex_char_of(3)]);
        }
    } else if nibble == 4 {
        s.append("4");
        proof {
            reveal_strlit("4");
            assert(("4")@ =~= seq![hex_char_of(4)]);
        }
    } else if nibble == 5 {
        s.append("5");
        proof {
            reveal_strlit("5");
            assert(("5")@ =~= seq![hex_char_of(5)]);
        }
    } else if nibble == 6 {
        s.append("6");
        proof {
            reveal_strlit("6");
            assert(("6")@ =~= seq![hex_char_of(6)]);
        }
    } else if nibble == 7 {
        s.append("7");
        proof {
            reveal_strlit("7");
            assert(("7")@ =~= seq![hex_char_of(7)]);
        }
    } else if nibble == 8 {
        s.append("8");
        proof {
            reveal_strlit("8");
            assert(("8")@ =~= seq![hex_char_of(8)]);
        }
    } else if nibble == 9 {
        s.append("9");
        proof {
            reveal_strlit("9");
            assert(("9")@ =~= seq![hex_char_of(9)]);
        }
    } else if nibble == 10 {
        s.append("a");
        proof {
            reveal_strlit("a");
            assert(("a")@ =~= seq![hex_char_of(10)]);
        }
    } else if nibble == 11 {
        s.append("b");
        proof {
            reveal_strlit("b");
            assert(("b")@ =~= seq![hex_char_of(11)]);
        }
    } else if nibble == 12 {
        s.append("c");
        proof {
            reveal_strlit("c");
            assert(("c")@ =~= seq![hex_char_of(12)]);
        }
    } else if nibble == 13 {
        s.append("d");
        proof {
            reveal_strlit("d");
            assert(("d")@ =~= seq![hex_char_of(13)]);
        }
    } else if nibble == 14 {
        s.append("e");
        proof {
            reveal_strlit("e");
            assert(("e")@ =~= seq![hex_char_of(14)]);
        }
    } else {
        s.append("f");
        proof {
            reveal_strlit("f");
            assert(("f")@ =~= seq![hex_char_of(15)]);
        }
    }
}

/// The hexadecimal encoding of a byte string, two lower-case digits per
/// byte in order.
pub fn hex_string(bytes: &[u8]) -> (r: String)
    ensures
        r@ == hex_of_bytes(bytes@),
{
    let mut s = String::new();
    let mut i: usize = 0;
    while i < bytes.len()
        invariant
            i <= bytes@.len(),
            s@ == hex_of_bytes(bytes@.take(i as int)),
        decreases bytes@.len() - i,
    {
        let b = bytes[i];
        push_hex_char(&mut s, b / 16);
        push_hex_char(&mut s, b % 16);
        proof {
            let pre = bytes@.take(i as int);
            let post = bytes@.take(i as int + 1);
            assert(post.drop_last() =~= pre);
            assert(post.last() == bytes@[i as int]);
            assert(seq![hex_char_of(b as int / 16)] + seq![hex_char_of(b as int % 16)] =~= hex_pair(
                b,
            ));
            assert(s@ =~= hex_of_bytes(post));
        }
        i = i + 1;
    }
    proof {
        assert(bytes@.take(bytes@.len() as int) =~= bytes@);
    }
    s
}

/// The decimal digits of an integer, most significant first, with no
/// leading zero (a single `0` for zero itself).
pub open spec fn dec_chars_of(n: nat) -> Seq<char>
    decreases n,
{
    if n < 10 {
        seq![hex_char_of(n as int)]
    } else {
        dec_chars_of(n / 10) + seq![hex_char_of(n as int % 10)]
    }
}

/// Appends the decimal digits of an integer.
pub fn append_decimal(s: &mut String, v: u32)
    ensures
        final(s)@ == old(s)@ + dec_chars_of(v as nat),
    decreases v,
{
    if v < 10 {
        push_hex_char(s, v as u8);
    } else {
        append_decimal(s, v / 10);
        push_hex_char(s, (v % 10) as u8);
    }
}

} // verus!
