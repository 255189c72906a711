//! Rendering bytes as text: uppercase hex pairs separated by spaces.

use vstd::prelude::*;
use vstd::string::StringExecFns;

verus! {

/// The uppercase hex digit for a value below sixteen.
pub open spec fn spec_hex_digit(n: int) -> char {
    if n == 0 {
        '0'
    } else if n == 1 {
        '1'
    } else if n == 2 {
        '2'
    } else if n == 3 {
        '3'
    } else if n == 4 {
        '4'
    } else if n == 5 {
        '5'
    } else if n == 6 {
        '6'
    } else if n == 7 {
        '7'
    } else if n == 8 {
        '8'
    } else if n == 9 {
        '9'
    } else if n == 10 {
        'A'
    } else if n == 11 {
        'B'
    } else if n == 12 {
        'C'
    } else if n == 13 {
        'D'
    } else if n == 14 {
        'E'
    } else {
        'F'
    }
}

/// The two hex digits of one byte, high nibble first.
pub open spec fn spec_byte_hex(b: u8) -> Seq<char> {
    seq![spec_hex_digit(b as int / 16), spec_hex_digit(b as int % 16)]
}

/// A byte sequence rendered as hex pairs joined by single spaces.
pub open spec fn spec_hex_string(bs: Seq<u8>) -> Seq<char>
    decreases bs.len(),
{
    if bs.len() == 0 {
        Seq::empty()
    } else if bs.len() == 1 {
        spec_byte_hex(bs[0])
    } else {
        spec_hex_string(bs.drop_last()) + seq![' '] + spec_byte_hex(bs.last())
    }
}

/// One hex digit as a string slice.
fn hex_digit_str<'a>(n: u8) -> (r: &'a str)
    requires
        n < 16,
    ensures
        r@ == seq![spec_hex_digit(n as int)],
{
    proof {
        broadcast use vstd::string::group_string_axioms;

    }
    if n == 0 {
        proof {
            reveal_strlit("0");
            assert("0"@ =~= seq![spec_hex_digit(n as int)]);
        }
        "0"
    } else if n == 1 {
        proof {
            reveal_strlit("1");
            assert("1"@ =~= seq![spec_hex_digit(n as int)]);
        }
        "1"
    } else if n == 2 {
        proof {
            reveal_strlit("2");
            assert("2"@ =~= seq![spec_hex_digit(n as int)]);
        }
        "2"
    } else if n == 3 {
        proof {
            reveal_strlit("3");
            assert("3"@ =~= seq![spec_hex_digit(n as int)]);
        }
        "3"
    } else if n == 4 {
        proof {
            reveal_strlit("4");
            assert("4"@ =~= seq![spec_hex_digit(n as int)]);
        }
        "4"
    } else if n == 5 {
        proof {
            reveal_strlit("5");
            assert("5"@ =~= seq![spec_hex_digit(n as int)]);
        }
        "5"
    } else if n == 6 {
        proof {
            reveal_strlit("6");
            assert("6"@ =~= seq![spec_hex_digit(n as int)]);
        }
        "6"
    } else if n == 7 {
        proof {
            reveal_strlit("7");
            assert("7"@ =~= seq![spec_hex_digit(n as int)]);
        }
        "7"
    } else if n == 8 {
        proof {
            reveal_strlit("8");
            assert("8"@ =~= seq![spec_hex_digit(n as int)]);
        }
        "8"
    } else if n == 9 {
        proof {
            reveal_strlit("9");
            assert("9"@ =~= seq![spec_hex_digit(n as int)]);
        }
        "9"
    } else if n == 10 {
        proof {
            reveal_strlit("A");
            assert("A"@ =~= seq![spec_hex_digit(n as int)]);
        }
        "A"
    } else if n == 11 {
        proof {
            reveal_strlit("B");
            assert("B"@ =~= seq![spec_hex_digit(n as int)]);
        }
        "B"
    } else if n == 12 {
        proof {
            reveal_strlit("C");
            assert("C"@ =~= seq![spec_hex_digit(n as int)]);
        }
        "C"
    } else if n == 13 {
        proof {
            reveal_strlit("D");
            assert("D"@ =~= seq![spec_hex_digit(n as int)]);
        }
        "D"
    } else if n == 14 {
        proof {
            reveal_strlit("E");
            assert("E"@ =~= seq![spec_hex_digit(n as int)]);
        }
        "E"
    } else {
        proof {
            reveal_strlit("F");
            assert("F"@ =~= seq![spec_hex_digit(n as int)]);
        }
        "F"
    }
}

/// Render bytes as uppercase hex pairs separated by single spaces.
pub fn to_hex_string(bytes: Vec<u8>) -> (r: String)
    ensures
        r@ == spec_hex_string(bytes@),
{
    proof {
        broadcast use vstd::string::group_string_axioms;

    }
    let mut out = String::new();
    let mut i: usize = 0;
    while i < bytes.len()
        invariant
            i <= bytes@.len(),
            out@ == spec_hex_string(bytes@.subrange(0, i as int)),
        decreases bytes@.len() - i,
    {
        if i > 0 {
            out.append(" ");
        }
        let b = bytes[i];
        out.append(hex_digit_str(b / 16));
        out.append(hex_digit_str(b % 16));
        proof {
            broadcast use vstd::string::group_string_axioms;

            reveal_strlit(" ");
            assert(" "@ =~= seq![' ']);
            let pre = bytes@.subrange(0, i as int);
            let cur = bytes@.subrange(0, i as int + 1);
            assert(cur.drop_last() =~= pre);
            assert(cur.last() == b);
            if i == 0 {
                assert(out@ =~= spec_byte_hex(b));
                assert(out@ == spec_hex_string(cur));
            } else {
                assert(out@ =~= spec_hex_string(pre) + seq![' '] + spec_byte_hex(b));
                assert(out@ == spec_hex_string(cur));
            }
        }
        i += 1;
    }
    proof {
        assert(bytes@.subrange(0, bytes@.len() as int) =~= bytes@);
    }
    out
}

} // verus!
