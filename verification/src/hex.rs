use vstd::prelude::*;

verus! {

use vstd::string::StringExecFns;

/// The uppercase hexadecimal digit for a value below 16.
pub open spec fn hex_digit(d: nat) -> char {
    if d == 0 {
        '0'
    } else if d == 1 {
        '1'
    } else if d == 2 {
        '2'
    } else if d == 3 {
        '3'
    } else if d == 4 {
        '4'
    } else if d == 5 {
        '5'
    } else if d == 6 {
        '6'
    } else if d == 7 {
        '7'
    } else if d == 8 {
        '8'
    } else if d == 9 {
        '9'
    } else if d == 10 {
        'A'
    } else if d == 11 {
        'B'
    } else if d == 12 {
        'C'
    } else if d == 13 {
        'D'
    } else if d == 14 {
        'E'
    } else {
        'F'
    }
}

/// The uppercase hexadecimal text of a number, most significant digit first,
/// without leading zeros; zero itself is the single digit `0`.
pub open spec fn hex_of(n: nat) -> Seq<char>
    decreases n,
{
    if n < 16 {
        seq![hex_digit(n)]
    } else {
        hex_of(n / 16).push(hex_digit(n % 16))
    }
}

/// One byte as exactly two uppercase hexadecimal digits.
pub open spec fn byte_hex(b: u8) -> Seq<char> {
    seq![hex_digit((b / 16) as nat), hex_digit((b % 16) as nat)]
}

/// Payload bytes rendered as two-digit groups, in order, with a single
/// space between neighbouring groups.
pub open spec fn payload_hex(data: Seq<u8>) -> Seq<char>
    decreases data.len(),
{
    if data.len() == 0 {
        Seq::empty()
    } else if data.len() == 1 {
        byte_hex(data.last())
    } else {
        payload_hex(data.drop_last()) + seq![' '] + byte_hex(data.last())
    }
}

/// The one-character string for a hexadecimal digit value.
pub fn hex_digit_str(d: u8) -> (r: &'static str)
    requires
        d < 16,
    ensures
        r@ == seq![hex_digit(d as nat)],
{
    if d == 0 {
        proof {
            reveal_strlit("0");
            assert("0"@ =~= seq![hex_digit(d as nat)]);
        }
        "0"
    } else if d == 1 {
        proof {
            reveal_strlit("1");
            assert("1"@ =~= seq![hex_digit(d as nat)]);
        }
        "1"
    } else if d == 2 {
        proof {
            reveal_strlit("2");
            assert("2"@ =~= seq![hex_digit(d as nat)]);
        }
        "2"
    } else if d == 3 {
        proof {
            reveal_strlit("3");
            assert("3"@ =~= seq![hex_digit(d as nat)]);
        }
        "3"
    } else if d == 4 {
        proof {
            reveal_strlit("4");
            assert("4"@ =~= seq![hex_digit(d as nat)]);
        }
        "4"
    } else if d == 5 {
        proof {
            reveal_strlit("5");
            assert("5"@ =~= seq![hex_digit(d as nat)]);
        }
        "5"
    } else if d == 6 {
        proof {
            reveal_strlit("6");
            assert("6"@ =~= seq![hex_digit(d as nat)]);
        }
        "6"
    } else if d == 7 {
        proof {
            reveal_strlit("7");
            assert("7"@ =~= seq![hex_digit(d as nat)]);
        }
        "7"
    } else if d == 8 {
        proof {
            reveal_strlit("8");
            assert("8"@ =~= seq![hex_digit(d as nat)]);
        }
        "8"
    } else if d == 9 {
        proof {
            reveal_strlit("9");
            assert("9"@ =~= seq![hex_digit(d as nat)]);
        }
        "9"
    } else if d == 10 {
        proof {
            reveal_strlit("A");
            assert("A"@ =~= seq![hex_digit(d as nat)]);
        }
        "A"
    } else if d == 11 {
        proof {
            reveal_strlit("B");
            assert("B"@ =~= seq![hex_digit(d as nat)]);
        }
        "B"
    } else if d == 12 {
        proof {
            reveal_strlit("C");
            assert("C"@ =~= seq![hex_digit(d as nat)]);
        }
        "C"
    } else if d == 13 {
        proof {
            reveal_strlit("D");
            assert("D"@ =~= seq![hex_digit(d as nat)]);
        }
        "D"
    } else if d == 14 {
        proof {
            reveal_strlit("E");
            assert("E"@ =~= seq![hex_digit(d as nat)]);
        }
        "E"
    } else {
        proof {
            reveal_strlit("F");
            assert("F"@ =~= seq![hex_digit(d as nat)]);
        }
        "F"
    }
}

/// Appends the uppercase hexadecimal text of `n`, without leading zeros.
pub fn append_hex_u32(s: &mut String, n: u32)
    ensures
        final(s)@ == old(s)@ + hex_of(n as nat),
    decreases n,
{
    if n >= 16 {
        append_hex_u32(s, n / 16);
    }
    let d: u8 = (n % 16) as u8;
    s.append(hex_digit_str(d));
    proof {
        if n < 16 {
            assert(old(s)@ + seq![hex_digit(d as nat)] =~= old(s)@ + hex_of(n as nat));
        } else {
            assert((old(s)@ + hex_of((n / 16) as nat)) + seq![hex_digit(d as nat)] =~= old(s)@
                + hex_of(n as nat));
        }
    }
}

/// Appends one byte as two uppercase hexadecimal digits.
pub fn append_byte_hex(s: &mut String, b: u8)
    ensures
        final(s)@ == old(s)@ + byte_hex(b),
{
    s.append(hex_digit_str(b / 16));
    s.append(hex_digit_str(b % 16));
    proof {
        assert((old(s)@ + seq![hex_digit((b / 16) as nat)]) + seq![hex_digit((b % 16) as nat)]
            =~= old(s)@ + byte_hex(b));
    }
}

/// Appends every payload byte as a two-digit group, a single space between
/// neighbouring groups.
pub fn append_payload_hex(s: &mut String, data: &[u8])
    ensures
        final(s)@ == old(s)@ + payload_hex(data@),
{
    let n = data.len();
    let mut i: usize = 0;
    while i < n
        invariant
            i <= n,
            n == data@.len(),
            s@ == old(s)@ + payload_hex(data@.subrange(0, i as int)),
        decreases n - i,
    {
        let ghost pre = data@.subrange(0, i as int);
        if i > 0 {
            s.append(" ");
        }
        append_byte_hex(s, data[i]);
        i = i + 1;
        proof {
            let post = data@.subrange(0, i as int);
            assert(post.drop_last() =~= pre);
            assert(post.last() == data@[i - 1]);
            if i == 1 {
                assert((old(s)@ + payload_hex(pre)) + byte_hex(data@[0]) =~= old(s)@
                    + payload_hex(post));
            } else {
                reveal_strlit(" ");
                assert(" "@ =~= seq![' ']);
                assert(((old(s)@ + payload_hex(pre)) + " "@) + byte_hex(data@[i - 1]) =~= old(s)@
                    + payload_hex(post));
            }
        }
    }
    proof {
        assert(data@.subrange(0, n as int) =~= data@);
    }
}

} // verus!
