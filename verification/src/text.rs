use vstd::prelude::*;

verus! {

/// Upper-case hexadecimal digit of `d` (below 16).
pub open spec fn hex_digit(d: u32) -> char {
    if d < 10 {
        (48 + d) as char
    } else {
        (55 + d) as char
    }
}

/// `value` as eight upper-case hexadecimal digits, most significant first.
pub open spec fn spec_hex8(value: u32) -> Seq<char> {
    Seq::new(8, |i: int| hex_digit((value >> ((28 - 4 * i) as u32)) & 0xF))
}

/// The one-character text of hexadecimal digit `d`.
fn hex_digit_text(d: u32) -> (s: &'static str)
    requires
        d < 16,
    ensures
        s@ == seq![hex_digit(d)],
{
    match d {
        0 => {
            proof {
                reveal_strlit("0");
            }
            "0"
        },
        1 => {
            proof {
                reveal_strlit("1");
            }
            "1"
        },
        2 => {
            proof {
                reveal_strlit("2");
            }
            "2"
        },
        3 => {
            proof {
                reveal_strlit("3");
            }
            "3"
        },
        4 => {
            proof {
                reveal_strlit("4");
            }
            "4"
        },
        5 => {
            proof {
                reveal_strlit("5");
            }
            "5"
        },
        6 => {
            proof {
                reveal_strlit("6");
            }
            "6"
        },
        7 => {
            proof {
                reveal_strlit("7");
            }
            "7"
        },
        8 => {
            proof {
                reveal_strlit("8");
            }
            "8"
        },
        9 => {
            proof {
                reveal_strlit("9");
            }
            "9"
        },
        10 => {
            proof {
                reveal_strlit("A");
            }
            "A"
        },
        11 => {
            proof {
                reveal_strlit("B");
            }
            "B"
        },
        12 => {
            proof {
                reveal_strlit("C");
            }
            "C"
        },
        13 => {
            proof {
                reveal_strlit("D");
            }
            "D"
        },
        14 => {
            proof {
                reveal_strlit("E");
            }
            "E"
        },
        _ => {
            proof {
                reveal_strlit("F");
            }
            "F"
        },
    }
}

proof fn lemma_nibble(value: u32, shift: u32)
    by (bit_vector)
    ensures
        (value >> shift) & 0xF < 16,
{
}

/// `value` as eight upper-case hexadecimal digits, most significant first.
pub(crate) fn hex8(value: u32) -> (r: String)
    ensures
        r@ == spec_hex8(value),
{
    let mut s = String::new();
    let mut i: u32 = 0;
    while i < 8
        invariant
            i <= 8,
            s@ == spec_hex8(value).take(i as int),
        decreases 8 - i,
    {
        let shift: u32 = 28 - 4 * i;
        let nibble = (value >> shift) & 0xF;
        proof {
            lemma_nibble(value, shift);
        }
        s.append(hex_digit_text(nibble));
        proof {
            assert(shift == (28 - 4 * (i as int)) as u32);
            assert(spec_hex8(value).take(i + 1) =~= spec_hex8(value).take(i as int).push(hex_digit(nibble)));
        }
        i = i + 1;
    }
    assert(spec_hex8(value).take(8) =~= spec_hex8(value));
    s
}

} // verus!
