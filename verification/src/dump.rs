//! A hex dump of frame bytes, for reporting frames this responder
//! does not handle: each byte as two lowercase hex digits and a space,
//! with a space every four bytes and a newline every eight.

use vstd::prelude::*;

verus! {

/// The lowercase hex digit for a nibble value.
pub open spec fn hex_char(n: int) -> char {
    if n == 0 {
        '0'
    } else if n == 1 {
        '1'
    } else if n == 2 {
        '2'
    } else if n == 3 {
        '3'
    } else if n == 4 {
        '4'
    } else if n == 5 {
        '5'
    } else if n == 6 {
        '6'
    } else if n == 7 {
        '7'
    } else if n == 8 {
        '8'
    } else if n == 9 {
        '9'
    } else if n == 10 {
        'a'
    } else if n == 11 {
        'b'
    } else if n == 12 {
        'c'
    } else if n == 13 {
        'd'
    } else if n == 14 {
        'e'
    } else {
        'f'
    }
}

/// The characters contributed by byte `b` at position `i` of the dump:
/// a space at every fourth position and a newline at every eighth,
/// then the two hex digits and a trailing space.
pub open spec fn cell_chars(b: u8, i: int) -> Seq<char> {
    let sp = if i % 4 == 0 {
        seq![' ']
    } else {
        Seq::<char>::empty()
    };
    let nl = if i % 8 == 0 {
        seq!['\n']
    } else {
        Seq::<char>::empty()
    };
    sp + nl + seq![hex_char(b as int / 16), hex_char(b as int % 16), ' ']
}

/// The dump of the first `n` bytes of `s`.
pub open spec fn dump_chars(s: Seq<u8>, n: int) -> Seq<char>
    decreases n,
{
    if n <= 0 {
        Seq::empty()
    } else {
        dump_chars(s, n - 1) + cell_chars(s[n - 1], n - 1)
    }
}

/// What `data_format` produces: the dump of the first `end` bytes,
/// where an `end` of zero, or one past the length, means all of them.
pub open spec fn data_format_spec(s: Seq<u8>, end: int) -> Seq<char> {
    let finish = if end == 0 || end > s.len() {
        s.len() as int
    } else {
        end
    };
    dump_chars(s, finish)
}

/// The one-character string for a nibble value.
fn hex_digit(n: u8) -> (r: &'static str)
    requires
        n < 16,
    ensures
        r@.len() == 1,
        r@[0] == hex_char(n as int),
{
    if n == 0 {
        proof {
            reveal_strlit("0");
        }
        "0"
    } else if n == 1 {
        proof {
            reveal_strlit("1");
        }
        "1"
    } else if n == 2 {
        proof {
            reveal_strlit("2");
        }
        "2"
    } else if n == 3 {
        proof {
            reveal_strlit("3");
        }
        "3"
    } else if n == 4 {
        proof {
            reveal_strlit("4");
        }
        "4"
    } else if n == 5 {
        proof {
            reveal_strlit("5");
        }
        "5"
    } else if n == 6 {
        proof {
            reveal_strlit("6");
        }
        "6"
    } else if n == 7 {
        proof {
            reveal_strlit("7");
        }
        "7"
    } else if n == 8 {
        proof {
            reveal_strlit("8");
        }
        "8"
    } else if n == 9 {
        proof {
            reveal_strlit("9");
        }
        "9"
    } else if n == 10 {
        proof {
            reveal_strlit("a");
        }
        "a"
    } else if n == 11 {
        proof {
            reveal_strlit("b");
        }
        "b"
    } else if n == 12 {
        proof {
            reveal_strlit("c");
        }
        "c"
    } else if n == 13 {
        proof {
            reveal_strlit("d");
        }
        "d"
    } else if n == 14 {
        proof {
            reveal_strlit("e");
        }
        "e"
    } else {
        proof {
            reveal_strlit("f");
        }
        "f"
    }
}

/// Format the first `end` bytes of `data` as a hex dump; an `end` of
/// zero means the whole slice.
pub fn data_format(data: &[u8], end: usize) -> (r: String)
    ensures
        r@ == data_format_spec(data@, end as int),
{
    let len = data.len();
    let finish: usize = if end == 0 || end > len {
        len
    } else {
        end
    };
    let mut out = String::new();
    let mut i: usize = 0;
    while i < finish
        invariant
            i <= finish,
            finish <= data@.len(),
            out@ == dump_chars(data@, i as int),
        decreases finish - i,
    {
        let c = data[i];
        if i % 4 == 0 {
            out.append(" ");
        }
        if i % 8 == 0 {
            out.append("\n");
        }
        out.append(hex_digit(c / 16));
        out.append(hex_digit(c % 16));
        out.append(" ");
        proof {
            reveal_strlit(" ");
            reveal_strlit("\n");
            assert(out@ =~= dump_chars(data@, i as int + 1));
        }
        i = i + 1;
    }
    out
}

} // verus!
