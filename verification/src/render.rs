//! Rendering of byte sequences as debug-hex displays, and of counts as
//! decimal numerals.

use vstd::prelude::*;
use vstd::string::StringExecFns;

verus! {

/// The character for one digit value below 16, upper case.
pub open spec fn digit_char(d: u8) -> char {
    if d == 0 {
        '0'
    } else if d == 1 {
        '1'
    } else if d == 2 {
        '2'
    } else if d == 3 {
        '3'
    } else if d == 4 {
        '4'
    } else if d == 5 {
        '5'
    } else if d == 6 {
        '6'
    } else if d == 7 {
        '7'
    } else if d == 8 {
        '8'
    } else if d == 9 {
        '9'
    } else if d == 10 {
        'A'
    } else if d == 11 {
        'B'
    } else if d == 12 {
        'C'
    } else if d == 13 {
        'D'
    } else if d == 14 {
        'E'
    } else {
        'F'
    }
}

/// The hex token for one byte: a single digit below 0x10, two digits
/// otherwise, most significant digit first, no leading zero.
pub open spec fn hex_token(b: u8) -> Seq<char> {
    if b < 16 {
        seq![digit_char(b)]
    } else {
        seq![digit_char(b / 16), digit_char(b % 16)]
    }
}

/// The hex tokens of a byte sequence: one token per byte, in sequence order.
pub open spec fn hex_tokens(bytes: Seq<u8>) -> Seq<Seq<char>> {
    bytes.map_values(|b: u8| hex_token(b))
}

/// The separator written between two adjacent tokens.
pub open spec fn token_sep() -> Seq<char> {
    seq![',', ' ']
}

/// The given tokens joined by the separator.
pub open spec fn join_tokens(tokens: Seq<Seq<char>>) -> Seq<char>
    decreases tokens.len(),
{
    if tokens.len() == 0 {
        Seq::empty()
    } else if tokens.len() == 1 {
        tokens[0]
    } else {
        join_tokens(tokens.drop_last()) + token_sep() + tokens.last()
    }
}

/// The debug-hex rendering of a byte sequence: its hex tokens, joined by
/// ", ", between square brackets — for example `[0, 0, 0, 41]`.
pub open spec fn debug_hex(bytes: Seq<u8>) -> Seq<char> {
    seq!['['] + join_tokens(hex_tokens(bytes)) + seq![']']
}

/// The decimal numeral for `n`: most significant digit first, no leading
/// zeros, a single `'0'` for zero.
pub open spec fn dec_rep(n: nat) -> Seq<char>
    decreases n,
{
    if n < 10 {
        seq![digit_char(n as u8)]
    } else {
        dec_rep(n / 10) + seq![digit_char((n % 10) as u8)]
    }
}

/// The one-character string slice for a digit value below 16.
pub fn digit_str(d: u8) -> (r: &'static str)
    requires
        d < 16,
    ensures
        r@ == seq![digit_char(d)],
{
    if d == 0 {
        proof {
            reveal_strlit("0");
            assert("0"@ =~= seq![digit_char(d)]);
        }
        "0"
    } else if d == 1 {
        proof {
            reveal_strlit("1");
            assert("1"@ =~= seq![digit_char(d)]);
        }
        "1"
    } else if d == 2 {
        proof {
            reveal_strlit("2");
            assert("2"@ =~= seq![digit_char(d)]);
        }
        "2"
    } else if d == 3 {
        proof {
            reveal_strlit("3");
            assert("3"@ =~= seq![digit_char(d)]);
        }
        "3"
    } else if d == 4 {
        proof {
            reveal_strlit("4");
            assert("4"@ =~= seq![digit_char(d)]);
        }
        "4"
    } else if d == 5 {
        proof {
            reveal_strlit("5");
            assert("5"@ =~= seq![digit_char(d)]);
        }
        "5"
    } else if d == 6 {
        proof {
            reveal_strlit("6");
            assert("6"@ =~= seq![digit_char(d)]);
        }
        "6"
    } else if d == 7 {
        proof {
            reveal_strlit("7");
            assert("7"@ =~= seq![digit_char(d)]);
        }
        "7"
    } else if d == 8 {
        proof {
            reveal_strlit("8");
            assert("8"@ =~= seq![digit_char(d)]);
        }
        "8"
    } else if d == 9 {
        proof {
            reveal_strlit("9");
            assert("9"@ =~= seq![digit_char(d)]);
        }
        "9"
    } else if d == 10 {
        proof {
            reveal_strlit("A");
            assert("A"@ =~= seq![digit_char(d)]);
        }
        "A"
    } else if d == 11 {
        proof {
            reveal_strlit("B");
            assert("B"@ =~= seq![digit_char(d)]);
        }
        "B"
    } else if d == 12 {
        proof {
            reveal_strlit("C");
            assert("C"@ =~= seq![digit_char(d)]);
        }
        "C"
    } else if d == 13 {
        proof {
            reveal_strlit("D");
            assert("D"@ =~= seq![digit_char(d)]);
        }
        "D"
    } else if d == 14 {
        proof {
            reveal_strlit("E");
            assert("E"@ =~= seq![digit_char(d)]);
        }
        "E"
    } else {
        proof {
            reveal_strlit("F");
            assert("F"@ =~= seq![digit_char(d)]);
        }
        "F"
    }
}

/// Joining one more token appends it after a separator, except to an empty
/// token list, which it becomes.
proof fn lemma_join_tokens_push(tokens: Seq<Seq<char>>, t: Seq<char>)
    ensures
        tokens.len() == 0 ==> join_tokens(tokens.push(t)) == t,
        tokens.len() > 0 ==> join_tokens(tokens.push(t)) == join_tokens(tokens) + token_sep()
            + t,
{
    let p = tokens.push(t);
    if tokens.len() == 0 {
        assert(p[0] == t);
    } else {
        assert(p.drop_last() =~= tokens);
        assert(p.last() == t);
    }
}

/// Taking one more byte appends its token to the token list.
proof fn lemma_hex_tokens_take_push(bytes: Seq<u8>, i: int)
    requires
        0 <= i < bytes.len(),
    ensures
        hex_tokens(bytes.take(i + 1)) == hex_tokens(bytes.take(i)).push(hex_token(bytes[i])),
{
    assert(hex_tokens(bytes.take(i + 1)) =~= hex_tokens(bytes.take(i)).push(
        hex_token(bytes[i]),
    ));
}

/// Appends the hex token of `b` to `s`.
fn append_hex_token(s: &mut String, b: u8)
    ensures
        final(s)@ == old(s)@ + hex_token(b),
{
    if b < 16 {
        s.append(digit_str(b));
        proof {
            assert(s@ =~= old(s)@ + hex_token(b));
        }
    } else {
        s.append(digit_str(b / 16));
        s.append(digit_str(b % 16));
        proof {
            assert(s@ =~= old(s)@ + hex_token(b));
        }
    }
}

/// Renders `bytes` as the bracketed, comma-separated, upper-case hex
/// sequence that `debug_hex` describes.
pub fn debug_hex_string(bytes: &[u8]) -> (r: String)
    ensures
        r@ == debug_hex(bytes@),
{
    let mut s: String = "[".to_owned();
    proof {
        reveal_strlit("[");
        assert(bytes@.take(0) =~= Seq::<u8>::empty());
        assert(hex_tokens(bytes@.take(0)) =~= Seq::<Seq<char>>::empty());
        assert(s@ =~= seq!['['] + join_tokens(hex_tokens(bytes@.take(0))));
    }
    let n: usize = bytes.len();
    let mut i: usize = 0;
    while i < n
        invariant
            i <= n,
            n == bytes@.len(),
            s@ == seq!['['] + join_tokens(hex_tokens(bytes@.take(i as int))),
        decreases n - i,
    {
        let ghost done = hex_tokens(bytes@.take(i as int));
        if i > 0 {
            s.append(", ");
            proof {
                reveal_strlit(", ");
                assert(", "@ =~= token_sep());
            }
        }
        append_hex_token(&mut s, bytes[i]);
        proof {
            lemma_hex_tokens_take_push(bytes@, i as int);
            lemma_join_tokens_push(done, hex_token(bytes@[i as int]));
            assert(done.len() == i);
            assert(s@ =~= seq!['['] + join_tokens(hex_tokens(bytes@.take(i + 1))));
        }
        i = i + 1;
    }
    s.append("]");
    proof {
        reveal_strlit("]");
        assert(bytes@.take(n as int) =~= bytes@);
        assert(s@ =~= debug_hex(bytes@));
    }
    s
}

/// Renders `n` as the decimal numeral that `dec_rep` describes.
pub fn usize_to_decimal(n: usize) -> (r: String)
    ensures
        r@ == dec_rep(n as nat),
    decreases n,
{
    if n < 10 {
        let r: String = digit_str(n as u8).to_owned();
        proof {
            assert(r@ =~= dec_rep(n as nat));
        }
        r
    } else {
        let mut r: String = usize_to_decimal(n / 10);
        r.append(digit_str((n % 10) as u8));
        proof {
            assert(r@ =~= dec_rep(n as nat));
        }
        r
    }
}

} // verus!
