//! Hexadecimal block-number codec: `0x`-prefixed rendering, parsing, and the
//! round-trip law between the two.

use vstd::prelude::*;

verus! {

/// The lower-case character for one hexadecimal digit.
pub open spec fn hex_digit(d: nat) -> char {
    if d == 0 {
        '0'
    } else if d == 1 {
        '1'
    } else if d == 2 {
        '2'
    } else if d == 3 {
        '3'
    } else if d == 4 {
        '4'
    } else if d == 5 {
        '5'
    } else if d == 6 {
        '6'
    } else if d == 7 {
        '7'
    } else if d == 8 {
        '8'
    } else if d == 9 {
        '9'
    } else if d == 10 {
        'a'
    } else if d == 11 {
        'b'
    } else if d == 12 {
        'c'
    } else if d == 13 {
        'd'
    } else if d == 14 {
        'e'
    } else {
        'f'
    }
}

/// The hexadecimal digits of `n`, most significant first, with no leading
/// zeros (`0` renders as `"0"`).
pub open spec fn hex_digits(n: nat) -> Seq<char>
    decreases n,
{
    if n < 16 {
        seq![hex_digit(n)]
    } else {
        hex_digits(n / 16) + seq![hex_digit(n % 16)]
    }
}

/// The `0x`-prefixed hexadecimal rendering of `n`.
pub open spec fn hex_str(n: nat) -> Seq<char> {
    seq!['0', 'x'] + hex_digits(n)
}

/// True of a lower-case hexadecimal digit character.
pub open spec fn is_hex_digit(c: char) -> bool {
    ||| ('0' as int) <= c as int <= ('9' as int)
    ||| ('a' as int) <= c as int <= ('f' as int)
}

/// The value of one hexadecimal digit character (0 for a non-digit).
pub open spec fn hex_digit_val(c: char) -> nat {
    if ('0' as int) <= c as int <= ('9' as int) {
        (c as int - '0' as int) as nat
    } else if ('a' as int) <= c as int <= ('f' as int) {
        (c as int - 'a' as int + 10) as nat
    } else {
        0
    }
}

/// The value of a sequence of hexadecimal digit characters.
pub open spec fn hex_val(s: Seq<char>) -> nat
    decreases s.len(),
{
    if s.len() == 0 {
        0
    } else {
        hex_val(s.drop_last()) * 16 + hex_digit_val(s.last())
    }
}

/// What parsing accepts: `0x`, then at least one lower-case hexadecimal
/// digit, for a value that fits in a `u64`.
pub open spec fn spec_parse_hex(s: Seq<char>) -> Option<u64> {
    if s.len() > 2 && s[0] == '0' && s[1] == 'x' && (forall|i: int|
        2 <= i < s.len() ==> is_hex_digit(#[trigger] s[i])) && hex_val(s.skip(2)) <= u64::MAX {
        Some(hex_val(s.skip(2)) as u64)
    } else {
        None
    }
}

/// The one-character string for a hexadecimal digit.
fn hex_digit_str(d: u64) -> (s: &'static str)
    requires
        d < 16,
    ensures
        s@ == seq![hex_digit(d as nat)],
{
    if d == 0 {
        proof {
            reveal_strlit("0");
        }
        assert("0"@ =~= seq![hex_digit(d as nat)]);
        "0"
    } else if d == 1 {
        proof {
            reveal_strlit("1");
        }
        assert("1"@ =~= seq![hex_digit(d as nat)]);
        "1"
    } else if d == 2 {
        proof {
            reveal_strlit("2");
        }
        assert("2"@ =~= seq![hex_digit(d as nat)]);
        "2"
    } else if d == 3 {
        proof {
            reveal_strlit("3");
        }
        assert("3"@ =~= seq![hex_digit(d as nat)]);
        "3"
    } else if d == 4 {
        proof {
            reveal_strlit("4");
        }
        assert("4"@ =~= seq![hex_digit(d as nat)]);
        "4"
    } else if d == 5 {
        proof {
            reveal_strlit("5");
        }
        assert("5"@ =~= seq![hex_digit(d as nat)]);
        "5"
    } else if d == 6 {
        proof {
            reveal_strlit("6");
        }
        assert("6"@ =~= seq![hex_digit(d as nat)]);
        "6"
    } else if d == 7 {
        proof {
            reveal_strlit("7");
        }
        assert("7"@ =~= seq![hex_digit(d as nat)]);
        "7"
    } else if d == 8 {
        proof {
            reveal_strlit("8");
        }
        assert("8"@ =~= seq![hex_digit(d as nat)]);
        "8"
    } else if d == 9 {
        proof {
            reveal_strlit("9");
        }
        assert("9"@ =~= seq![hex_digit(d as nat)]);
        "9"
    } else if d == 10 {
        proof {
            reveal_strlit("a");
        }
        assert("a"@ =~= seq![hex_digit(d as nat)]);
        "a"
    } else if d == 11 {
        proof {
            reveal_strlit("b");
        }
        assert("b"@ =~= seq![hex_digit(d as nat)]);
        "b"
    } else if d == 12 {
        proof {
            reveal_strlit("c");
        }
        assert("c"@ =~= seq![hex_digit(d as nat)]);
        "c"
    } else if d == 13 {
        proof {
            reveal_strlit("d");
        }
        assert("d"@ =~= seq![hex_digit(d as nat)]);
        "d"
    } else if d == 14 {
        proof {
            reveal_strlit("e");
        }
        assert("e"@ =~= seq![hex_digit(d as nat)]);
        "e"
    } else {
        proof {
            reveal_strlit("f");
        }
        assert("f"@ =~= seq![hex_digit(d as nat)]);
        "f"
    }
}

/// Append the hexadecimal digits of `n` to `out`.
fn push_hex_digits(n: u64, out: &mut String)
    ensures
        final(out)@ == old(out)@ + hex_digits(n as nat),
    decreases n,
{
    if n < 16 {
        out.append(hex_digit_str(n));
    } else {
        push_hex_digits(n / 16, out);
        out.append(hex_digit_str(n % 16));
        proof {
            assert((old(out)@ + hex_digits((n / 16) as nat)) + seq![hex_digit((n % 16) as nat)]
                =~= old(out)@ + hex_digits(n as nat));
        }
    }
}

/// Render `n` as a `0x`-prefixed hexadecimal string.
pub fn u64_to_hex(n: u64) -> (s: String)
    ensures
        s@ == hex_str(n as nat),
{
    let mut s = String::from_str("0x");
    proof {
        reveal_strlit("0x");
        assert("0x"@ =~= seq!['0', 'x']);
    }
    push_hex_digits(n, &mut s);
    s
}

/// The value of one hexadecimal digit character, or `None` for a non-digit.
fn hex_digit_val_exec(c: char) -> (r: Option<u64>)
    ensures
        match r {
            Some(v) => is_hex_digit(c) && v as nat == hex_digit_val(c) && v < 16,
            None => !is_hex_digit(c),
        },
{
    let u = c as u32;
    if 48 <= u && u <= 57 {
        Some((u - 48) as u64)
    } else if 97 <= u && u <= 102 {
        Some((u - 97 + 10) as u64)
    } else {
        None
    }
}

/// A digit sequence is worth at least as much as any of its prefixes.
proof fn lemma_hex_val_prefix_le(s: Seq<char>, k: int)
    requires
        0 <= k <= s.len(),
    ensures
        hex_val(s.subrange(0, k)) <= hex_val(s),
    decreases s.len() - k,
{
    if k == s.len() {
        assert(s.subrange(0, k) =~= s);
    } else {
        assert(s.subrange(0, k + 1).drop_last() =~= s.subrange(0, k));
        assert(hex_val(s.subrange(0, k + 1)) == hex_val(s.subrange(0, k)) * 16 + hex_digit_val(
            s.subrange(0, k + 1).last(),
        ));
        lemma_hex_val_prefix_le(s, k + 1);
    }
}

/// Parse a `0x`-prefixed lower-case hexadecimal string into a `u64`.
pub fn parse_hex_u64(s: &str) -> (r: Option<u64>)
    ensures
        r == spec_parse_hex(s@),
{
    let n = s.unicode_len();
    if n <= 2 {
        return None;
    }
    if s.get_char(0) != '0' || s.get_char(1) != 'x' {
        return None;
    }
    let mut acc: u128 = 0;
    let mut i: usize = 2;
    while i < n
        invariant
            2 <= i <= n,
            n == s@.len(),
            n > 2,
            s@[0] == '0',
            s@[1] == 'x',
            forall|j: int| 2 <= j < i ==> is_hex_digit(#[trigger] s@[j]),
            acc as nat == hex_val(s@.subrange(2, i as int)),
            acc <= u64::MAX as u128,
        decreases n - i,
    {
        let c = s.get_char(i);
        match hex_digit_val_exec(c) {
            None => {
                return None;
            },
            Some(d) => {
                proof {
                    assert(s@.subrange(2, i + 1 as int).drop_last() =~= s@.subrange(2, i as int));
                    assert(s@.subrange(2, i + 1 as int).last() == s@[i as int]);
                }
                let new_acc: u128 = acc * 16 + d as u128;
                if new_acc > u64::MAX as u128 {
                    proof {
                        assert(s@.skip(2).subrange(0, i - 1 as int) =~= s@.subrange(
                            2,
                            i + 1 as int,
                        ));
                        lemma_hex_val_prefix_le(s@.skip(2), i - 1 as int);
                    }
                    return None;
                }
                acc = new_acc;
            },
        }
        i += 1;
    }
    proof {
        assert(s@.subrange(2, n as int) =~= s@.skip(2));
    }
    Some(acc as u64)
}

/// The digits that `hex_digits` emits are hexadecimal digits and decode to
/// the value they were rendered from.
pub proof fn lemma_hex_digits_val(n: nat)
    ensures
        hex_digits(n).len() >= 1,
        forall|i: int| 0 <= i < hex_digits(n).len() ==> is_hex_digit(#[trigger] hex_digits(n)[i]),
        hex_val(hex_digits(n)) == n,
    decreases n,
{
    if n < 16 {
        assert(hex_digits(n).len() == 1);
        assert(hex_digits(n).last() == hex_digit(n));
        assert(hex_digits(n).drop_last() =~= Seq::<char>::empty());
        assert(hex_val(Seq::<char>::empty()) == 0);
        assert(hex_val(hex_digits(n)) == hex_val(hex_digits(n).drop_last()) * 16 + hex_digit_val(
            hex_digits(n).last(),
        ));
    } else {
        lemma_hex_digits_val(n / 16);
        assert(hex_digits(n).drop_last() =~= hex_digits(n / 16));
        assert(hex_digits(n).last() == hex_digit(n % 16));
        assert(hex_val(hex_digits(n)) == hex_val(hex_digits(n / 16)) * 16 + hex_digit_val(
            hex_digit(n % 16),
        ));
        assert(n / 16 * 16 + n % 16 == n) by {
            vstd::arithmetic::div_mod::lemma_fundamental_div_mod(n as int, 16);
        }
        assert forall|i: int| 0 <= i < hex_digits(n).len() implies is_hex_digit(
            #[trigger] hex_digits(n)[i],
        ) by {
            if i < hex_digits(n).len() - 1 {
                assert(hex_digits(n)[i] == hex_digits(n / 16)[i]);
            } else {
                assert(hex_digits(n)[i] == hex_digit(n % 16));
            }
        }
    }
}

/// Round-trip law: rendering a `u64` in hexadecimal and parsing the result
/// gives back the original integer.
pub proof fn lemma_hex_round_trip(n: u64)
    ensures
        spec_parse_hex(hex_str(n as nat)) == Some(n),
{
    lemma_hex_digits_val(n as nat);
    let s = hex_str(n as nat);
    assert(s.skip(2) =~= hex_digits(n as nat));
    assert forall|i: int| 2 <= i < s.len() implies is_hex_digit(#[trigger] s[i]) by {
        assert(s[i] == hex_digits(n as nat)[i - 2]);
    }
}

} // verus!
