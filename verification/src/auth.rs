//! Identity resolution: the pure mapping from a credential token to a user
//! identity. The token format is "user-{id}.exp.sign": the identifier is the
//! run of decimal digits between the fixed prefix and the first dot.

use vstd::prelude::*;
use vstd::string::StrSliceExecFns;

verus! {

/// A decimal digit.
pub open spec fn spec_is_digit(c: char) -> bool {
    c == '0' || c == '1' || c == '2' || c == '3' || c == '4' || c == '5' || c == '6' || c == '7'
        || c == '8' || c == '9'
}

/// The value of a decimal digit.
pub open spec fn spec_digit_val(c: char) -> int {
    if c == '0' {
        0
    } else if c == '1' {
        1
    } else if c == '2' {
        2
    } else if c == '3' {
        3
    } else if c == '4' {
        4
    } else if c == '5' {
        5
    } else if c == '6' {
        6
    } else if c == '7' {
        7
    } else if c == '8' {
        8
    } else {
        9
    }
}

/// Every character of `s` is a decimal digit.
pub open spec fn all_digits(s: Seq<char>) -> bool {
    forall|i: int| 0 <= i < s.len() ==> spec_is_digit(s[i])
}

/// The number a digit sequence denotes, most significant digit first.
pub open spec fn digits_val(s: Seq<char>) -> int
    decreases s.len(),
{
    if s.len() == 0 {
        0
    } else {
        digits_val(s.drop_last()) * 10 + spec_digit_val(s.last())
    }
}

/// The position of the first dot at or after `i`, or the length when none.
pub open spec fn token_end(s: Seq<char>, i: int) -> int
    decreases s.len() - i,
{
    if i < 0 || i >= s.len() {
        s.len() as int
    } else if s[i] == '.' {
        i
    } else {
        token_end(s, i + 1)
    }
}

/// The credential starts with the fixed prefix "user-".
pub open spec fn has_user_prefix(s: Seq<char>) -> bool {
    s.len() >= 5 && s[0] == 'u' && s[1] == 's' && s[2] == 'e' && s[3] == 'r' && s[4] == '-'
}

/// The identity a credential token resolves to: the digits between the
/// prefix and the first dot, read as a number, provided there is at least
/// one, nothing else stands among them, and the number fits an identifier;
/// every other token resolves to nothing.
pub open spec fn spec_resolve(s: Seq<char>) -> Option<i32> {
    if has_user_prefix(s) {
        let tok = s.subrange(5, token_end(s, 5));
        if tok.len() > 0 && all_digits(tok) && digits_val(tok) <= i32::MAX {
            Option::Some(digits_val(tok) as i32)
        } else {
            Option::None
        }
    } else {
        Option::None
    }
}

/// `token_end` never runs past the sequence and never behind its start.
proof fn lemma_token_end_bounds(s: Seq<char>, i: int)
    requires
        0 <= i <= s.len(),
    ensures
        i <= token_end(s, i) <= s.len(),
    decreases s.len() - i,
{
    if i < s.len() && s[i] != '.' {
        lemma_token_end_bounds(s, i + 1);
    }
}

/// Whether `c` is a decimal digit, and its value.
fn digit_val(c: char) -> (r: Option<u8>)
    ensures
        r is Some <==> spec_is_digit(c),
        r is Some ==> r->0 as int == spec_digit_val(c),
{
    match c {
        '0' => Option::Some(0),
        '1' => Option::Some(1),
        '2' => Option::Some(2),
        '3' => Option::Some(3),
        '4' => Option::Some(4),
        '5' => Option::Some(5),
        '6' => Option::Some(6),
        '7' => Option::Some(7),
        '8' => Option::Some(8),
        '9' => Option::Some(9),
        _ => Option::None,
    }
}

/// Resolves a credential token to a user identity; anything but a
/// well-formed token resolves to nothing.
pub fn resolve(credential: &str) -> (r: Option<i32>)
    ensures
        r == spec_resolve(credential@),
{
    let n = credential.unicode_len();
    if n < 5 {
        return Option::None;
    }
    if !(credential.get_char(0) == 'u' && credential.get_char(1) == 's' && credential.get_char(2)
        == 'e' && credential.get_char(3) == 'r' && credential.get_char(4) == '-') {
        return Option::None;
    }
    let mut i: usize = 5;
    let mut acc: i64 = 0;
    let mut too_big: bool = false;
    let mut seen_other: bool = false;
    loop
        invariant_except_break
            !seen_other,
        invariant
            5 <= i <= n,
            n == credential@.len(),
            has_user_prefix(credential@),
            token_end(credential@, 5) == token_end(credential@, i as int),
            all_digits(credential@.subrange(5, i as int)),
            too_big <==> digits_val(credential@.subrange(5, i as int)) > i32::MAX,
            !too_big ==> acc == digits_val(credential@.subrange(5, i as int)),
            0 <= acc <= i32::MAX,
        ensures
            n == credential@.len(),
            !seen_other ==> 5 <= i <= n && token_end(credential@, 5) == i as int,
            !seen_other ==> all_digits(credential@.subrange(5, i as int)),
            !seen_other ==> (too_big <==> digits_val(credential@.subrange(5, i as int))
                > i32::MAX),
            !seen_other && !too_big ==> acc == digits_val(credential@.subrange(5, i as int)),
            seen_other ==> !all_digits(credential@.subrange(5, token_end(credential@, 5))),
        decreases n - i,
    {
        if i == n {
            proof {
                assert(token_end(credential@, i as int) == i as int);
            }
            break;
        }
        let c = credential.get_char(i);
        if c == '.' {
            proof {
                assert(token_end(credential@, i as int) == i as int);
            }
            break;
        }
        let ghost pre = credential@.subrange(5, i as int);
        let ghost cur = credential@.subrange(5, i as int + 1);
        proof {
            assert(cur.drop_last() =~= pre);
            assert(cur.last() == credential@[i as int]);
        }
        match digit_val(c) {
            Option::Some(d) => {
                proof {
                    assert(digits_val(cur) == digits_val(pre) * 10 + spec_digit_val(
                        credential@[i as int],
                    ));
                }
                let next = acc * 10 + (d as i64);
                if too_big || next > (i32::MAX as i64) {
                    too_big = true;
                } else {
                    acc = next;
                }
            },
            Option::None => {
                seen_other = true;
                proof {
                    lemma_token_end_bounds(credential@, i as int + 1);
                    assert(token_end(credential@, i as int) == token_end(
                        credential@,
                        i as int + 1,
                    ));
                    assert((i as int) < token_end(credential@, 5));
                    lemma_token_end_bounds(credential@, 5);
                    let tok = credential@.subrange(5, token_end(credential@, 5));
                    assert(tok[i as int - 5] == credential@[i as int]);
                    assert(!spec_is_digit(tok[i as int - 5]));
                    assert(!all_digits(tok));
                }
                break;
            },
        }
        i += 1;
        proof {
            assert(token_end(credential@, i as int - 1) == token_end(credential@, i as int));
        }
    }
    if seen_other {
        return Option::None;
    }
    if i == 5 {
        return Option::None;
    }
    if too_big {
        return Option::None;
    }
    Option::Some(acc as i32)
}

} // verus!
