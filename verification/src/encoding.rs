//! Small string-building blocks: decimal rendering of integers and the
//! `application/x-www-form-urlencoded` encoding of query values.

use vstd::prelude::*;

verus! {

/// The decimal digit character for `d` (meaningful for `0 <= d < 10`).
pub open spec fn spec_digit(d: int) -> char
    recommends
        0 <= d < 10,
{
    ((d + 48) as u8) as char
}

/// The decimal rendering of `n`, most significant digit first.
pub open spec fn spec_dec(n: nat) -> Seq<char>
    decreases n,
{
    if n < 10 {
        seq![spec_digit(n as int)]
    } else {
        spec_dec((n / 10) as nat).push(spec_digit((n % 10) as int))
    }
}

/// Every character of a decimal rendering is a digit.
pub proof fn lemma_dec_digits(n: nat)
    ensures
        spec_dec(n).len() >= 1,
        forall|i: int|
            0 <= i < spec_dec(n).len() ==> '0' <= #[trigger] spec_dec(n)[i] <= '9',
    decreases n,
{
    if n >= 10 {
        lemma_dec_digits((n / 10) as nat);
    }
}

/// A one-character string slice holding the decimal digit `d`.
fn digit_str(d: u64) -> (r: &'static str)
    requires
        d < 10,
    ensures
        r@ =~= seq![spec_digit(d as int)],
{
    let digits = "0123456789";
    proof {
        reveal_strlit("0123456789");
    }
    let r = digits.substring_ascii(d as usize, d as usize + 1);
    proof {
        assert(digits@[d as int] == spec_digit(d as int)) by {
            if d == 0 {
            } else if d == 1 {
            } else if d == 2 {
            } else if d == 3 {
            } else if d == 4 {
            } else if d == 5 {
            } else if d == 6 {
            } else if d == 7 {
            } else if d == 8 {
            } else {
            }
        }
    }
    r
}

/// The decimal rendering of `n` as a string.
pub fn u64_to_dec(n: u64) -> (r: String)
    ensures
        r@ == spec_dec(n as nat),
    decreases n,
{
    if n < 10 {
        digit_str(n).to_owned()
    } else {
        let mut s = u64_to_dec(n / 10);
        s.append(digit_str(n % 10));
        proof {
            assert(s@ =~= spec_dec(n as nat));
        }
        s
    }
}

/// The value of a hexadecimal digit, upper or lower case; 16 marks a
/// character that is no hexadecimal digit.
pub open spec fn spec_hex_val(c: char) -> int {
    if '0' <= c && c <= '9' {
        c as int - 48
    } else if 'a' <= c && c <= 'f' {
        c as int - 87
    } else if 'A' <= c && c <= 'F' {
        c as int - 55
    } else {
        16
    }
}

/// Percent-decoding of query text, character by character: `+` becomes a
/// space, `%` followed by two hexadecimal digits becomes the character with
/// that code, anything else stands as it is. This agrees with standard
/// query decoding for every escape below `%80` — in particular for every
/// ASCII token value. Escapes that together form a multi-byte UTF-8
/// sequence are outside this model: each escape decodes on its own, where
/// standard decoding would reassemble them into one character.
pub open spec fn spec_pct_decode(s: Seq<char>) -> Seq<char>
    decreases s.len(),
{
    if s.len() == 0 {
        Seq::empty()
    } else if s[0] == '+' {
        seq![' '] + spec_pct_decode(s.skip(1))
    } else if s[0] == '%' && s.len() >= 3 && spec_hex_val(s[1]) < 16 && spec_hex_val(s[2]) < 16 {
        seq![((16 * spec_hex_val(s[1]) + spec_hex_val(s[2])) as u8) as char] + spec_pct_decode(
            s.skip(3),
        )
    } else {
        seq![s[0]] + spec_pct_decode(s.skip(1))
    }
}

/// The value of a hexadecimal digit; 16 for any other character.
fn hex_val(c: char) -> (r: u8)
    ensures
        r as int == spec_hex_val(c),
{
    if '0' <= c && c <= '9' {
        (c as u8) - 48
    } else if 'a' <= c && c <= 'f' {
        (c as u8) - 87
    } else if 'A' <= c && c <= 'F' {
        (c as u8) - 55
    } else {
        16
    }
}

/// Relies on String::push: appends the given character to the string.
#[verifier::external_body]
fn push_char(s: &mut String, c: char)
    ensures
        final(s)@ == old(s)@.push(c),
{
    s.push(c);
}

/// Percent-decode `s`, with `+` as space.
pub fn pct_decode(s: &str) -> (r: String)
    ensures
        r@ == spec_pct_decode(s@),
{
    let len = s.unicode_len();
    let mut r = String::new();
    let mut i: usize = 0;
    proof {
        assert(s@.skip(0) =~= s@);
        assert(Seq::<char>::empty() + spec_pct_decode(s@) =~= spec_pct_decode(s@));
    }
    while i < len
        invariant
            i <= len,
            len == s@.len(),
            spec_pct_decode(s@) == r@ + spec_pct_decode(s@.skip(i as int)),
        decreases len - i,
    {
        let ghost t = s@.skip(i as int);
        proof {
            assert(t[0] == s@[i as int]);
        }
        let c = s.get_char(i);
        if c == '%' && len - i >= 3 {
            let h = hex_val(s.get_char(i + 1));
            let l = hex_val(s.get_char(i + 2));
            proof {
                assert(t[1] == s@[i + 1]);
                assert(t[2] == s@[i + 2]);
            }
            if h < 16 && l < 16 {
                push_char(&mut r, (16 * h + l) as char);
                proof {
                    assert(t.skip(3) =~= s@.skip(i + 3));
                    assert(r@ + spec_pct_decode(s@.skip(i + 3)) =~= spec_pct_decode(s@));
                }
                i = i + 3;
            } else {
                push_char(&mut r, c);
                proof {
                    assert(t.skip(1) =~= s@.skip(i + 1));
                    assert(r@ + spec_pct_decode(s@.skip(i + 1)) =~= spec_pct_decode(s@));
                }
                i = i + 1;
            }
        } else {
            if c == '+' {
                push_char(&mut r, ' ');
            } else {
                push_char(&mut r, c);
            }
            proof {
                assert(t.skip(1) =~= s@.skip(i + 1));
                assert(r@ + spec_pct_decode(s@.skip(i + 1)) =~= spec_pct_decode(s@));
            }
            i = i + 1;
        }
    }
    proof {
        assert(s@.skip(len as int) =~= Seq::<char>::empty());
    }
    r
}

/// A character the form serializer keeps as it is: letters, digits and
/// `*`, `-`, `.`, `_`.
pub open spec fn spec_form_unreserved(c: char) -> bool {
    ||| '0' <= c && c <= '9'
    ||| 'a' <= c && c <= 'z'
    ||| 'A' <= c && c <= 'Z'
    ||| c == '*'
    ||| c == '-'
    ||| c == '.'
    ||| c == '_'
}

/// What `form_urlencoded`'s byte serializer produces for the UTF-8 bytes of a
/// string: the result is a function of the input characters alone.
pub uninterp spec fn form_encoded(s: Seq<char>) -> Seq<char>;

/// Relies on form_urlencoded::byte_serialize: the
/// `application/x-www-form-urlencoded` serialization of the input bytes,
/// deterministic in the input. Its source further shows: unreserved
/// characters pass through unchanged (so an all-unreserved string comes
/// back as it is), every input byte yields at least one output character,
/// and the output holds only unreserved characters, `+`, `%` and upper-case
/// hexadecimal digits — never `&` or `=`.
#[verifier::external_body]
pub(crate) fn form_encode(s: &str) -> (r: String)
    ensures
        r@ == form_encoded(s@),
        (forall|i: int| 0 <= i < s@.len() ==> spec_form_unreserved(s@[i])) ==> r@ == s@,
        r@.len() == 0 <==> s@.len() == 0,
        forall|i: int| 0 <= i < r@.len() ==> #[trigger] r@[i] != '&' && r@[i] != '=',
{
    form_urlencoded::byte_serialize(s.as_bytes()).collect()
}

} // verus!
