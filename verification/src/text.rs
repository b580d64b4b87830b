//! Plain-text rendering helpers: decimal rendering of integers and JSON
//! string escaping, each proved against an exact character-sequence spec.

use vstd::prelude::*;
use vstd::string::StrSliceExecFns;
use vstd::string::StringExecFns;

verus! {

/// The decimal digit character for `d` (meaningful for 0 <= d <= 9).
pub open spec fn spec_digit_char(d: int) -> char {
    if d == 0 {
        '0'
    } else if d == 1 {
        '1'
    } else if d == 2 {
        '2'
    } else if d == 3 {
        '3'
    } else if d == 4 {
        '4'
    } else if d == 5 {
        '5'
    } else if d == 6 {
        '6'
    } else if d == 7 {
        '7'
    } else if d == 8 {
        '8'
    } else {
        '9'
    }
}

/// Decimal rendering of a nonnegative integer, most significant digit first,
/// with no leading zeros (a single '0' for zero itself).
pub open spec fn spec_udec(n: nat) -> Seq<char>
    decreases n,
{
    if n < 10 {
        seq![spec_digit_char(n as int)]
    } else {
        spec_udec(n / 10) + seq![spec_digit_char((n % 10) as int)]
    }
}

/// Decimal rendering of a signed integer: a '-' sign before the digits of the
/// magnitude when negative.
pub open spec fn spec_idec(n: int) -> Seq<char> {
    if n >= 0 {
        spec_udec(n as nat)
    } else {
        seq!['-'] + spec_udec((-n) as nat)
    }
}

/// The lower-case hexadecimal digit character for `d` (meaningful for
/// 0 <= d <= 15).
pub open spec fn spec_hex_char(d: int) -> char {
    if d < 10 {
        spec_digit_char(d)
    } else if d == 10 {
        'a'
    } else if d == 11 {
        'b'
    } else if d == 12 {
        'c'
    } else if d == 13 {
        'd'
    } else if d == 14 {
        'e'
    } else {
        'f'
    }
}

fn digit_str(d: u64) -> (r: &'static str)
    requires
        d < 10,
    ensures
        r@ == seq![spec_digit_char(d as int)],
{
    proof {
        reveal_strlit("0");
        reveal_strlit("1");
        reveal_strlit("2");
        reveal_strlit("3");
        reveal_strlit("4");
        reveal_strlit("5");
        reveal_strlit("6");
        reveal_strlit("7");
        reveal_strlit("8");
        reveal_strlit("9");
    }
    let r = if d == 0 {
        "0"
    } else if d == 1 {
        "1"
    } else if d == 2 {
        "2"
    } else if d == 3 {
        "3"
    } else if d == 4 {
        "4"
    } else if d == 5 {
        "5"
    } else if d == 6 {
        "6"
    } else if d == 7 {
        "7"
    } else if d == 8 {
        "8"
    } else {
        "9"
    };
    proof {
        assert(r@ =~= seq![spec_digit_char(d as int)]);
    }
    r
}

fn hex_str(d: u64) -> (r: &'static str)
    requires
        d < 16,
    ensures
        r@ == seq![spec_hex_char(d as int)],
{
    proof {
        reveal_strlit("a");
        reveal_strlit("b");
        reveal_strlit("c");
        reveal_strlit("d");
        reveal_strlit("e");
        reveal_strlit("f");
    }
    let r = if d < 10 {
        digit_str(d)
    } else if d == 10 {
        "a"
    } else if d == 11 {
        "b"
    } else if d == 12 {
        "c"
    } else if d == 13 {
        "d"
    } else if d == 14 {
        "e"
    } else {
        "f"
    };
    proof {
        assert(r@ =~= seq![spec_hex_char(d as int)]);
    }
    r
}

/// Renders an unsigned integer in decimal.
pub fn u64_dec(n: u64) -> (r: String)
    ensures
        r@ == spec_udec(n as nat),
    decreases n,
{
    if n < 10 {
        let r = digit_str(n).to_owned();
        r
    } else {
        let mut r = u64_dec(n / 10);
        r.append(digit_str(n % 10));
        proof {
            assert(r@ =~= spec_udec(n as nat));
        }
        r
    }
}

/// Renders a signed integer in decimal, with a leading '-' when negative.
pub fn i64_dec(n: i64) -> (r: String)
    ensures
        r@ == spec_idec(n as int),
{
    if n >= 0 {
        u64_dec(n as u64)
    } else {
        let mag: u64 = ((-(n + 1)) as u64) + 1;
        proof {
            assert(mag as int == -(n as int));
        }
        let mut r = "-".to_owned();
        proof {
            reveal_strlit("-");
        }
        let digits = u64_dec(mag);
        r.append(digits.as_str());
        proof {
            assert(r@ =~= spec_idec(n as int));
        }
        r
    }
}

/// How a single character appears inside a JSON string literal: quotes and
/// backslashes are backslash-escaped, control characters become a `\u00XX`
/// escape, and every other character stands as itself.
pub open spec fn spec_escape_char(c: char) -> Seq<char> {
    if c == '"' {
        seq!['\\', '"']
    } else if c == '\\' {
        seq!['\\', '\\']
    } else if (c as int) < 32 {
        seq!['\\', 'u', '0', '0', spec_hex_char(c as int / 16), spec_hex_char(c as int % 16)]
    } else {
        seq![c]
    }
}

/// The body of a JSON string literal for the text `s`: each character
/// escaped as `spec_escape_char` says, in order.
pub open spec fn spec_escape(s: Seq<char>) -> Seq<char>
    decreases s.len(),
{
    if s.len() == 0 {
        Seq::<char>::empty()
    } else {
        spec_escape(s.drop_last()) + spec_escape_char(s.last())
    }
}

/// Law: escaped text never holds a raw control character, whatever the
/// input held — the piece of JSON string validity that message content
/// could otherwise break. Every character of the escape of any text is at
/// or above the space character.
pub proof fn lemma_escape_no_controls(s: Seq<char>)
    ensures
        forall|i: int|
            0 <= i < spec_escape(s).len() ==> (#[trigger] spec_escape(s)[i]) as int >= 32,
    decreases s.len(),
{
    if s.len() > 0 {
        lemma_escape_no_controls(s.drop_last());
        let c = s.last();
        let prefix = spec_escape(s.drop_last());
        let tail = spec_escape_char(c);
        assert forall|i: int| 0 <= i < tail.len() implies (#[trigger] tail[i]) as int >= 32 by {
            assert(('\\' as int) >= 32 && ('"' as int) >= 32 && ('u' as int) >= 32 && ('0' as int)
                >= 32);
            assert(forall|d: int| (#[trigger] spec_hex_char(d)) as int >= 32);
        }
        assert forall|i: int| 0 <= i < spec_escape(s).len() implies (#[trigger] spec_escape(
            s,
        )[i]) as int >= 32 by {
            if i < prefix.len() {
                assert(spec_escape(s)[i] == prefix[i]);
            } else {
                assert(spec_escape(s)[i] == tail[i - prefix.len()]);
            }
        }
    }
}

/// A character the escaper may emit as a hexadecimal digit: '0' to '9' or
/// 'a' to 'f'.
pub open spec fn is_hex_char(c: char) -> bool {
    (48 <= c as int && c as int <= 57) || (97 <= c as int && c as int <= 102)
}

/// Recognizer for the body of a JSON string literal, over the escapes the
/// escaper emits: plain printable characters other than '"' and '\\',
/// backslash-escaped quotes and backslashes, and `\u00XX` sequences.
pub open spec fn wf_json_string_body(s: Seq<char>) -> bool
    decreases s.len(),
{
    if s.len() == 0 {
        true
    } else if s[0] == '\\' {
        if s.len() >= 2 && (s[1] == '"' || s[1] == '\\') {
            wf_json_string_body(s.skip(2))
        } else if s.len() >= 6 && s[1] == 'u' && s[2] == '0' && s[3] == '0' && is_hex_char(s[4])
            && is_hex_char(s[5]) {
            wf_json_string_body(s.skip(6))
        } else {
            false
        }
    } else {
        (s[0] as int) >= 32 && s[0] != '"' && wf_json_string_body(s.skip(1))
    }
}

proof fn lemma_wf_concat(a: Seq<char>, b: Seq<char>)
    requires
        wf_json_string_body(a),
        wf_json_string_body(b),
    ensures
        wf_json_string_body(a + b),
    decreases a.len(),
{
    if a.len() == 0 {
        assert(a + b =~= b);
    } else {
        let s = a + b;
        if a[0] == '\\' {
            if a.len() >= 2 && (a[1] == '"' || a[1] == '\\') {
                lemma_wf_concat(a.skip(2), b);
                assert(s.skip(2) =~= a.skip(2) + b);
            } else {
                lemma_wf_concat(a.skip(6), b);
                assert(s.skip(6) =~= a.skip(6) + b);
            }
        } else {
            lemma_wf_concat(a.skip(1), b);
            assert(s.skip(1) =~= a.skip(1) + b);
        }
    }
}

/// Law: the escape of any text parses as the body of a JSON string literal
/// — rendering cannot yield an unterminated or ill-formed string, whatever
/// the message held.
pub proof fn lemma_escape_wf_json(s: Seq<char>)
    ensures
        wf_json_string_body(spec_escape(s)),
    decreases s.len(),
{
    if s.len() > 0 {
        lemma_escape_wf_json(s.drop_last());
        let c = s.last();
        let e = spec_escape_char(c);
        assert(wf_json_string_body(e)) by {
            assert(wf_json_string_body(Seq::<char>::empty()));
            if c == '"' || c == '\\' {
                assert(e.skip(2) =~= Seq::<char>::empty());
                assert(wf_json_string_body(e.skip(2)));
            } else if (c as int) < 32 {
                assert(is_hex_char(spec_hex_char(c as int / 16)));
                assert(is_hex_char(spec_hex_char(c as int % 16)));
                assert(e.len() == 6 && e[0] == '\\' && e[1] == 'u' && e[2] == '0' && e[3] == '0');
                assert(e.skip(6) =~= Seq::<char>::empty());
                assert(wf_json_string_body(e.skip(6)));
            } else {
                assert(e.skip(1) =~= Seq::<char>::empty());
                assert(wf_json_string_body(e.skip(1)));
            }
        }
        lemma_wf_concat(spec_escape(s.drop_last()), e);
    }
}

/// Escapes `s` for inclusion between the quotes of a JSON string literal.
pub fn escape_json(s: &str) -> (r: String)
    ensures
        r@ == spec_escape(s@),
{
    let mut out = String::new();
    let n = s.unicode_len();
    let mut i: usize = 0;
    while i < n
        invariant
            n == s@.len(),
            i <= n,
            out@ == spec_escape(s@.subrange(0, i as int)),
        decreases n - i,
    {
        let c = s.get_char(i);
        if c == '"' {
            out.append("\\\"");
            proof {
                reveal_strlit("\\\"");
                assert("\\\""@ =~= spec_escape_char(c));
            }
        } else if c == '\\' {
            out.append("\\\\");
            proof {
                reveal_strlit("\\\\");
                assert("\\\\"@ =~= spec_escape_char(c));
            }
        } else if (c as u32) < 32 {
            let v = c as u32;
            out.append("\\u00");
            out.append(hex_str((v / 16) as u64));
            out.append(hex_str((v % 16) as u64));
            proof {
                reveal_strlit("\\u00");
                assert("\\u00"@ + seq![spec_hex_char(v as int / 16)] + seq![
                    spec_hex_char(v as int % 16),
                ] =~= spec_escape_char(c));
            }
        } else {
            let one = s.substring_char(i, i + 1);
            proof {
                assert(one@ =~= seq![s@[i as int]]);
                assert(one@ =~= spec_escape_char(c));
            }
            out.append(one);
        }
        proof {
            assert(s@.subrange(0, i + 1 as int).drop_last() =~= s@.subrange(0, i as int));
            assert(s@.subrange(0, i + 1 as int).last() == s@[i as int]);
            assert(out@ =~= spec_escape(s@.subrange(0, i + 1 as int)));
        }
        i = i + 1;
    }
    proof {
        assert(s@.subrange(0, n as int) =~= s@);
    }
    out
}

} // verus!
