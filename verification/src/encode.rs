//! Verified production of the JSON text this client sends: string escaping,
//! quoting, and the encoding of a record as an array of strings.
//!
//! The escaping follows the interchange rules for JSON strings: the quote and
//! the backslash get a backslash, the common control characters get their
//! short escapes, the remaining control characters are written as
//! `\u00` and two lowercase hex digits, and every other character stands for
//! itself.
use vstd::prelude::*;

verus! {

/// Relies on `String::push`: it appends the given character to the end of
/// the string.
pub assume_specification[ String::push ](s: &mut String, ch: char)
    ensures
        final(s)@ == old(s)@.push(ch),
;

/// The sixteen lowercase hexadecimal digits, in value order.
pub open spec fn hex_digits() -> Seq<char> {
    seq!['0', '1', '2', '3', '4', '5', '6', '7', '8', '9', 'a', 'b', 'c', 'd', 'e', 'f']
}

/// How one character is written inside a JSON string.
pub open spec fn escape_char(c: char) -> Seq<char> {
    if c == '"' {
        seq!['\\', '"']
    } else if c == '\\' {
        seq!['\\', '\\']
    } else if c == '\u{8}' {
        seq!['\\', 'b']
    } else if c == '\u{9}' {
        seq!['\\', 't']
    } else if c == '\u{a}' {
        seq!['\\', 'n']
    } else if c == '\u{c}' {
        seq!['\\', 'f']
    } else if c == '\u{d}' {
        seq!['\\', 'r']
    } else if (c as u32) < 0x20 {
        seq!['\\', 'u', '0', '0', hex_digits()[(c as u32) as int / 16], hex_digits()[(c as u32) as int % 16]]
    } else {
        seq![c]
    }
}

/// A whole character sequence, escaped.
pub open spec fn escape_seq(s: Seq<char>) -> Seq<char>
    decreases s.len(),
{
    if s.len() == 0 {
        Seq::empty()
    } else {
        escape_seq(s.drop_last()) + escape_char(s.last())
    }
}

/// A JSON string: the escaped characters between two quotes.
pub open spec fn quote(s: Seq<char>) -> Seq<char> {
    seq!['"'] + escape_seq(s) + seq!['"']
}

/// The comma-separated quoted elements of a JSON array of strings.
pub open spec fn array_inner(xs: Seq<Seq<char>>) -> Seq<char>
    decreases xs.len(),
{
    if xs.len() == 0 {
        Seq::empty()
    } else if xs.len() == 1 {
        quote(xs[0])
    } else {
        array_inner(xs.drop_last()) + seq![','] + quote(xs.last())
    }
}

/// A JSON array of strings.
pub open spec fn json_string_array(xs: Seq<Seq<char>>) -> Seq<char> {
    seq!['['] + array_inner(xs) + seq![']']
}

/// A character that stands for itself inside a JSON string.
pub open spec fn plain_char(c: char) -> bool {
    c != '"' && c != '\\' && (c as u32) >= 0x20
}

/// Law: a sequence of characters that need no escaping is written verbatim
/// inside a JSON string.
pub proof fn lemma_escape_plain_identity(s: Seq<char>)
    requires
        forall|i: int| 0 <= i < s.len() ==> plain_char(s[i]),
    ensures
        escape_seq(s) == s,
    decreases s.len(),
{
    if s.len() == 0 {
        assert(escape_seq(s) =~= s);
    } else {
        assert(forall|i: int| 0 <= i < s.drop_last().len() ==> plain_char(#[trigger] s.drop_last()[i]));
        lemma_escape_plain_identity(s.drop_last());
        assert(plain_char(s.last()));
        assert(escape_seq(s) =~= s.drop_last().push(s.last()));
        assert(s.drop_last().push(s.last()) =~= s);
    }
}

/// A well-formed JSON string body: no raw quote, control character or lone
/// backslash ever appears; a backslash always starts one of the short
/// escapes, or `\u00` followed by two hex digits.
pub open spec fn valid_string_body(t: Seq<char>) -> bool
    decreases t.len(),
{
    if t.len() == 0 {
        true
    } else if t[0] == '\\' {
        t.len() >= 2 && ({
            ||| ((t[1] == '"' || t[1] == '\\' || t[1] == 'b' || t[1] == 't' || t[1] == 'n'
                || t[1] == 'f' || t[1] == 'r') && valid_string_body(t.skip(2)))
            ||| (t[1] == 'u' && t.len() >= 6 && t[2] == '0' && t[3] == '0' && hex_digits().contains(
                t[4],
            ) && hex_digits().contains(t[5]) && valid_string_body(t.skip(6)))
        })
    } else {
        plain_char(t[0]) && valid_string_body(t.skip(1))
    }
}

/// A valid string body stays valid when the written form of one more
/// character is appended.
proof fn lemma_valid_body_append(t: Seq<char>, c: char)
    requires
        valid_string_body(t),
    ensures
        valid_string_body(t + escape_char(c)),
    decreases t.len(),
{
    let r = escape_char(c);
    if t.len() == 0 {
        assert(t + r =~= r);
        assert(valid_string_body(Seq::<char>::empty()));
        if c == '"' || c == '\\' || c == '\u{8}' || c == '\u{9}' || c == '\u{a}' || c == '\u{c}'
            || c == '\u{d}' {
            assert(r.skip(2) =~= Seq::<char>::empty());
            assert(valid_string_body(r));
        } else if (c as u32) < 0x20 {
            let hi = (c as u32) as int / 16;
            let lo = (c as u32) as int % 16;
            assert(0 <= hi < 16 && 0 <= lo < 16);
            assert(hex_digits().contains(hex_digits()[hi])) by {
                assert(0 <= hi < hex_digits().len() && hex_digits()[hi] == hex_digits()[hi]);
            }
            assert(hex_digits().contains(hex_digits()[lo])) by {
                assert(0 <= lo < hex_digits().len() && hex_digits()[lo] == hex_digits()[lo]);
            }
            assert(r.skip(6) =~= Seq::<char>::empty());
            assert(valid_string_body(r));
        } else {
            assert(r.skip(1) =~= Seq::<char>::empty());
            assert(plain_char(c));
            assert(valid_string_body(r));
        }
    } else if t[0] == '\\' {
        if t[1] == 'u' && t.len() >= 6 && t[2] == '0' && t[3] == '0' && hex_digits().contains(t[4])
            && hex_digits().contains(t[5]) && valid_string_body(t.skip(6)) {
            lemma_valid_body_append(t.skip(6), c);
            assert((t + r).skip(6) =~= t.skip(6) + r);
        } else {
            lemma_valid_body_append(t.skip(2), c);
            assert((t + r).skip(2) =~= t.skip(2) + r);
        }
    } else {
        lemma_valid_body_append(t.skip(1), c);
        assert((t + r).skip(1) =~= t.skip(1) + r);
    }
}

/// Law: the escaped form of any character sequence is a well-formed JSON
/// string body.
pub proof fn lemma_escape_valid(s: Seq<char>)
    ensures
        valid_string_body(escape_seq(s)),
    decreases s.len(),
{
    if s.len() == 0 {
    } else {
        lemma_escape_valid(s.drop_last());
        lemma_valid_body_append(escape_seq(s.drop_last()), s.last());
    }
}

/// Law: a quoted string is syntactically a JSON string — an opening quote, a
/// well-formed body, a closing quote.
pub proof fn lemma_quote_valid(s: Seq<char>)
    ensures
        quote(s).len() >= 2,
        quote(s)[0] == '"',
        quote(s).last() == '"',
        valid_string_body(quote(s).subrange(1, quote(s).len() - 1)),
{
    lemma_escape_valid(s);
    assert(quote(s).subrange(1, quote(s).len() - 1) =~= escape_seq(s));
}

/// The lowercase hexadecimal digit with value `d`.
fn hex_char(d: u32) -> (r: char)
    requires
        d < 16,
    ensures
        r == hex_digits()[d as int],
{
    if d == 0 { '0' }
    else if d == 1 { '1' }
    else if d == 2 { '2' }
    else if d == 3 { '3' }
    else if d == 4 { '4' }
    else if d == 5 { '5' }
    else if d == 6 { '6' }
    else if d == 7 { '7' }
    else if d == 8 { '8' }
    else if d == 9 { '9' }
    else if d == 10 { 'a' }
    else if d == 11 { 'b' }
    else if d == 12 { 'c' }
    else if d == 13 { 'd' }
    else if d == 14 { 'e' }
    else { 'f' }
}

/// Appends the escaped form of `s` to `out`.
pub fn escape_into(out: &mut String, s: &str)
    ensures
        final(out)@ == old(out)@ + escape_seq(s@),
{
    let n = s.unicode_len();
    proof {
        assert(s@.take(0) =~= Seq::<char>::empty());
        assert(old(out)@ + escape_seq(s@.take(0)) =~= old(out)@);
    }
    for i in 0..n
        invariant
            n == s@.len(),
            out@ == old(out)@ + escape_seq(s@.take(i as int)),
    {
        let c = s.get_char(i);
        if c == '"' {
            out.push('\\');
            out.push('"');
        } else if c == '\\' {
            out.push('\\');
            out.push('\\');
        } else if c == '\u{8}' {
            out.push('\\');
            out.push('b');
        } else if c == '\u{9}' {
            out.push('\\');
            out.push('t');
        } else if c == '\u{a}' {
            out.push('\\');
            out.push('n');
        } else if c == '\u{c}' {
            out.push('\\');
            out.push('f');
        } else if c == '\u{d}' {
            out.push('\\');
            out.push('r');
        } else if (c as u32) < 0x20 {
            let code = c as u32;
            out.push('\\');
            out.push('u');
            out.push('0');
            out.push('0');
            out.push(hex_char(code / 16));
            out.push(hex_char(code % 16));
        } else {
            out.push(c);
        }
        proof {
            let taken = s@.take(i as int + 1);
            assert(taken.drop_last() =~= s@.take(i as int));
            assert(taken.last() == s@[i as int]);
            assert(out@ =~= old(out)@ + escape_seq(s@.take(i as int + 1)));
        }
    }
    proof {
        assert(s@.take(n as int) =~= s@);
    }
}

/// Appends the quoted, escaped form of `s` to `out`.
pub fn quote_into(out: &mut String, s: &str)
    ensures
        final(out)@ == old(out)@ + quote(s@),
{
    out.push('"');
    escape_into(out, s);
    out.push('"');
    proof {
        assert(out@ =~= old(out)@ + quote(s@));
    }
}

/// Encodes a record — an ordered list of account identifiers — as a JSON
/// array of strings, exactly as it is persisted in the store.
pub fn encode_accounts(accounts: &Vec<String>) -> (r: String)
    ensures
        r@ == json_string_array(crate::decode::views_of(accounts@)),
{
    let ghost xs = crate::decode::views_of(accounts@);
    let mut out = String::new();
    out.push('[');
    let n = accounts.len();
    proof {
        assert(xs.take(0) =~= Seq::<Seq<char>>::empty());
        assert(out@ =~= seq!['['] + array_inner(xs.take(0)));
    }
    for i in 0..n
        invariant
            n == accounts.len(),
            xs == crate::decode::views_of(accounts@),
            n == xs.len(),
            out@ == seq!['['] + array_inner(xs.take(i as int)),
    {
        if i > 0 {
            out.push(',');
        }
        quote_into(&mut out, accounts[i].as_str());
        proof {
            let taken = xs.take(i as int + 1);
            assert(taken.drop_last() =~= xs.take(i as int));
            assert(taken.last() == xs[i as int]);
            assert(xs[i as int] == accounts@[i as int]@);
            if i == 0 {
                assert(array_inner(taken) == quote(xs[0]));
                assert(out@ =~= seq!['['] + array_inner(taken));
            } else {
                assert(array_inner(taken) == array_inner(xs.take(i as int)) + seq![','] + quote(
                    taken.last(),
                ));
                assert(out@ =~= seq!['['] + array_inner(taken));
            }
        }
    }
    proof {
        assert(xs.take(n as int) =~= xs);
    }
    out.push(']');
    proof {
        assert(out@ =~= json_string_array(xs));
    }
    out
}

} // verus!
