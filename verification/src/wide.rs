//! The wide-character form of text that the event subsystem speaks: UTF-16
//! code units, null-terminated on the way in, decoded leniently on the way
//! out.

use vstd::prelude::*;

verus! {

/// The replacement character that stands for a code unit that is no text.
pub open spec fn replacement() -> char {
    '\u{FFFD}'
}

/// A leading (high) surrogate.
pub open spec fn is_high(u: u16) -> bool {
    0xD800 <= u <= 0xDBFF
}

/// A trailing (low) surrogate.
pub open spec fn is_low(u: u16) -> bool {
    0xDC00 <= u <= 0xDFFF
}

/// The code units of one character: one unit below U+10000, a surrogate pair
/// from there on.
pub open spec fn units(c: char) -> Seq<u16> {
    let v = c as u32;
    if v < 0x10000 {
        seq![v as u16]
    } else {
        seq![
            (0xD800 + (v - 0x10000) / 0x400) as u16,
            (0xDC00 + (v - 0x10000) % 0x400) as u16,
        ]
    }
}

/// The UTF-16 form of a text.
pub open spec fn encode(s: Seq<char>) -> Seq<u16>
    decreases s.len(),
{
    if s.len() == 0 {
        Seq::empty()
    } else {
        encode(s.drop_last()) + units(s.last())
    }
}

/// The form in which a text is handed to the subsystem: its UTF-16 units and
/// a terminating null.
pub open spec fn wide(s: Seq<char>) -> Seq<u16> {
    encode(s).push(0u16)
}

/// The character that a surrogate pair stands for.
pub open spec fn pair(high: u16, low: u16) -> char {
    ((0x10000 + (high - 0xD800) * 0x400 + (low - 0xDC00)) as u32) as char
}

/// The text of a run of UTF-16 units. A surrogate that has no partner
/// becomes the replacement character; nothing is dropped.
pub open spec fn decode(w: Seq<u16>) -> Seq<char>
    decreases w.len(),
{
    if w.len() == 0 {
        Seq::empty()
    } else if is_high(w[0]) && w.len() >= 2 && is_low(w[1]) {
        seq![pair(w[0], w[1])] + decode(w.skip(2))
    } else if is_high(w[0]) || is_low(w[0]) {
        seq![replacement()] + decode(w.skip(1))
    } else {
        seq![(w[0] as u32) as char] + decode(w.skip(1))
    }
}

/// Encoding grows by the units of the character that is added.
pub proof fn lemma_encode_push(s: Seq<char>, c: char)
    ensures
        encode(s.push(c)) == encode(s) + units(c),
{
    assert(s.push(c).drop_last() == s);
}

/// The wide form of a text: its UTF-16 units and a terminating null.
pub fn to_wide(text: &str) -> (w: Vec<u16>)
    ensures
        w@ == wide(text@),
{
    let mut w: Vec<u16> = Vec::new();
    for c in it: text.chars()
        invariant
            it.seq() == text@,
            w@ == encode(text@.take(it.index())),
    {
        proof {
            let done = text@.take(it.index());
            assert(text@.take(it.index() + 1) == done.push(c));
            lemma_encode_push(done, c);
        }
        let v: u32 = c as u32;
        if v < 0x10000 {
            w.push(v as u16);
        } else {
            let rest: u32 = v - 0x10000;
            w.push((0xD800 + rest / 0x400) as u16);
            w.push((0xDC00 + rest % 0x400) as u16);
        }
        assert(w@ =~= encode(text@.take(it.index())) + units(c));
    }
    assert(text@.take(text@.len() as int) == text@);
    w.push(0u16);
    w
}

/// A single character encodes to its units.
pub proof fn lemma_encode_one(c: char)
    ensures
        encode(seq![c]) == units(c),
{
    assert(seq![c].drop_last() == Seq::<char>::empty());
    assert(seq![c].last() == c);
    assert(encode(Seq::<char>::empty()) == Seq::<u16>::empty());
    assert(encode(seq![c]) =~= units(c));
}

/// Encoding goes through concatenation.
pub proof fn lemma_encode_concat(a: Seq<char>, b: Seq<char>)
    ensures
        encode(a + b) == encode(a) + encode(b),
    decreases b.len(),
{
    if b.len() == 0 {
        assert(a + b == a);
    } else {
        lemma_encode_concat(a, b.drop_last());
        assert((a + b).drop_last() == a + b.drop_last());
        assert((a + b).last() == b.last());
    }
}

/// Text that is decoded from UTF-16 units takes up as many units again when
/// it is encoded: a decoded payload is never shorter than the units it was
/// read from.
pub proof fn lemma_decode_keeps_length(w: Seq<u16>)
    ensures
        encode(decode(w)).len() == w.len(),
    decreases w.len(),
{
    if w.len() == 0 {
    } else {
        let (head, rest) = if is_high(w[0]) && w.len() >= 2 && is_low(w[1]) {
            (pair(w[0], w[1]), w.skip(2))
        } else if is_high(w[0]) || is_low(w[0]) {
            (replacement(), w.skip(1))
        } else {
            ((w[0] as u32) as char, w.skip(1))
        };
        lemma_decode_keeps_length(rest);
        lemma_encode_concat(seq![head], decode(rest));
        lemma_encode_one(head);
        assert(replacement() as u32 == 0xFFFD);
    }
}

/// The units of one character, followed by anything, decode to that
/// character and what the rest decodes to.
pub proof fn lemma_decode_units(c: char, rest: Seq<u16>)
    ensures
        decode(units(c) + rest) == seq![c] + decode(rest),
{
    let v = c as u32;
    let w = units(c) + rest;
    vstd::utf8::char_is_scalar(c);
    vstd::utf8::char_u32_cast(c, v);
    if v < 0x10000 {
        assert(w[0] == v as u16);
        assert(w.skip(1) =~= rest);
    } else {
        let x = (v - 0x10000) as int;
        assert(w[0] == (0xD800 + x / 0x400) as u16);
        assert(w[1] == (0xDC00 + x % 0x400) as u16);
        assert(0x10000 + (w[0] - 0xD800) * 0x400 + (w[1] - 0xDC00) == v);
        assert(w.skip(2) =~= rest);
    }
}

/// Text survives the way through its wide form: what is encoded decodes to
/// the same text.
pub proof fn lemma_decode_encode(s: Seq<char>)
    ensures
        decode(encode(s)) == s,
    decreases s.len(),
{
    if s.len() > 0 {
        let c = s[0];
        let rest = s.skip(1);
        assert(s == seq![c] + rest);
        lemma_encode_concat(seq![c], rest);
        lemma_encode_one(c);
        lemma_decode_units(c, encode(rest));
        lemma_decode_encode(rest);
    }
}

/// `char::from_u32` of std: the character with the given scalar value, or
/// nothing where the number is a surrogate or lies above U+10FFFF.
#[verifier::external_body]
fn char_from_u32(v: u32) -> (c: Option<char>)
    ensures
        c is Some <==> (v < 0xD800 || 0xE000 <= v <= 0x10FFFF),
        c matches Some(x) ==> x as u32 == v,
{
    char::from_u32(v)
}

/// `String::push` of std: the character is added at the end of the text.
#[verifier::external_body]
fn push_char(out: &mut String, c: char)
    ensures
        final(out)@ == old(out)@.push(c),
{
    out.push(c)
}

/// The text of a run of UTF-16 units as the subsystem hands it back.
pub fn from_wide(w: &Vec<u16>) -> (text: String)
    ensures
        text@ == decode(w@),
{
    let mut text = String::new();
    let mut i: usize = 0;
    assert(w@.skip(0) == w@);
    assert(text@ + decode(w@) =~= decode(w@));
    while i < w.len()
        invariant
            i <= w.len(),
            text@ + decode(w@.skip(i as int)) == decode(w@),
        decreases w.len() - i,
    {
        let ghost rest = w@.skip(i as int);
        let u: u16 = w[i];
        assert(rest[0] == u);
        let high: bool = 0xD800 <= u && u <= 0xDBFF;
        let low: bool = 0xDC00 <= u && u <= 0xDFFF;
        if high && i + 1 < w.len() && 0xDC00 <= w[i + 1] && w[i + 1] <= 0xDFFF {
            let l: u16 = w[i + 1];
            assert(rest[1] == l);
            let v: u32 = 0x10000 + (u as u32 - 0xD800) * 0x400 + (l as u32 - 0xDC00);
            let c = char_from_u32(v);
            match c {
                Some(x) => {
                    proof {
                        vstd::utf8::char_u32_cast(x, v);
                        assert(rest.skip(2) == w@.skip(i as int + 2));
                    }
                    push_char(&mut text, x);
                    assert(text@ + decode(w@.skip(i as int + 2)) =~= decode(w@));
                },
                None => {
                    assert(false);
                },
            }
            i = i + 2;
        } else {
            let v: u32 = if high || low {
                0xFFFD
            } else {
                u as u32
            };
            let c = char_from_u32(v);
            match c {
                Some(x) => {
                    proof {
                        vstd::utf8::char_u32_cast(x, v);
                        assert(rest.skip(1) == w@.skip(i as int + 1));
                        assert(replacement() as u32 == 0xFFFD);
                        vstd::utf8::char_u32_cast(replacement(), 0xFFFDu32);
                    }
                    push_char(&mut text, x);
                    assert(text@ + decode(w@.skip(i as int + 1)) =~= decode(w@));
                },
                None => {
                    assert(false);
                },
            }
            i = i + 1;
        }
    }
    assert(w@.skip(w@.len() as int) =~= Seq::<u16>::empty());
    assert(text@ =~= decode(w@));
    text
}

} // verus!
