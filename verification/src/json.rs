//! JSON text of the small objects that proposals carry as function-call
//! arguments, and their Base64 form.
//!
//! Objects are written the way `serde_json` writes a `json!` object with its default
//! (sorted) map: one member per key in ascending key order, no white space, every
//! string escaped as `serde_json` escapes it. Callers hand the members in that order.
use vstd::prelude::*;

verus! {

/// Lowercase hexadecimal digit of `n < 16`.
pub open spec fn hex_digit(n: int) -> char {
    if n < 10 {
        (('0' as int) + n) as char
    } else {
        (('a' as int) + n - 10) as char
    }
}

/// How `serde_json` writes one character inside a string literal.
pub open spec fn json_escape(c: char) -> Seq<char> {
    if c == '"' {
        seq!['\\', '"']
    } else if c == '\\' {
        seq!['\\', '\\']
    } else if c == '\x08' {
        seq!['\\', 'b']
    } else if c == '\t' {
        seq!['\\', 't']
    } else if c == '\n' {
        seq!['\\', 'n']
    } else if c == '\x0C' {
        seq!['\\', 'f']
    } else if c == '\r' {
        seq!['\\', 'r']
    } else if (c as int) < 0x20 {
        seq!['\\', 'u', '0', '0', hex_digit((c as int) / 16), hex_digit((c as int) % 16)]
    } else {
        seq![c]
    }
}

/// The characters of a string literal body, escaped.
pub open spec fn json_escaped(s: Seq<char>) -> Seq<char>
    decreases s.len(),
{
    if s.len() == 0 {
        Seq::empty()
    } else {
        json_escaped(s.drop_last()) + json_escape(s.last())
    }
}

/// A JSON string literal holding `s`.
pub open spec fn json_string_literal(s: Seq<char>) -> Seq<char> {
    seq!['"'] + json_escaped(s) + seq!['"']
}

/// Whether `serde_json` writes `c` unchanged inside a string literal.
pub open spec fn json_plain_char(c: char) -> bool {
    c != '"' && c != '\\' && (c as int) >= 0x20
}

/// A string without quotes, backslashes or control characters is written as it is.
pub proof fn lemma_json_escaped_plain(s: Seq<char>)
    requires
        forall|i: int| 0 <= i < s.len() ==> json_plain_char(#[trigger] s[i]),
    ensures
        json_escaped(s) == s,
    decreases s.len(),
{
    if s.len() > 0 {
        lemma_json_escaped_plain(s.drop_last());
        assert(s.drop_last() + seq![s.last()] =~= s);
    }
}

/// Calls `serde_json::to_string` on a string slice: the JSON string literal that holds
/// it. `serde_json` writes the quotes, escapes `"` and `\` with a backslash, writes
/// U+0008, tab, line feed, U+000C and carriage return as `\b \t \n \f \r`, other
/// characters below U+0020 as `\u00` and two lowercase hex digits, and every other
/// character as it is. Serialising a `str` into the `Vec<u8>` that `to_string` writes
/// to cannot fail, so the error arm is never taken.
#[verifier::external_body]
pub(crate) fn json_quote(s: &str) -> (r: String)
    ensures
        r@ == json_string_literal(s@),
{
    match serde_json::to_string(s) {
        Ok(text) => text,
        Err(_) => String::new(),
    }
}

/// The text of one object member `"key":"value"`.
pub open spec fn json_member(key: Seq<char>, value: Seq<char>) -> Seq<char> {
    json_string_literal(key) + seq![':'] + json_string_literal(value)
}

/// Members separated by commas.
pub open spec fn json_members(fields: Seq<(Seq<char>, Seq<char>)>) -> Seq<char>
    decreases fields.len(),
{
    if fields.len() == 0 {
        Seq::empty()
    } else if fields.len() == 1 {
        json_member(fields[0].0, fields[0].1)
    } else {
        json_members(fields.drop_last()) + seq![','] + json_member(
            fields.last().0,
            fields.last().1,
        )
    }
}

/// The text of an object whose members are string-valued, in the order given.
pub open spec fn json_object_text(fields: Seq<(Seq<char>, Seq<char>)>) -> Seq<char> {
    seq!['{'] + json_members(fields) + seq!['}']
}

/// Views of the members of an object.
pub open spec fn field_views(fields: Seq<(&str, &str)>) -> Seq<(Seq<char>, Seq<char>)> {
    fields.map_values(|f: (&str, &str)| (f.0@, f.1@))
}

/// Key order of `serde_json`'s map (the order of `String`): lexicographic by character,
/// a proper prefix first.
pub open spec fn key_less(a: Seq<char>, b: Seq<char>) -> bool
    decreases a.len(),
{
    if a.len() == 0 {
        b.len() > 0
    } else if b.len() == 0 {
        false
    } else if a[0] != b[0] {
        (a[0] as u32) < (b[0] as u32)
    } else {
        key_less(a.drop_first(), b.drop_first())
    }
}

/// Members in strictly ascending key order: sorted, and no key twice.
pub open spec fn keys_ascending(fields: Seq<(Seq<char>, Seq<char>)>) -> bool {
    forall|i: int| 0 <= i < fields.len() - 1 ==> key_less(#[trigger] fields[i].0, fields[i + 1].0)
}

/// Writes an object of string members as JSON text.
pub fn json_object(fields: &Vec<(&str, &str)>) -> (r: String)
    requires
        keys_ascending(field_views(fields@)),
    ensures
        r@ == json_object_text(field_views(fields@)),
{
    let mut out = String::from_str("{");
    let n = fields.len();
    let ghost fv = field_views(fields@);
    assert(fv.take(0) =~= Seq::<(Seq<char>, Seq<char>)>::empty());
    proof {
        reveal_strlit("{");
        assert(out@ =~= seq!['{'] + json_members(fv.take(0)));
    }
    for i in 0..n
        invariant
            n == fields@.len(),
            fv == field_views(fields@),
            out@ == seq!['{'] + json_members(fv.take(i as int)),
    {
        let (k, v) = fields[i];
        if i > 0 {
            out.append(",");
        }
        let qk = json_quote(k);
        let qv = json_quote(v);
        out.append(qk.as_str());
        out.append(":");
        out.append(qv.as_str());
        proof {
            let t = fv.take(i + 1);
            assert(t.drop_last() =~= fv.take(i as int));
            assert(t.last() == (k@, v@));
            reveal_strlit(",");
            reveal_strlit(":");
            assert(out@ =~= seq!['{'] + json_members(t));
        }
    }
    out.append("}");
    proof {
        reveal_strlit("}");
        assert(fv.take(n as int) =~= fv);
        assert(out@ =~= json_object_text(fv));
    }
    out
}

/// The character of a 6-bit value in the standard Base64 alphabet (RFC 4648):
/// `A`-`Z`, `a`-`z`, `0`-`9`, `+`, `/`.
pub open spec fn base64_digit(n: int) -> char {
    if n < 26 {
        (('A' as int) + n) as char
    } else if n < 52 {
        (('a' as int) + n - 26) as char
    } else if n < 62 {
        (('0' as int) + n - 52) as char
    } else if n == 62 {
        '+'
    } else {
        '/'
    }
}

/// Standard Base64 with `=` padding: each group of three bytes becomes four digits of
/// six bits each, most significant first; a last group of one or two bytes is padded
/// with zero bits and completed with `=`.
pub open spec fn base64_standard(bytes: Seq<u8>) -> Seq<char>
    decreases bytes.len(),
{
    if bytes.len() == 0 {
        Seq::empty()
    } else if bytes.len() == 1 {
        let b0 = bytes[0] as int;
        seq![base64_digit(b0 / 4), base64_digit((b0 % 4) * 16), '=', '=']
    } else if bytes.len() == 2 {
        let b0 = bytes[0] as int;
        let b1 = bytes[1] as int;
        seq![
            base64_digit(b0 / 4),
            base64_digit((b0 % 4) * 16 + b1 / 16),
            base64_digit((b1 % 16) * 4),
            '=',
        ]
    } else {
        let b0 = bytes[0] as int;
        let b1 = bytes[1] as int;
        let b2 = bytes[2] as int;
        seq![
            base64_digit(b0 / 4),
            base64_digit((b0 % 4) * 16 + b1 / 16),
            base64_digit((b1 % 16) * 4 + b2 / 64),
            base64_digit(b2 % 64),
        ] + base64_standard(bytes.skip(3))
    }
}

/// Calls `base64::Engine::encode` with `general_purpose::STANDARD`: standard Base64 with
/// padding, as `base64_standard` spells it out. (A slice never exceeds `isize::MAX`
/// bytes, so the length computation in `encode` does not overflow and its `expect` is
/// not reached.)
#[verifier::external_body]
fn base64_encode(bytes: &[u8]) -> (r: String)
    ensures
        r@ == base64_standard(bytes@),
{
    base64::Engine::encode(&base64::engine::general_purpose::STANDARD, bytes)
}

/// The 6-bit value of a character of the standard Base64 alphabet.
pub open spec fn base64_value(c: char) -> int {
    if 'A' <= c && c <= 'Z' {
        (c as int) - ('A' as int)
    } else if 'a' <= c && c <= 'z' {
        (c as int) - ('a' as int) + 26
    } else if '0' <= c && c <= '9' {
        (c as int) - ('0' as int) + 52
    } else if c == '+' {
        62
    } else {
        63
    }
}

/// Decoding of padded standard Base64: each group of four characters gives three
/// bytes, or one or two where the group ends in `==` or `=`.
pub open spec fn base64_decode(text: Seq<char>) -> Seq<u8>
    decreases text.len(),
{
    if text.len() < 4 {
        Seq::empty()
    } else {
        let d0 = base64_value(text[0]);
        let d1 = base64_value(text[1]);
        let d2 = base64_value(text[2]);
        let d3 = base64_value(text[3]);
        let b0 = (d0 * 4 + d1 / 16) as u8;
        if text[2] == '=' {
            seq![b0]
        } else if text[3] == '=' {
            seq![b0, ((d1 % 16) * 16 + d2 / 4) as u8]
        } else {
            seq![b0, ((d1 % 16) * 16 + d2 / 4) as u8, ((d2 % 4) * 64 + d3) as u8]
                + base64_decode(text.skip(4))
        }
    }
}

proof fn lemma_base64_digit_value(n: int)
    requires
        0 <= n < 64,
    ensures
        base64_value(base64_digit(n)) == n,
        base64_digit(n) != '=',
{
}

proof fn lemma_base64_group(b0: int, b1: int, b2: int)
    requires
        0 <= b0 < 256,
        0 <= b1 < 256,
        0 <= b2 < 256,
    ensures
        0 <= b0 / 4 < 64,
        0 <= (b0 % 4) * 16 + b1 / 16 < 64,
        0 <= (b1 % 16) * 4 + b2 / 64 < 64,
        0 <= b2 % 64 < 64,
        (b0 / 4) * 4 + ((b0 % 4) * 16 + b1 / 16) / 16 == b0,
        (((b0 % 4) * 16 + b1 / 16) % 16) * 16 + ((b1 % 16) * 4 + b2 / 64) / 4 == b1,
        (((b1 % 16) * 4 + b2 / 64) % 4) * 64 + b2 % 64 == b2,
{
    assert(((b0 % 4) * 16 + b1 / 16) / 16 == b0 % 4 && ((b0 % 4) * 16 + b1 / 16) % 16 == b1 / 16)
        by (nonlinear_arith)
        requires
            0 <= b0 < 256,
            0 <= b1 < 256,
    ;
    assert(((b1 % 16) * 4 + b2 / 64) / 4 == b1 % 16 && ((b1 % 16) * 4 + b2 / 64) % 4 == b2 / 64)
        by (nonlinear_arith)
        requires
            0 <= b1 < 256,
            0 <= b2 < 256,
    ;
    assert((b0 / 4) * 4 + b0 % 4 == b0) by (nonlinear_arith);
    assert((b1 / 16) * 16 + b1 % 16 == b1) by (nonlinear_arith);
    assert((b2 / 64) * 64 + b2 % 64 == b2) by (nonlinear_arith);
}

/// Standard Base64 loses nothing: decoding the text of some bytes gives the bytes back.
pub proof fn lemma_base64_round_trip(bytes: Seq<u8>)
    ensures
        base64_decode(base64_standard(bytes)) == bytes,
    decreases bytes.len(),
{
    let t = base64_standard(bytes);
    if bytes.len() == 0 {
    } else if bytes.len() == 1 {
        let b0 = bytes[0] as int;
        lemma_base64_group(b0, 0, 0);
        lemma_base64_digit_value(b0 / 4);
        lemma_base64_digit_value((b0 % 4) * 16);
        assert(base64_decode(t) =~= bytes);
    } else if bytes.len() == 2 {
        let b0 = bytes[0] as int;
        let b1 = bytes[1] as int;
        lemma_base64_group(b0, b1, 0);
        lemma_base64_digit_value(b0 / 4);
        lemma_base64_digit_value((b0 % 4) * 16 + b1 / 16);
        lemma_base64_digit_value((b1 % 16) * 4);
        assert(base64_decode(t) =~= bytes);
    } else {
        let b0 = bytes[0] as int;
        let b1 = bytes[1] as int;
        let b2 = bytes[2] as int;
        lemma_base64_group(b0, b1, b2);
        lemma_base64_digit_value(b0 / 4);
        lemma_base64_digit_value((b0 % 4) * 16 + b1 / 16);
        lemma_base64_digit_value((b1 % 16) * 4 + b2 / 64);
        lemma_base64_digit_value(b2 % 64);
        let rest = bytes.skip(3);
        lemma_base64_round_trip(rest);
        assert(t.skip(4) =~= base64_standard(rest));
        assert(seq![bytes[0], bytes[1], bytes[2]] + rest =~= bytes);
        assert(base64_decode(t) =~= bytes);
    }
}

/// Base64 of the UTF-8 bytes of a text.
pub open spec fn base64_of_text(text: Seq<char>) -> Seq<char> {
    base64_standard(vstd::utf8::encode_utf8(text))
}

/// The arguments a function call carries decode back to the UTF-8 bytes of their text.
pub proof fn lemma_base64_of_text_decodes(text: Seq<char>)
    ensures
        base64_decode(base64_of_text(text)) == vstd::utf8::encode_utf8(text),
{
    lemma_base64_round_trip(vstd::utf8::encode_utf8(text));
}

/// Base64 of the JSON text of a string-valued object: the encoded arguments of a
/// function call.
pub fn json_to_base64(fields: &Vec<(&str, &str)>) -> (r: String)
    requires
        keys_ascending(field_views(fields@)),
    ensures
        r@ == base64_of_text(json_object_text(field_views(fields@))),
{
    let text = json_object(fields);
    base64_encode(text.as_str().as_bytes())
}

/// Base64 of a JSON text that is already written.
pub fn text_to_base64(text: &str) -> (r: String)
    ensures
        r@ == base64_of_text(text@),
{
    base64_encode(text.as_bytes())
}

} // verus!
