//! The response envelopes and their JSON wire form.
//!
//! A response is either a success envelope `{"output":..,"result":..}` or a
//! diagnostic envelope `{"list":[..],"msg":..,"msg_colorized":..}`. The
//! string fields are escaped here, character by character, against an exact
//! specification of the escaping; already-serialized documents are spliced
//! in as raw JSON fragments.

use vstd::prelude::*;
use vstd::string::StrSliceExecFns;
use vstd::string::StringExecFns;

verus! {

/// The lower-case hexadecimal digit for a value below sixteen.
pub open spec fn hex_digit(v: nat) -> char {
    if v == 0 {
        '0'
    } else if v == 1 {
        '1'
    } else if v == 2 {
        '2'
    } else if v == 3 {
        '3'
    } else if v == 4 {
        '4'
    } else if v == 5 {
        '5'
    } else if v == 6 {
        '6'
    } else if v == 7 {
        '7'
    } else if v == 8 {
        '8'
    } else if v == 9 {
        '9'
    } else if v == 10 {
        'a'
    } else if v == 11 {
        'b'
    } else if v == 12 {
        'c'
    } else if v == 13 {
        'd'
    } else if v == 14 {
        'e'
    } else {
        'f'
    }
}

/// How one character appears inside a JSON string literal: quote, backslash
/// and the named control characters get a two-character escape, the other
/// control characters a `\u00..` escape, and everything else stands as is.
pub open spec fn escaped_char(c: char) -> Seq<char> {
    if c == '"' {
        "\\\""@
    } else if c == '\\' {
        "\\\\"@
    } else if c == '\u{8}' {
        "\\b"@
    } else if c == '\u{c}' {
        "\\f"@
    } else if c == '\n' {
        "\\n"@
    } else if c == '\r' {
        "\\r"@
    } else if c == '\t' {
        "\\t"@
    } else if (c as u32) < 0x20 {
        "\\u00"@ + seq![hex_digit((c as u32 / 16) as nat), hex_digit((c as u32 % 16) as nat)]
    } else {
        seq![c]
    }
}

/// A text with every character escaped for a JSON string literal.
pub open spec fn json_escaped(s: Seq<char>) -> Seq<char>
    decreases s.len(),
{
    if s.len() == 0 {
        Seq::empty()
    } else {
        json_escaped(s.drop_last()) + escaped_char(s.last())
    }
}

/// A text as a JSON string literal: escaped, between double quotes.
pub open spec fn quoted(s: Seq<char>) -> Seq<char> {
    "\""@ + json_escaped(s) + "\""@
}

/// Texts as a comma-separated run of JSON string literals.
pub open spec fn joined_quoted(items: Seq<Seq<char>>) -> Seq<char>
    decreases items.len(),
{
    if items.len() == 0 {
        Seq::empty()
    } else if items.len() == 1 {
        quoted(items[0])
    } else {
        joined_quoted(items.drop_last()) + ","@ + quoted(items.last())
    }
}

/// The success envelope: the script's final value and the resulting
/// document, both spliced in as already-serialized JSON.
pub open spec fn success_envelope(output_json: Seq<char>, result_json: Seq<char>) -> Seq<char> {
    "{\"output\":"@ + output_json + ",\"result\":"@ + result_json + "}"@
}

/// The diagnostic envelope: one message per diagnostic, and a full rendering
/// of all of them, plain and colorized.
pub open spec fn diagnostic_envelope(
    list: Seq<Seq<char>>,
    msg: Seq<char>,
    msg_colorized: Seq<char>,
) -> Seq<char> {
    "{\"list\":["@ + joined_quoted(list) + "],\"msg\":"@ + quoted(msg) + ",\"msg_colorized\":"@
        + quoted(msg_colorized) + "}"@
}

/// The text has the shape of a success envelope.
pub open spec fn is_success_envelope(s: Seq<char>) -> bool {
    exists|output_json: Seq<char>, result_json: Seq<char>|
        s == #[trigger] success_envelope(output_json, result_json)
}

/// The text has the shape of a diagnostic envelope.
pub open spec fn is_diagnostic_envelope(s: Seq<char>) -> bool {
    exists|list: Seq<Seq<char>>, msg: Seq<char>, msg_colorized: Seq<char>|
        s == #[trigger] diagnostic_envelope(list, msg, msg_colorized)
}

/// Escaping distributes over extending the text by one character.
proof fn lemma_json_escaped_push(s: Seq<char>, c: char)
    ensures
        json_escaped(s.push(c)) == json_escaped(s) + escaped_char(c),
{
    assert(s.push(c).drop_last() =~= s);
    assert(s.push(c).last() == c);
}

/// Relies on String::push: appends exactly the one character.
#[verifier::external_body]
fn push_char(s: &mut String, c: char)
    ensures
        final(s)@ == old(s)@.push(c),
{
    s.push(c);
}

/// Appends the lower-case hexadecimal digit of a value below sixteen.
fn push_hex_digit(out: &mut String, v: u32)
    requires
        v < 16,
    ensures
        final(out)@ == old(out)@.push(hex_digit(v as nat)),
{
    let c: char = if v == 0 {
        '0'
    } else if v == 1 {
        '1'
    } else if v == 2 {
        '2'
    } else if v == 3 {
        '3'
    } else if v == 4 {
        '4'
    } else if v == 5 {
        '5'
    } else if v == 6 {
        '6'
    } else if v == 7 {
        '7'
    } else if v == 8 {
        '8'
    } else if v == 9 {
        '9'
    } else if v == 10 {
        'a'
    } else if v == 11 {
        'b'
    } else if v == 12 {
        'c'
    } else if v == 13 {
        'd'
    } else if v == 14 {
        'e'
    } else {
        'f'
    };
    push_char(out, c);
}

/// Appends one character in its escaped form.
fn append_escaped_char(out: &mut String, c: char)
    ensures
        final(out)@ == old(out)@ + escaped_char(c),
{
    if c == '"' {
        out.append("\\\"");
    } else if c == '\\' {
        out.append("\\\\");
    } else if c == '\u{8}' {
        out.append("\\b");
    } else if c == '\u{c}' {
        out.append("\\f");
    } else if c == '\n' {
        out.append("\\n");
    } else if c == '\r' {
        out.append("\\r");
    } else if c == '\t' {
        out.append("\\t");
    } else if (c as u32) < 0x20 {
        let v = c as u32;
        out.append("\\u00");
        push_hex_digit(out, v / 16);
        push_hex_digit(out, v % 16);
        proof {
            assert(out@ =~= old(out)@ + escaped_char(c));
        }
    } else {
        push_char(out, c);
        proof {
            assert(out@ =~= old(out)@ + escaped_char(c));
        }
    }
}

/// Appends a text with every character escaped.
fn append_escaped(out: &mut String, text: &str)
    ensures
        final(out)@ == old(out)@ + json_escaped(text@),
{
    let n = text.unicode_len();
    let mut i: usize = 0;
    while i < n
        invariant
            n == text@.len(),
            i <= n,
            out@ == old(out)@ + json_escaped(text@.take(i as int)),
        decreases n - i,
    {
        let c = text.get_char(i);
        append_escaped_char(out, c);
        proof {
            lemma_json_escaped_push(text@.take(i as int), c);
            assert(text@.take(i as int).push(c) =~= text@.take(i as int + 1));
            assert(out@ =~= old(out)@ + json_escaped(text@.take(i as int + 1)));
        }
        i += 1;
    }
    proof {
        assert(text@.take(n as int) =~= text@);
    }
}

/// Appends a text as a JSON string literal.
fn append_quoted(out: &mut String, text: &str)
    ensures
        final(out)@ == old(out)@ + quoted(text@),
{
    out.append("\"");
    append_escaped(out, text);
    out.append("\"");
    proof {
        assert(out@ =~= old(out)@ + quoted(text@));
    }
}

/// The success envelope as JSON text, from the two already-serialized
/// documents.
pub fn success_text(output_json: &str, result_json: &str) -> (r: String)
    ensures
        r@ == success_envelope(output_json@, result_json@),
        is_success_envelope(r@),
{
    let mut out = String::new();
    out.append("{\"output\":");
    out.append(output_json);
    out.append(",\"result\":");
    out.append(result_json);
    out.append("}");
    proof {
        assert(out@ =~= success_envelope(output_json@, result_json@));
    }
    out
}

/// The diagnostic envelope as JSON text, from the diagnostics' messages and
/// the two renderings.
pub fn diagnostic_text(list: &Vec<String>, msg: &str, msg_colorized: &str) -> (r: String)
    ensures
        r@ == diagnostic_envelope(list.deep_view(), msg@, msg_colorized@),
        is_diagnostic_envelope(r@),
{
    let mut out = String::new();
    out.append("{\"list\":[");
    let ghost items = list.deep_view();
    let mut i: usize = 0;
    while i < list.len()
        invariant
            items == list.deep_view(),
            items.len() == list@.len(),
            forall|k: int| 0 <= k < list@.len() ==> items[k] == #[trigger] list@[k]@,
            i <= list@.len(),
            out@ == "{\"list\":["@ + joined_quoted(items.take(i as int)),
        decreases list@.len() - i,
    {
        if i > 0 {
            out.append(",");
        }
        append_quoted(&mut out, list[i].as_str());
        proof {
            assert(items.take(i as int + 1).drop_last() =~= items.take(i as int));
            assert(items.take(i as int + 1).last() == items[i as int]);
            assert(out@ =~= "{\"list\":["@ + joined_quoted(items.take(i as int + 1)));
        }
        i += 1;
    }
    proof {
        assert(items.take(list@.len() as int) =~= items);
    }
    out.append("],\"msg\":");
    append_quoted(&mut out, msg);
    out.append(",\"msg_colorized\":");
    append_quoted(&mut out, msg_colorized);
    out.append("}");
    proof {
        assert(out@ =~= diagnostic_envelope(items, msg@, msg_colorized@));
    }
    out
}

} // verus!
