//! Verified construction of the small JSON bodies the relay emits: string
//! escaping, string/number/boolean/null scalars, and flat objects rendered
//! from a list of key/value pairs. The specification pins the exact character
//! sequence of every body, so a contract can list a response's field set.

use vstd::prelude::*;
use crate::text::{dec_of, push_char, u64_dec};

verus! {

/// The hexadecimal digit character for `d` (meaningful for `0 <= d <= 15`).
pub open spec fn hex_digit(d: int) -> char {
    if d == 10 {
        'a'
    } else if d == 11 {
        'b'
    } else if d == 12 {
        'c'
    } else if d == 13 {
        'd'
    } else if d == 14 {
        'e'
    } else if d == 15 {
        'f'
    } else {
        crate::text::dec_digit(d)
    }
}

/// How one character appears inside a JSON string literal: quotes and
/// backslashes get a two-character escape, the common control characters get
/// their short escapes, any other control character gets a `\u00XX` escape,
/// and everything else stands as itself.
pub open spec fn escape_char(c: char) -> Seq<char> {
    if c == '"' {
        seq!['\\', '"']
    } else if c == '\\' {
        seq!['\\', '\\']
    } else if c == '\n' {
        seq!['\\', 'n']
    } else if c == '\r' {
        seq!['\\', 'r']
    } else if c == '\t' {
        seq!['\\', 't']
    } else if (c as u32) < 0x20 {
        seq!['\\', 'u', '0', '0', hex_digit((c as u32) as int / 16), hex_digit((c as u32) as int % 16)]
    } else {
        seq![c]
    }
}

/// The body of a JSON string literal: every character escaped in order.
pub open spec fn escape_seq(s: Seq<char>) -> Seq<char>
    decreases s.len(),
{
    if s.len() == 0 {
        Seq::<char>::empty()
    } else {
        escape_char(s[0]) + escape_seq(s.drop_first())
    }
}

/// Escaping distributes over appending one character at the end.
pub proof fn lemma_escape_push(s: Seq<char>, c: char)
    ensures
        escape_seq(s.push(c)) == escape_seq(s) + escape_char(c),
    decreases s.len(),
{
    if s.len() == 0 {
        assert(s.push(c)[0] == c);
        assert(s.push(c).drop_first() =~= Seq::<char>::empty());
        assert(escape_seq(s.push(c)) == escape_char(c) + escape_seq(Seq::<char>::empty()));
        assert(escape_seq(s.push(c)) =~= escape_char(c));
        assert(escape_seq(s) + escape_char(c) =~= escape_char(c));
    } else {
        assert(s.push(c)[0] == s[0]);
        assert(s.push(c).drop_first() =~= s.drop_first().push(c));
        lemma_escape_push(s.drop_first(), c);
        assert(escape_seq(s.push(c)) == escape_char(s[0]) + escape_seq(s.drop_first().push(c)));
        assert(escape_seq(s.push(c)) =~= escape_seq(s) + escape_char(c));
    }
}

/// A complete JSON string literal: a quote, the escaped text, a quote.
pub open spec fn quoted(s: Seq<char>) -> Seq<char> {
    seq!['"'] + escape_seq(s) + seq!['"']
}

/// A JSON value for an optional string: `null` when absent, a string literal
/// when present.
pub open spec fn opt_quoted(s: Option<Seq<char>>) -> Seq<char> {
    match s {
        Option::None => seq!['n', 'u', 'l', 'l'],
        Option::Some(t) => quoted(t),
    }
}

/// A JSON boolean value.
pub open spec fn bool_text(b: bool) -> Seq<char> {
    if b {
        seq!['t', 'r', 'u', 'e']
    } else {
        seq!['f', 'a', 'l', 's', 'e']
    }
}

/// One rendered object member: the key as a quoted literal (keys are plain
/// identifiers and need no escaping), a colon, then the already-rendered
/// value text.
pub open spec fn field_text(f: (Seq<char>, Seq<char>)) -> Seq<char> {
    seq!['"'] + f.0 + seq!['"', ':'] + f.1
}

/// The comma-separated members of an object, in order.
pub open spec fn fields_text(fs: Seq<(Seq<char>, Seq<char>)>) -> Seq<char>
    decreases fs.len(),
{
    if fs.len() == 0 {
        Seq::<char>::empty()
    } else if fs.len() == 1 {
        field_text(fs[0])
    } else {
        field_text(fs[0]) + seq![','] + fields_text(fs.drop_first())
    }
}

/// A flat JSON object over the given members.
pub open spec fn obj_text(fs: Seq<(Seq<char>, Seq<char>)>) -> Seq<char> {
    seq!['{'] + fields_text(fs) + seq!['}']
}

/// Member rendering distributes over appending one member at the end.
pub proof fn lemma_fields_push(fs: Seq<(Seq<char>, Seq<char>)>, f: (Seq<char>, Seq<char>))
    ensures
        fs.len() == 0 ==> fields_text(fs.push(f)) == field_text(f),
        fs.len() > 0 ==> fields_text(fs.push(f)) == fields_text(fs) + seq![','] + field_text(f),
    decreases fs.len(),
{
    if fs.len() == 0 {
        assert(fs.push(f)[0] == f);
        assert(fields_text(fs.push(f)) == field_text(f));
    } else if fs.len() == 1 {
        assert(fs.push(f)[0] == fs[0]);
        assert(fs.push(f).drop_first() =~= seq![f]);
        assert(fields_text(seq![f]) == field_text(f));
        assert(fields_text(fs.push(f)) == field_text(fs[0]) + seq![','] + fields_text(seq![f]));
        assert(fields_text(fs) == field_text(fs[0]));
        assert(fields_text(fs.push(f)) =~= fields_text(fs) + seq![','] + field_text(f));
    } else {
        assert(fs.push(f)[0] == fs[0]);
        assert(fs.push(f).drop_first() =~= fs.drop_first().push(f));
        lemma_fields_push(fs.drop_first(), f);
        assert(fields_text(fs.push(f)) == field_text(fs[0]) + seq![','] + fields_text(
            fs.drop_first().push(f),
        ));
        assert(fields_text(fs.push(f)) =~= fields_text(fs) + seq![','] + field_text(f));
    }
}

/// The view of a list of key/value `String` pairs.
pub open spec fn pairs_view(ps: Seq<(String, String)>) -> Seq<(Seq<char>, Seq<char>)> {
    ps.map_values(|p: (String, String)| (p.0@, p.1@))
}

/// Appends the escaped form of `s` to `out`.
pub fn append_escaped(out: &mut String, s: &str)
    ensures
        final(out)@ == old(out)@ + escape_seq(s@),
{
    let len = s.unicode_len();
    let mut i: usize = 0;
    while i < len
        invariant
            len == s@.len(),
            i <= len,
            out@ == old(out)@ + escape_seq(s@.subrange(0, i as int)),
        decreases len - i,
    {
        let c = s.get_char(i);
        let ghost prefix = s@.subrange(0, i as int);
        if c == '"' {
            push_char(out, '\\');
            push_char(out, '"');
        } else if c == '\\' {
            push_char(out, '\\');
            push_char(out, '\\');
        } else if c == '\n' {
            push_char(out, '\\');
            push_char(out, 'n');
        } else if c == '\r' {
            push_char(out, '\\');
            push_char(out, 'r');
        } else if c == '\t' {
            push_char(out, '\\');
            push_char(out, 't');
        } else if (c as u32) < 0x20 {
            push_char(out, '\\');
            push_char(out, 'u');
            push_char(out, '0');
            push_char(out, '0');
            push_char(out, hex_digit_char((c as u32) / 16));
            push_char(out, hex_digit_char((c as u32) % 16));
        } else {
            push_char(out, c);
        }
        proof {
            lemma_escape_push(prefix, c);
            assert(s@.subrange(0, i + 1 as int) =~= prefix.push(c));
            assert(out@ =~= old(out)@ + escape_seq(s@.subrange(0, i + 1 as int)));
        }
        i += 1;
    }
    proof {
        assert(s@.subrange(0, len as int) =~= s@);
    }
}

/// The hexadecimal digit character for a machine value below 16.
pub fn hex_digit_char(d: u32) -> (c: char)
    requires
        d < 16,
    ensures
        c == hex_digit(d as int),
{
    if d == 10 {
        'a'
    } else if d == 11 {
        'b'
    } else if d == 12 {
        'c'
    } else if d == 13 {
        'd'
    } else if d == 14 {
        'e'
    } else if d == 15 {
        'f'
    } else {
        crate::text::digit_char(d as u64)
    }
}

/// Renders `s` as a JSON string literal.
pub fn json_string(s: &str) -> (r: String)
    ensures
        r@ == quoted(s@),
{
    let mut r = String::new();
    push_char(&mut r, '"');
    append_escaped(&mut r, s);
    push_char(&mut r, '"');
    assert(r@ =~= quoted(s@));
    r
}

/// Renders an optional string as a JSON value: `null` or a string literal.
pub fn json_opt_string(s: &Option<String>) -> (r: String)
    ensures
        r@ == opt_quoted(match s {
            Option::None => Option::<Seq<char>>::None,
            Option::Some(t) => Option::Some(t@),
        }),
{
    match s {
        Option::None => {
            let mut r = String::new();
            push_char(&mut r, 'n');
            push_char(&mut r, 'u');
            push_char(&mut r, 'l');
            push_char(&mut r, 'l');
            assert(r@ =~= seq!['n', 'u', 'l', 'l']);
            r
        },
        Option::Some(t) => json_string(t.as_str()),
    }
}

/// Renders a JSON boolean.
pub fn json_bool(b: bool) -> (r: String)
    ensures
        r@ == bool_text(b),
{
    let mut r = String::new();
    if b {
        push_char(&mut r, 't');
        push_char(&mut r, 'r');
        push_char(&mut r, 'u');
        push_char(&mut r, 'e');
        assert(r@ =~= bool_text(b));
    } else {
        push_char(&mut r, 'f');
        push_char(&mut r, 'a');
        push_char(&mut r, 'l');
        push_char(&mut r, 's');
        push_char(&mut r, 'e');
        assert(r@ =~= bool_text(b));
    }
    r
}

/// Renders a JSON number from an unsigned integer.
pub fn json_u64(n: u64) -> (r: String)
    ensures
        r@ == dec_of(n as int),
{
    u64_dec(n)
}

/// Renders a flat JSON object from already-rendered members: each pair is a
/// key (a plain identifier, inserted verbatim between quotes) and a rendered
/// JSON value.
pub fn render_object(fields: &Vec<(String, String)>) -> (r: String)
    ensures
        r@ == obj_text(pairs_view(fields@)),
{
    let mut r = String::new();
    push_char(&mut r, '{');
    let mut i: usize = 0;
    while i < fields.len()
        invariant
            i <= fields@.len(),
            r@ == seq!['{'] + fields_text(pairs_view(fields@.subrange(0, i as int))),
        decreases fields@.len() - i,
    {
        let ghost prefix = pairs_view(fields@.subrange(0, i as int));
        if i > 0 {
            push_char(&mut r, ',');
        }
        push_char(&mut r, '"');
        r.append(fields[i].0.as_str());
        push_char(&mut r, '"');
        push_char(&mut r, ':');
        r.append(fields[i].1.as_str());
        proof {
            let f = (fields@[i as int].0@, fields@[i as int].1@);
            lemma_fields_push(prefix, f);
            assert(pairs_view(fields@.subrange(0, i + 1 as int)) =~= prefix.push(f));
            assert(prefix.len() == i);
            assert(r@ =~= seq!['{'] + fields_text(prefix.push(f)));
        }
        i += 1;
    }
    push_char(&mut r, '}');
    proof {
        assert(fields@.subrange(0, fields@.len() as int) =~= fields@);
        assert(r@ =~= obj_text(pairs_view(fields@)));
    }
    r
}

} // verus!
