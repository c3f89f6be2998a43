//! What a command writes: in text mode the lines for the cache hits and the
//! result, in JSON mode an envelope `{"meta": {"cached": [...]}, "data": ...}`
//! laid out as `serde_json::to_string_pretty` lays it out.

use vstd::prelude::*;

use colored::Colorize;

use crate::commands::CacheHits;
use crate::error::AppError;
use crate::text::{hex_char, joined, push_char, str_chars, string_views};
use vstd::utf8::encode_utf8;

verus! {

broadcast use vstd::string::group_string_axioms;

// ---------------------------------------------------------------------------
// Terminal styles
// ---------------------------------------------------------------------------

/// The escape sequence that ends a style.
pub open spec fn reset_seq() -> Seq<char> {
    seq!['\u{1b}', '[', '0', 'm']
}

/// The escape sequence that starts the style with SGR parameters `code`.
pub open spec fn style_seq(code: Seq<char>) -> Seq<char> {
    seq!['\u{1b}', '['] + code + seq!['m']
}

/// `s` with `p` put back after every reset sequence in it, so that a style
/// goes on after a nested one ends (colored's `escape_inner_reset_sequences`).
pub open spec fn after_resets(s: Seq<char>, p: Seq<char>) -> Seq<char>
    decreases s.len(),
{
    if s.len() == 0 {
        Seq::empty()
    } else if s.len() >= 4 && s.take(4) == reset_seq() {
        reset_seq() + p + after_resets(s.skip(4), p)
    } else {
        seq![s[0]] + after_resets(s.skip(1), p)
    }
}

/// `s` in the style with SGR parameters `code`, as colored writes it.
pub open spec fn styled(code: Seq<char>, s: Seq<char>) -> Seq<char> {
    style_seq(code) + after_resets(s, style_seq(code)) + reset_seq()
}

/// `s` styled when `on`, plain otherwise.
pub open spec fn painted(code: Seq<char>, s: Seq<char>, on: bool) -> Seq<char> {
    if on {
        styled(code, s)
    } else {
        s
    }
}

/// SGR parameters of `dimmed()`.
pub open spec fn dim_code() -> Seq<char> {
    seq!['2']
}

/// SGR parameters of `green().bold()`.
pub open spec fn green_bold_code() -> Seq<char> {
    seq!['1', ';', '3', '2']
}

/// `s.dimmed().to_string()` from the `colored` crate. Whether colors are used
/// depends on the environment (`CLICOLOR`, `NO_COLOR`, `CLICOLOR_FORCE`, a
/// terminal on stdout), so the claim is: the text as it is, or wrapped in
/// `ESC[2m` ... `ESC[0m` with the style re-applied after each reset sequence
/// inside it.
#[verifier::external_body]
fn dimmed(s: &str) -> (r: String)
    ensures
        r@ == s@ || r@ == styled(dim_code(), s@),
{
    s.dimmed().to_string()
}

/// `s.green().bold().to_string()` from the `colored` crate: the text as it
/// is, or styled with `ESC[1;32m` as `styled` says, depending on the environment.
#[verifier::external_body]
fn green_bold(s: &str) -> (r: String)
    ensures
        r@ == s@ || r@ == styled(green_bold_code(), s@),
{
    s.green().bold().to_string()
}

/// SGR parameters of `yellow()`.
pub open spec fn yellow_code() -> Seq<char> {
    seq!['3', '3']
}

/// `s.yellow().to_string()` from the `colored` crate: the text as it is, or
/// styled with `ESC[33m` as `styled` says, depending on the environment.
#[verifier::external_body]
fn yellow(s: &str) -> (r: String)
    ensures
        r@ == s@ || r@ == styled(yellow_code(), s@),
{
    s.yellow().to_string()
}

/// The success mark `✓`.
pub open spec fn check_mark() -> Seq<char> {
    seq!['\u{2713}']
}

// ---------------------------------------------------------------------------
// Text mode
// ---------------------------------------------------------------------------

/// The line that reports one cache hit (without its newline).
pub open spec fn hit_line(entity: Seq<char>) -> Seq<char> {
    "(cached: "@ + entity + seq![')']
}

/// One line per cache hit, each dimmed where `colors` says so.
pub open spec fn hits_text(entities: Seq<Seq<char>>, colors: Seq<bool>) -> Seq<char>
    decreases entities.len(),
{
    if entities.len() == 0 {
        Seq::empty()
    } else {
        hits_text(entities.drop_last(), colors.drop_last()) + painted(
            dim_code(),
            hit_line(entities.last()),
            colors.last(),
        ) + seq!['\n']
    }
}

/// Builds the lines of the cache hits.
fn hits_string(hits: &CacheHits) -> (r: (String, Ghost<Seq<bool>>))
    ensures
        r.1@.len() == hits@.len(),
        r.0@ == hits_text(hits@, r.1@),
{
    let entities = hits.entities();
    let ghost ents = hits@;
    let mut out = String::new();
    let ghost mut colors: Seq<bool> = Seq::empty();
    let mut i: usize = 0;
    while i < entities.len()
        invariant
            i <= entities.len(),
            string_views(entities@) == ents,
            ents == hits@,
            colors.len() == i,
            out@ == hits_text(ents.take(i as int), colors),
        decreases entities.len() - i,
    {
        let mut line = "(cached: ".to_string();
        line.append(entities[i].as_str());
        push_char(&mut line, ')');
        let painted_line = dimmed(line.as_str());
        out.append(painted_line.as_str());
        push_char(&mut out, '\n');
        proof {
            let e = ents[i as int];
            assert(e == entities@[i as int]@);
            assert(line@ =~= hit_line(e));
            let on = painted_line@ != line@;
            let c2 = colors.push(on);
            let t = ents.take(i + 1);
            assert(t.drop_last() =~= ents.take(i as int));
            assert(c2.drop_last() =~= colors);
            assert(out@ =~= hits_text(t, c2));
            colors = c2;
        }
        i = i + 1;
    }
    assert(ents.take(entities.len() as int) =~= ents);
    (out, Ghost(colors))
}

/// Appends the text of `s` to the byte buffer `w`, encoded in UTF-8.
fn write_text(w: &mut Vec<u8>, s: &String)
    ensures
        final(w)@ == old(w)@ + encode_utf8(s@),
{
    let bytes = s.as_str().as_bytes();
    w.extend_from_slice(bytes);
    assert(w@ =~= old(w)@ + bytes@);
}

/// Writes one line per cache hit: `(cached: <entity>)`, dimmed on a terminal
/// that takes colors.
pub fn write_cache_hits_text(w: &mut Vec<u8>, hits: &CacheHits) -> (r: Result<(), AppError>)
    ensures
        r is Ok,
        exists|colors: Seq<bool>|
            colors.len() == hits@.len() && final(w)@ == old(w)@ + encode_utf8(
                #[trigger] hits_text(hits@, colors),
            ),
{
    let (text, Ghost(colors)) = hits_string(hits);
    write_text(w, &text);
    assert(final(w)@ == old(w)@ + encode_utf8(hits_text(hits@, colors)));
    Ok(())
}

// ---------------------------------------------------------------------------
// JSON mode
// ---------------------------------------------------------------------------

/// How serde_json writes one character inside a string literal.
pub open spec fn json_escape_char(c: char) -> Seq<char> {
    if c == '"' {
        seq!['\\', '"']
    } else if c == '\\' {
        seq!['\\', '\\']
    } else if c == '\u{8}' {
        seq!['\\', 'b']
    } else if c == '\u{c}' {
        seq!['\\', 'f']
    } else if c == '\n' {
        seq!['\\', 'n']
    } else if c == '\r' {
        seq!['\\', 'r']
    } else if c == '\t' {
        seq!['\\', 't']
    } else if (c as u32) < 0x20 {
        seq!['\\', 'u', '0', '0', hex_char((c as u32 / 16) as nat), hex_char((c as u32 % 16) as nat)]
    } else {
        seq![c]
    }
}

/// The escaped characters of a string.
pub open spec fn json_escape(s: Seq<char>) -> Seq<char>
    decreases s.len(),
{
    if s.len() == 0 {
        Seq::empty()
    } else {
        json_escape(s.drop_last()) + json_escape_char(s.last())
    }
}

/// A JSON string literal as serde_json writes it.
pub open spec fn json_quote(s: Seq<char>) -> Seq<char> {
    seq!['"'] + json_escape(s) + seq!['"']
}

/// `serde_json::to_string(s)` for a string: its JSON literal. What the crate's
/// serializer writes for a string (its escape table in `ser.rs`) is claimed
/// as `json_quote`.
#[verifier::external_body]
fn json_string(s: &str) -> (r: String)
    ensures
        r@ == json_quote(s@),
{
    match serde_json::to_string(s) {
        Ok(j) => j,
        Err(_) => String::new(),
    }
}

/// The value of `meta.cached`: `[]`, or one quoted name per line.
pub open spec fn cached_array(c: Seq<Seq<char>>) -> Seq<char> {
    if c.len() == 0 {
        seq!['[', ']']
    } else {
        seq!['[', '\n'] + joined(c.map_values(|e: Seq<char>| "      "@ + json_quote(e)), ",\n"@)
            + "\n    ]"@
    }
}

/// A pretty-printed value moved one level deeper: two more spaces after each newline.
pub open spec fn indent_nested(d: Seq<char>) -> Seq<char>
    decreases d.len(),
{
    if d.len() == 0 {
        Seq::empty()
    } else {
        indent_nested(d.drop_last()) + if d.last() == '\n' {
            seq!['\n', ' ', ' ']
        } else {
            seq![d.last()]
        }
    }
}

/// The pretty JSON of the envelope around `data` (given as its own pretty JSON).
pub open spec fn envelope_text(cached: Seq<Seq<char>>, data: Seq<char>) -> Seq<char> {
    "{\n  \"meta\": {\n    \"cached\": "@ + cached_array(cached) + "\n  },\n  \"data\": "@
        + indent_nested(data) + "\n}"@
}

/// The `meta` part of the envelope.
#[derive(Debug)]
pub struct JsonMeta {
    pub cached: Vec<String>,
}

/// The envelope of a JSON answer: its `meta`, and its `data` as pretty JSON.
#[derive(Debug)]
pub struct JsonEnvelope {
    pub meta: JsonMeta,
    pub data_json: String,
}

/// The envelope for `data_json` with the hits of the command.
pub fn make_envelope(data_json: String, hits: &CacheHits) -> (e: JsonEnvelope)
    ensures
        string_views(e.meta.cached@) == hits@,
        e.data_json == data_json,
{
    let src = hits.entities();
    let mut cached: Vec<String> = Vec::new();
    let mut i: usize = 0;
    while i < src.len()
        invariant
            i <= src.len(),
            cached@.len() == i,
            string_views(cached@) == string_views(src@).take(i as int),
        decreases src.len() - i,
    {
        let ghost prev = cached@;
        let item = src[i].clone();
        cached.push(item);
        proof {
            assert(cached@ == prev.push(item));
            assert(item@ == src@[i as int]@);
            assert forall|j: int| 0 <= j < i + 1 implies #[trigger] string_views(cached@)[j]
                == string_views(src@).take(i + 1)[j] by {
                if j < i {
                    assert(string_views(cached@)[j] == string_views(prev)[j]);
                }
            }
        }
        i = i + 1;
        assert(string_views(cached@) =~= string_views(src@).take(i as int));
    }
    assert(string_views(src@).take(src.len() as int) =~= string_views(src@));
    JsonEnvelope { meta: JsonMeta { cached }, data_json }
}

fn push_indented(out: &mut String, d: &str)
    ensures
        final(out)@ == old(out)@ + indent_nested(d@),
{
    let cs = str_chars(d);
    let mut i: usize = 0;
    while i < cs.len()
        invariant
            i <= cs.len(),
            cs@ == d@,
            out@ == old(out)@ + indent_nested(cs@.take(i as int)),
        decreases cs.len() - i,
    {
        let c = cs[i];
        if c == '\n' {
            push_char(out, '\n');
            push_char(out, ' ');
            push_char(out, ' ');
        } else {
            push_char(out, c);
        }
        proof {
            let t = cs@.take(i + 1);
            assert(t.drop_last() =~= cs@.take(i as int));
        }
        i = i + 1;
        assert(out@ =~= old(out)@ + indent_nested(cs@.take(i as int)));
    }
    assert(cs@.take(cs.len() as int) =~= cs@);
}

impl JsonEnvelope {
    /// The envelope as `serde_json::to_string_pretty` writes it.
    pub fn to_json_pretty(&self) -> (s: String)
        ensures
            s@ == envelope_text(string_views(self.meta.cached@), self.data_json@),
    {
        let mut s = "{\n  \"meta\": {\n    \"cached\": ".to_string();
        let c = &self.meta.cached;
        let ghost cv = string_views(c@);
        let ghost items = cv.map_values(|e: Seq<char>| "      "@ + json_quote(e));
        if c.len() == 0 {
            push_char(&mut s, '[');
            push_char(&mut s, ']');
        } else {
            push_char(&mut s, '[');
            push_char(&mut s, '\n');
            let ghost base = s@;
            let mut i: usize = 0;
            while i < c.len()
                invariant
                    i <= c.len(),
                    cv == string_views(c@),
                    items == cv.map_values(|e: Seq<char>| "      "@ + json_quote(e)),
                    s@ == base + joined(items.take(i as int), ",\n"@),
                decreases c.len() - i,
            {
                if i > 0 {
                    s.append(",\n");
                }
                s.append("      ");
                let q = json_string(c[i].as_str());
                s.append(q.as_str());
                proof {
                    let t = items.take(i + 1);
                    assert(t.drop_last() =~= items.take(i as int));
                    assert(t.last() == "      "@ + json_quote(c@[i as int]@));
                    if i == 0 {
                        assert(items.take(0) =~= Seq::<Seq<char>>::empty());
                    }
                    assert(s@ =~= base + joined(t, ",\n"@));
                }
                i = i + 1;
            }
            assert(items.take(c.len() as int) =~= items);
            s.append("\n    ]");
        }
        s.append("\n  },\n  \"data\": ");
        push_indented(&mut s, self.data_json.as_str());
        s.append("\n}");
        assert(s@ =~= envelope_text(cv, self.data_json@));
        s
    }
}

/// `writeln!(w, "{}", serde_json::to_string_pretty(&envelope)?)`.
fn write_json(w: &mut Vec<u8>, data_json: String, hits: &CacheHits) -> (r: Result<(), AppError>)
    ensures
        r is Ok,
        final(w)@ == old(w)@ + encode_utf8(envelope_text(hits@, data_json@) + seq!['\n']),
{
    let ghost d = data_json@;
    let env = make_envelope(data_json, hits);
    let mut s = env.to_json_pretty();
    assert(s@ == envelope_text(hits@, d));
    push_char(&mut s, '\n');
    assert(s@ == envelope_text(hits@, d) + seq!['\n']);
    write_text(w, &s);
    assert(w@ == old(w)@ + encode_utf8(envelope_text(hits@, d) + seq!['\n']));
    Ok(())
}

// ---------------------------------------------------------------------------
// The answers of the commands
// ---------------------------------------------------------------------------

/// The text-mode answer: the hit lines, then `text`.
pub open spec fn text_answer(hits: Seq<Seq<char>>, colors: Seq<bool>, text: Seq<char>) -> Seq<
    char,
> {
    hits_text(hits, colors) + text
}

/// `✓ <message>` then a newline, the mark green and bold where `on`.
pub open spec fn success_line(message: Seq<char>, on: bool) -> Seq<char> {
    painted(green_bold_code(), check_mark(), on) + seq![' '] + message + seq!['\n']
}

/// Writes the hits and then `text`, choosing a style for each part.
fn write_text_answer(w: &mut Vec<u8>, hits: &CacheHits, text: &String) -> (colors: Ghost<Seq<bool>>)
    ensures
        colors@.len() == hits@.len() && final(w)@ == old(w)@ + encode_utf8(
            text_answer(hits@, colors@, text@),
        ),
{
    let (mut out, Ghost(colors)) = hits_string(hits);
    out.append(text.as_str());
    write_text(w, &out);
    Ghost(colors)
}

/// The success line for `message`, with the mark styled by the terminal.
fn success_string(message: &str) -> (r: (String, Ghost<bool>))
    ensures
        r.0@ == success_line(message@, r.1@),
{
    let mark = green_bold("\u{2713}");
    proof {
        reveal_strlit("\u{2713}");
        assert("\u{2713}"@ =~= check_mark());
    }
    let ghost on = mark@ != check_mark();
    let mut s = mark;
    push_char(&mut s, ' ');
    s.append(message);
    push_char(&mut s, '\n');
    assert(s@ =~= success_line(message@, on));
    (s, Ghost(on))
}

/// Writes a single result: its pretty JSON inside the envelope, or the hit
/// lines and its text on a line.
pub fn print_result(
    w: &mut Vec<u8>,
    value_text: &str,
    value_json: String,
    json: bool,
    hits: &CacheHits,
) -> (r: Result<(), AppError>)
    ensures
        r is Ok,
        json ==> final(w)@ == old(w)@ + encode_utf8(
            envelope_text(hits@, value_json@) + seq!['\n'],
        ),
        !json ==> exists|colors: Seq<bool>|
            colors.len() == hits@.len() && final(w)@ == old(w)@ + encode_utf8(
                #[trigger] text_answer(hits@, colors, value_text@ + seq!['\n']),
            ),
{
    if json {
        write_json(w, value_json, hits)
    } else {
        let mut t = value_text.to_string();
        push_char(&mut t, '\n');
        let Ghost(colors) = write_text_answer(w, hits, &t);
        assert(text_answer(hits@, colors, value_text@ + seq!['\n']) == text_answer(hits@, colors, t@));
        Ok(())
    }
}

/// Each item on a line of its own.
pub open spec fn lines_text(items: Seq<Seq<char>>) -> Seq<char>
    decreases items.len(),
{
    if items.len() == 0 {
        Seq::empty()
    } else {
        lines_text(items.drop_last()) + items.last() + seq!['\n']
    }
}

/// Writes a list: its pretty JSON inside the envelope, or the hit lines and
/// one line per item.
pub fn print_list(
    w: &mut Vec<u8>,
    item_texts: &Vec<String>,
    list_json: String,
    json: bool,
    hits: &CacheHits,
) -> (r: Result<(), AppError>)
    ensures
        r is Ok,
        json ==> final(w)@ == old(w)@ + encode_utf8(envelope_text(hits@, list_json@) + seq!['\n']),
        !json ==> exists|colors: Seq<bool>|
            colors.len() == hits@.len() && final(w)@ == old(w)@ + encode_utf8(
                #[trigger] text_answer(hits@, colors, lines_text(string_views(item_texts@))),
            ),
{
    if json {
        write_json(w, list_json, hits)
    } else {
        let ghost items = string_views(item_texts@);
        let mut t = String::new();
        let mut i: usize = 0;
        while i < item_texts.len()
            invariant
                i <= item_texts.len(),
                items == string_views(item_texts@),
                t@ == lines_text(items.take(i as int)),
            decreases item_texts.len() - i,
        {
            t.append(item_texts[i].as_str());
            push_char(&mut t, '\n');
            proof {
                let tk = items.take(i + 1);
                assert(tk.drop_last() =~= items.take(i as int));
            }
            i = i + 1;
            assert(t@ =~= lines_text(items.take(i as int)));
        }
        assert(items.take(item_texts.len() as int) =~= items);
        let Ghost(colors) = write_text_answer(w, hits, &t);
        assert(text_answer(hits@, colors, lines_text(items)) == text_answer(hits@, colors, t@));
        Ok(())
    }
}

/// Writes the outcome of a change: the envelope around the changed record,
/// or the hit lines, `✓ <message>` and the record's text.
pub fn print_success(
    w: &mut Vec<u8>,
    value_text: &str,
    value_json: String,
    json: bool,
    message: &str,
    hits: &CacheHits,
) -> (r: Result<(), AppError>)
    ensures
        r is Ok,
        json ==> final(w)@ == old(w)@ + encode_utf8(
            envelope_text(hits@, value_json@) + seq!['\n'],
        ),
        !json ==> exists|colors: Seq<bool>, on: bool|
            colors.len() == hits@.len() && final(w)@ == old(w)@ + encode_utf8(
                #[trigger] text_answer(
                    hits@,
                    colors,
                    success_line(message@, on) + value_text@ + seq!['\n'],
                ),
            ),
{
    if json {
        write_json(w, value_json, hits)
    } else {
        let (mut t, Ghost(on)) = success_string(message);
        t.append(value_text);
        push_char(&mut t, '\n');
        assert(t@ =~= success_line(message@, on) + value_text@ + seq!['\n']);
        let Ghost(colors) = write_text_answer(w, hits, &t);
        assert(text_answer(hits@, colors, success_line(message@, on) + value_text@ + seq!['\n'])
            == text_answer(hits@, colors, t@));
        Ok(())
    }
}

/// Writes the outcome of a deletion: the envelope with `null` data, or the
/// hit lines and `✓ <message>`.
pub fn print_deleted(w: &mut Vec<u8>, json: bool, message: &str, hits: &CacheHits) -> (r: Result<
    (),
    AppError,
>)
    ensures
        r is Ok,
        json ==> final(w)@ == old(w)@ + encode_utf8(envelope_text(hits@, "null"@) + seq!['\n']),
        !json ==> exists|colors: Seq<bool>, on: bool|
            colors.len() == hits@.len() && final(w)@ == old(w)@ + encode_utf8(
                #[trigger] text_answer(hits@, colors, success_line(message@, on)),
            ),
{
    if json {
        write_json(w, "null".to_string(), hits)
    } else {
        let (t, Ghost(on)) = success_string(message);
        let Ghost(colors) = write_text_answer(w, hits, &t);
        assert(text_answer(hits@, colors, success_line(message@, on)) == text_answer(
            hits@,
            colors,
            t@,
        ));
        Ok(())
    }
}

/// Writes an empty answer: the envelope with `null` data, or the hit lines alone.
pub fn print_null(w: &mut Vec<u8>, json: bool, hits: &CacheHits) -> (r: Result<(), AppError>)
    ensures
        r is Ok,
        json ==> final(w)@ == old(w)@ + encode_utf8(envelope_text(hits@, "null"@) + seq!['\n']),
        !json ==> exists|colors: Seq<bool>|
            colors.len() == hits@.len() && final(w)@ == old(w)@ + encode_utf8(
                #[trigger] hits_text(hits@, colors),
            ),
{
    if json {
        write_json(w, "null".to_string(), hits)
    } else {
        write_cache_hits_text(w, hits)
    }
}

/// The answer of `timer current` when no timer runs: the envelope with
/// `null` data, or `No running timer` on a line of its own (yellow on a
/// terminal), without hit lines.
pub fn print_no_timer(w: &mut Vec<u8>, json: bool, hits: &CacheHits) -> (r: Result<(), AppError>)
    ensures
        r is Ok,
        json ==> final(w)@ == old(w)@ + encode_utf8(envelope_text(hits@, "null"@) + seq!['\n']),
        !json ==> exists|on: bool|
            final(w)@ == old(w)@ + encode_utf8(
                #[trigger] painted(yellow_code(), "No running timer"@, on) + seq!['\n'],
            ),
{
    if json {
        print_null(w, json, hits)
    } else {
        let mut line = yellow("No running timer");
        let ghost on = line@ != "No running timer"@;
        push_char(&mut line, '\n');
        write_text(w, &line);
        assert(painted(yellow_code(), "No running timer"@, on) + seq!['\n'] == line@);
        Ok(())
    }
}

} // verus!
