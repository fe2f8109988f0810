//! The interactive API reference page, which carries the host token.

use vstd::prelude::*;

use crate::text::chars_of;

verus! {

/// Lower-case hexadecimal digits.
pub open spec fn hex_digits() -> Seq<char> {
    seq!['0', '1', '2', '3', '4', '5', '6', '7', '8', '9', 'a', 'b', 'c', 'd', 'e', 'f']
}

/// How `serde_json` writes one character inside a string literal: `"` and `\`
/// escaped with a backslash, the controls U+0008, U+0009, U+000A, U+000C, U+000D as
/// `\b \t \n \f \r`, the other characters below U+0020 as `\u00XX` in lower-case hex,
/// and every other character as itself.
pub open spec fn json_escape_char(c: char) -> Seq<char> {
    if c == '"' {
        seq!['\\', '"']
    } else if c == '\\' {
        seq!['\\', '\\']
    } else if c == '\u{8}' {
        seq!['\\', 'b']
    } else if c == '\t' {
        seq!['\\', 't']
    } else if c == '\n' {
        seq!['\\', 'n']
    } else if c == '\u{c}' {
        seq!['\\', 'f']
    } else if c == '\r' {
        seq!['\\', 'r']
    } else if (c as int) < 0x20 {
        seq!['\\', 'u', '0', '0', hex_digits()[(c as int) / 16], hex_digits()[(c as int) % 16]]
    } else {
        seq![c]
    }
}

/// The escaped characters of `s`, in order.
pub open spec fn json_escape(s: Seq<char>) -> Seq<char>
    decreases s.len(),
{
    if s.len() == 0 {
        s
    } else {
        json_escape_char(s[0]) + json_escape(s.skip(1))
    }
}

/// The JSON string literal of `s`: a quote, the escaped characters, a quote.
pub open spec fn json_string_literal(s: Seq<char>) -> Seq<char> {
    seq!['"'] + json_escape(s) + seq!['"']
}

/// Calls `serde_json::to_string` on a string, which cannot fail for a `str` (the
/// writer is a `Vec`). The contract claims the string literal that its formatter
/// writes (`format_escaped_str` with the `ESCAPE` table and `write_char_escape`).
#[verifier::external_body]
fn to_json_string(s: &str) -> (json: String)
    ensures
        json@ == json_string_literal(s@),
{
    serde_json::to_string(s).expect("a string serializes")
}

/// `text` with every occurrence of `pattern`, scanning from the left without overlap,
/// replaced by `with`. An empty pattern occurs before every character and at the end.
pub open spec fn replace_all(text: Seq<char>, pattern: Seq<char>, with: Seq<char>) -> Seq<char>
    decreases text.len(),
{
    if pattern.len() == 0 {
        if text.len() == 0 {
            with
        } else {
            with + seq![text[0]] + replace_all(text.skip(1), pattern, with)
        }
    } else if text.len() == 0 {
        text
    } else if pattern.len() <= text.len() && text.take(pattern.len() as int) == pattern {
        with + replace_all(text.skip(pattern.len() as int), pattern, with)
    } else {
        seq![text[0]] + replace_all(text.skip(1), pattern, with)
    }
}

/// The placeholder that the page template holds for the token.
pub open spec fn token_placeholder() -> Seq<char> {
    seq!['$', 't', 'o', 'k', 'e', 'n']
}

/// Whether `pattern` occurs in `text` at `at`.
fn occurs_at(text: &Vec<char>, pattern: &Vec<char>, at: usize) -> (found: bool)
    requires
        at <= text@.len(),
    ensures
        found == (at + pattern@.len() <= text@.len() && text@.subrange(
            at as int,
            at + pattern@.len(),
        ) == pattern@),
{
    if pattern.len() > text.len() - at {
        return false;
    }
    let mut k: usize = 0;
    while k < pattern.len()
        invariant
            at + pattern@.len() <= text@.len(),
            k <= pattern@.len(),
            forall|j: int| 0 <= j < k ==> text@[at + j] == pattern@[j],
        decreases pattern@.len() - k,
    {
        let n = text.len();
        assert(at + k < n);
        if text[at + k] != pattern[k] {
            assert(text@.subrange(at as int, at + pattern@.len())[k as int] == text@[at + k]);
            return false;
        }
        k = k + 1;
    }
    assert(text@.subrange(at as int, at + pattern@.len()) =~= pattern@);
    true
}

/// `text` with `with` before each character and at the end: the replacement of the
/// empty pattern.
fn insert_between_chars(text: &str, t: &Vec<char>, pattern: &str, with: &str) -> (replaced: String)
    requires
        t@ == text@,
        pattern@.len() == 0,
    ensures
        replaced@ == replace_all(text@, pattern@, with@),
{
    let mut out = String::new();
    let mut i: usize = 0;
    proof {
        assert(text@.skip(0) =~= text@);
        assert(out@ =~= Seq::<char>::empty());
    }
    while i < t.len()
        invariant
            t@ == text@,
            pattern@.len() == 0,
            i <= t@.len(),
            out@ + replace_all(text@.skip(i as int), pattern@, with@) == replace_all(
                text@,
                pattern@,
                with@,
            ),
        decreases t@.len() - i,
    {
        let ghost rest = text@.skip(i as int);
        proof {
            assert(rest.skip(1) =~= text@.skip(i + 1));
            assert(rest[0] == text@[i as int]);
        }
        out.append(with);
        out.append(text.substring_char(i, i + 1));
        proof {
            assert(text@.subrange(i as int, i + 1) =~= seq![rest[0]]);
        }
        i = i + 1;
    }
    proof {
        assert(text@.skip(i as int).len() == 0);
    }
    out.append(with);
    out
}

/// Replaces every occurrence of `pattern` in `text` by `with`, as `str::replace` does.
pub fn replace_all_in(text: &str, pattern: &str, with: &str) -> (replaced: String)
    ensures
        replaced@ == replace_all(text@, pattern@, with@),
{
    let t = chars_of(text);
    let p = chars_of(pattern);
    if p.len() == 0 {
        return insert_between_chars(text, &t, pattern, with);
    }
    let mut out = String::new();
    let mut run_start: usize = 0;
    let mut i: usize = 0;
    proof {
        assert(text@.skip(0) =~= text@);
        assert(out@ + text@.subrange(0, 0) =~= Seq::<char>::empty());
    }
    while i < t.len()
        invariant
            t@ == text@,
            p@ == pattern@,
            p@.len() > 0,
            run_start <= i <= t@.len(),
            out@ + text@.subrange(run_start as int, i as int) + replace_all(
                text@.skip(i as int),
                pattern@,
                with@,
            ) == replace_all(text@, pattern@, with@),
        decreases t@.len() - i,
    {
        let ghost rest = text@.skip(i as int);
        if occurs_at(&t, &p, i) {
            proof {
                assert(rest.take(p@.len() as int) =~= text@.subrange(i as int, i + p@.len()));
                assert(rest.skip(p@.len() as int) =~= text@.skip(i + p@.len()));
            }
            out.append(text.substring_char(run_start, i));
            out.append(with);
            i = i + p.len();
            run_start = i;
            proof {
                assert(text@.subrange(run_start as int, i as int) =~= Seq::<char>::empty());
            }
        } else {
            proof {
                if p@.len() <= rest.len() {
                    assert(rest.take(p@.len() as int) =~= text@.subrange(i as int, i + p@.len()));
                }
                assert(rest.skip(1) =~= text@.skip(i + 1));
                assert(text@.subrange(run_start as int, i + 1) =~= text@.subrange(
                    run_start as int,
                    i as int,
                ) + seq![rest[0]]);
            }
            i = i + 1;
        }
    }
    proof {
        assert(text@.skip(i as int).len() == 0);
    }
    out.append(text.substring_char(run_start, i));
    proof {
        assert(out@ =~= replace_all(text@, pattern@, with@));
    }
    out
}

/// The API reference page: `template` with every `$token` replaced by the host
/// token written as a JSON string literal.
pub fn scalar_page(template: &str, token: &str) -> (page: String)
    ensures
        page@ == replace_all(template@, token_placeholder(), json_string_literal(token@)),
{
    let json = to_json_string(token);
    let placeholder = "$token";
    proof {
        reveal_strlit("$token");
        assert(placeholder@ =~= token_placeholder());
    }
    replace_all_in(template, placeholder, json.as_str())
}

/// A character that needs no escape, anything from U+0020 up but `"` and `\`, is
/// written as itself; `"` and `\` get a backslash; a newline becomes `\n`; and the
/// literal is the escaped text between two quotes.
pub proof fn lemma_json_escapes(c: char, s: Seq<char>)
    ensures
        (c as int) >= 0x20 && c != '"' && c != '\\' ==> json_escape_char(c) == seq![c],
        json_escape_char('"') == seq!['\\', '"'],
        json_escape_char('\\') == seq!['\\', '\\'],
        json_escape_char('\n') == seq!['\\', 'n'],
        json_escape_char('\u{1}') == seq!['\\', 'u', '0', '0', '0', '1'],
        json_string_literal(s) == seq!['"'] + json_escape(s) + seq!['"'],
        json_string_literal(s).len() >= s.len() + 2,
        json_string_literal(s)[0] == '"',
{
    lemma_json_escape_len(s);
    assert(hex_digits()[0] == '0');
    assert(hex_digits()[1] == '1');
}

/// Escaping never shortens: every character gives at least itself.
proof fn lemma_json_escape_len(s: Seq<char>)
    ensures
        json_escape(s).len() >= s.len(),
    decreases s.len(),
{
    if s.len() > 0 {
        lemma_json_escape_len(s.skip(1));
    }
}

/// Text in which every character needs no escape is written as itself.
pub proof fn lemma_json_plain_text_unchanged(s: Seq<char>)
    requires
        forall|i: int| 0 <= i < s.len() ==> (#[trigger] s[i] as int) >= 0x20 && s[i] != '"'
            && s[i] != '\\',
    ensures
        json_escape(s) == s,
    decreases s.len(),
{
    if s.len() > 0 {
        assert forall|i: int| 0 <= i < s.skip(1).len() implies (#[trigger] s.skip(1)[i] as int)
            >= 0x20 && s.skip(1)[i] != '"' && s.skip(1)[i] != '\\' by {
            assert(s.skip(1)[i] == s[i + 1]);
        }
        lemma_json_plain_text_unchanged(s.skip(1));
        assert(s =~= seq![s[0]] + s.skip(1));
    }
}

/// Replacing a pattern by itself changes nothing.
pub proof fn lemma_replace_by_itself(text: Seq<char>, pattern: Seq<char>)
    requires
        pattern.len() > 0,
    ensures
        replace_all(text, pattern, pattern) == text,
    decreases text.len(),
{
    if text.len() > 0 {
        if pattern.len() <= text.len() && text.take(pattern.len() as int) == pattern {
            lemma_replace_by_itself(text.skip(pattern.len() as int), pattern);
            assert(text =~= pattern + text.skip(pattern.len() as int));
        } else {
            lemma_replace_by_itself(text.skip(1), pattern);
            assert(text =~= seq![text[0]] + text.skip(1));
        }
    }
}

/// Text in which the pattern never occurs is left as it is.
pub proof fn lemma_replace_absent(text: Seq<char>, pattern: Seq<char>, with: Seq<char>)
    requires
        pattern.len() > 0,
        forall|i: int|
            0 <= i && i + pattern.len() <= text.len() ==> #[trigger] text.subrange(
                i,
                i + pattern.len(),
            ) != pattern,
    ensures
        replace_all(text, pattern, with) == text,
    decreases text.len(),
{
    if text.len() > 0 {
        if pattern.len() <= text.len() {
            assert(text.take(pattern.len() as int) =~= text.subrange(0, pattern.len() as int));
            assert(text.subrange(0int, 0int + pattern.len()) != pattern);
        }
        let rest = text.skip(1);
        assert forall|i: int| 0 <= i && i + pattern.len() <= rest.len() implies #[trigger] rest.subrange(
            i,
            i + pattern.len(),
        ) != pattern by {
            assert(rest.subrange(i, i + pattern.len()) =~= text.subrange(i + 1, i + 1 + pattern.len()));
        }
        lemma_replace_absent(rest, pattern, with);
        assert(text =~= seq![text[0]] + rest);
    }
}

/// The pattern at the front is replaced, and the rest is replaced on its own.
pub proof fn lemma_replace_front(rest: Seq<char>, pattern: Seq<char>, with: Seq<char>)
    requires
        pattern.len() > 0,
    ensures
        replace_all(pattern + rest, pattern, with) == with + replace_all(rest, pattern, with),
{
    let text = pattern + rest;
    assert(text.take(pattern.len() as int) =~= pattern);
    assert(text.skip(pattern.len() as int) =~= rest);
}

} // verus!
