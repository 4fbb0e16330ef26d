//! Character-level helpers: quote escaping and whitespace detection.

use vstd::prelude::*;
use vstd::string::StrSliceExecFns;
use vstd::string::StringExecFns;

verus! {

/// The characters that count as whitespace when deciding whether a text
/// node contributes renderable content (the Unicode `White_Space` set).
pub open spec fn is_render_whitespace(c: char) -> bool {
    let u = c as u32;
    ||| u == 0x20
    ||| (0x09 <= u && u <= 0x0D)
    ||| u == 0x85
    ||| u == 0xA0
    ||| u == 0x1680
    ||| (0x2000 <= u && u <= 0x200A)
    ||| u == 0x2028
    ||| u == 0x2029
    ||| u == 0x202F
    ||| u == 0x205F
    ||| u == 0x3000
}

/// True when the text holds at least one non-whitespace character.
pub open spec fn has_visible_text(s: Seq<char>) -> bool {
    exists|i: int| 0 <= i < s.len() && !is_render_whitespace(s[i])
}

/// The text with every double quote preceded by a backslash and every
/// other character left as it is, from position `i` on.
pub open spec fn escaped_from(s: Seq<char>, i: int) -> Seq<char>
    decreases s.len() - i,
{
    if i < 0 || i >= s.len() {
        Seq::empty()
    } else if s[i] == '"' {
        seq!['\\', '"'] + escaped_from(s, i + 1)
    } else {
        seq![s[i]] + escaped_from(s, i + 1)
    }
}

/// The text with every double quote backslash-escaped.
pub open spec fn escaped(s: Seq<char>) -> Seq<char> {
    escaped_from(s, 0)
}

/// The inverse reading of an escaped literal: a backslash followed by a
/// double quote stands for the quote alone; everything else stands for
/// itself.
pub open spec fn unescaped(s: Seq<char>) -> Seq<char>
    decreases s.len(),
{
    if s.len() == 0 {
        Seq::empty()
    } else if s.len() >= 2 && s[0] == '\\' && s[1] == '"' {
        seq!['"'] + unescaped(s.subrange(2, s.len() as int))
    } else {
        seq![s[0]] + unescaped(s.subrange(1, s.len() as int))
    }
}

proof fn lemma_escaped_unescaped_from(s: Seq<char>, i: int)
    requires
        0 <= i <= s.len(),
    ensures
        unescaped(escaped_from(s, i)) == s.subrange(i, s.len() as int),
    decreases s.len() - i,
{
    if i == s.len() {
        assert(escaped_from(s, i) =~= Seq::<char>::empty());
        assert(s.subrange(i, s.len() as int) =~= Seq::<char>::empty());
    } else {
        lemma_escaped_unescaped_from(s, i + 1);
        let rest = escaped_from(s, i + 1);
        let t = escaped_from(s, i);
        if s[i] == '"' {
            assert(t =~= seq!['\\', '"'] + rest);
            assert(t.subrange(2, t.len() as int) =~= rest);
            assert(unescaped(t) == seq!['"'] + unescaped(rest));
            assert(seq!['"'] + s.subrange(i + 1, s.len() as int) =~= s.subrange(
                i,
                s.len() as int,
            ));
        } else {
            assert(t =~= seq![s[i]] + rest);
            if t.len() >= 2 && t[0] == '\\' && t[1] == '"' {
                assert(s[i] == '\\');
                assert(rest.len() > 0);
                assert(i + 1 < s.len());
                if s[i + 1] == '"' {
                    assert(rest[0] == '\\');
                } else {
                    assert(rest[0] == s[i + 1]);
                }
                assert(false);
            }
            assert(unescaped(t) == seq![t[0]] + unescaped(t.subrange(1, t.len() as int)));
            assert(t.subrange(1, t.len() as int) =~= rest);
            assert(seq![s[i]] + s.subrange(i + 1, s.len() as int) =~= s.subrange(
                i,
                s.len() as int,
            ));
        }
    }
}

/// Reading the escaped text back gives exactly the original, so escaping
/// protects every double quote and alters no other character.
pub proof fn lemma_escape_round_trip(s: Seq<char>)
    ensures
        unescaped(escaped(s)) == s,
{
    lemma_escaped_unescaped_from(s, 0);
    assert(s.subrange(0, s.len() as int) =~= s);
}

proof fn lemma_escape_identity_from(s: Seq<char>, i: int)
    requires
        0 <= i <= s.len(),
        !s.contains('"'),
    ensures
        escaped_from(s, i) == s.subrange(i, s.len() as int),
    decreases s.len() - i,
{
    if i == s.len() {
        assert(escaped_from(s, i) =~= Seq::<char>::empty());
        assert(s.subrange(i, s.len() as int) =~= Seq::<char>::empty());
    } else {
        lemma_escape_identity_from(s, i + 1);
        assert(s[i] != '"');
        assert(seq![s[i]] + s.subrange(i + 1, s.len() as int) =~= s.subrange(i, s.len() as int));
    }
}

/// A text that holds no double quote is emitted unchanged.
pub proof fn lemma_escape_leaves_other_text(s: Seq<char>)
    requires
        !s.contains('"'),
    ensures
        escaped(s) == s,
{
    lemma_escape_identity_from(s, 0);
    assert(s.subrange(0, s.len() as int) =~= s);
}

/// Whether this character is in the Unicode `White_Space` set.
pub fn char_is_render_whitespace(c: char) -> (r: bool)
    ensures
        r == is_render_whitespace(c),
{
    let u = c as u32;
    u == 0x20 || (0x09 <= u && u <= 0x0D) || u == 0x85 || u == 0xA0 || u == 0x1680 || (0x2000 <= u
        && u <= 0x200A) || u == 0x2028 || u == 0x2029 || u == 0x202F || u == 0x205F || u == 0x3000
}

/// Whether the text holds at least one non-whitespace character.
pub fn text_has_visible_content(s: &str) -> (r: bool)
    ensures
        r == has_visible_text(s@),
{
    let len = s.unicode_len();
    let mut i: usize = 0;
    while i < len
        invariant
            0 <= i <= len,
            len == s@.len(),
            forall|j: int| 0 <= j < i ==> is_render_whitespace(s@[j]),
        decreases len - i,
    {
        let c = s.get_char(i);
        if !char_is_render_whitespace(c) {
            return true;
        }
        i = i + 1;
    }
    false
}

/// The text with every double quote backslash-escaped, built left to right.
pub fn escape_text(s: &str) -> (r: String)
    ensures
        r@ == escaped(s@),
{
    let len = s.unicode_len();
    let mut out = String::new();
    let mut i: usize = 0;
    while i < len
        invariant
            0 <= i <= len,
            len == s@.len(),
            escaped(s@) == out@ + escaped_from(s@, i as int),
        decreases len - i,
    {
        let ghost out0 = out@;
        let c = s.get_char(i);
        if c == '"' {
            out.append("\\\"");
            proof {
                reveal_strlit("\\\"");
                assert(out@ =~= out0 + seq!['\\', '"']);
            }
        } else {
            let piece = s.substring_char(i, i + 1);
            out.append(piece);
            proof {
                assert(piece@ =~= seq![s@[i as int]]);
            }
        }
        proof {
            assert(escaped(s@) =~= out@ + escaped_from(s@, i + 1));
        }
        i = i + 1;
    }
    proof {
        assert(escaped(s@) =~= out@);
    }
    out
}

} // verus!
