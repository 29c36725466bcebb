//! Keyboard editing of single-line text fields (shared by the tool windows).

use vstd::prelude::*;
use vstd::utf8::encode_utf8;

use crate::text::{owned, text_eq, trim, trimmed};

verus! {

/// `char::is_control`: the Unicode `Cc` category.
pub open spec fn is_control(c: char) -> bool {
    (c <= '\u{1f}') || ('\u{7f}' <= c && c <= '\u{9f}')
}

/// No character of `s` is a control character.
pub open spec fn no_controls(s: Seq<char>) -> bool {
    forall|i: int| 0 <= i < s.len() ==> !is_control(#[trigger] s[i])
}

/// Length of `s` in UTF-8 bytes (`str::len`).
pub open spec fn byte_len(s: Seq<char>) -> nat {
    encode_utf8(s).len()
}

/// What a key press did to a field.
#[derive(Debug, Clone, Copy, PartialEq, Eq, Structural)]
pub enum TextKeyOutcome {
    /// Enter or Escape: editing ends, the text stays.
    Finish,
    /// Backspace: the last character (if any) was removed.
    Deleted,
    /// The typed text was appended.
    Inserted,
    /// Nothing happened (control text, or the field would grow too long).
    Unchanged,
}

/// The effect of a key press on a field holding `text`: `key` is the key
/// name, `typed` the text it produces, `max_bytes` the longest allowed field.
pub open spec fn key_effect(
    text: Seq<char>,
    key: Seq<char>,
    typed: Option<Seq<char>>,
    max_bytes: nat,
) -> (TextKeyOutcome, Seq<char>) {
    if key == "escape"@ || key == "enter"@ {
        (TextKeyOutcome::Finish, text)
    } else if key == "backspace"@ {
        (TextKeyOutcome::Deleted, if text.len() == 0 { text } else { text.drop_last() })
    } else {
        match typed {
            Some(t) => if no_controls(t) && byte_len(text) + byte_len(t) <= max_bytes {
                (TextKeyOutcome::Inserted, text + t)
            } else {
                (TextKeyOutcome::Unchanged, text)
            },
            None => (TextKeyOutcome::Unchanged, text),
        }
    }
}

pub fn char_is_control(c: char) -> (b: bool)
    ensures
        b == is_control(c),
{
    c <= '\u{1f}' || ('\u{7f}' <= c && c <= '\u{9f}')
}

fn has_no_controls(s: &str) -> (b: bool)
    ensures
        b == no_controls(s@),
{
    let n = s.unicode_len();
    let mut i: usize = 0;
    while i < n
        invariant
            n == s@.len(),
            i <= n,
            forall|j: int| 0 <= j < i ==> !is_control(#[trigger] s@[j]),
        decreases n - i,
    {
        if char_is_control(s.get_char(i)) {
            return false;
        }
        i = i + 1;
    }
    true
}

/// Apply a key press to a text field being edited.
pub fn apply_text_key(field: &mut String, key: &str, typed: Option<&str>, max_bytes: usize) -> (r:
    TextKeyOutcome)
    ensures
        (r, final(field)@) == key_effect(
            old(field)@,
            key@,
            match typed {
                Some(t) => Some(t@),
                None => None,
            },
            max_bytes as nat,
        ),
{
    if text_eq(key, "escape") || text_eq(key, "enter") {
        return TextKeyOutcome::Finish;
    }
    if text_eq(key, "backspace") {
        let n = field.unicode_len();
        if n > 0 {
            let shorter = field.as_str().substring_char(0, n - 1).to_owned();
            *field = shorter;
        }
        return TextKeyOutcome::Deleted;
    }
    match typed {
        Some(t) => {
            if has_no_controls(t) {
                let have = field.as_str().as_bytes().len();
                let add = t.as_bytes().len();
                if have <= max_bytes && add <= max_bytes - have {
                    field.append(t);
                    return TextKeyOutcome::Inserted;
                }
            }
            TextKeyOutcome::Unchanged
        },
        None => TextKeyOutcome::Unchanged,
    }
}

/// A sender name with nothing but white space falls back to "Test Pattern".
pub fn name_or_default(name: &str) -> (r: String)
    ensures
        r@ == if trim(name@).len() == 0 {
            "Test Pattern"@
        } else {
            name@
        },
{
    let t = trimmed(name);
    if t.unicode_len() == 0 {
        owned("Test Pattern")
    } else {
        owned(name)
    }
}

} // verus!

verus! {

proof fn lemma_byte_len_concat(a: Seq<char>, b: Seq<char>)
    ensures
        byte_len(a + b) == byte_len(a) + byte_len(b),
    decreases a.len(),
{
    if a.len() > 0 {
        lemma_byte_len_concat(a.drop_first(), b);
        assert((a + b).drop_first() =~= a.drop_first() + b);
        assert((a + b)[0] == a[0]);
    } else {
        assert(a + b =~= b);
    }
}

/// Typing never makes a field longer than `max_bytes` UTF-8 bytes: a field
/// within the limit stays within it whatever key is pressed.
pub proof fn law_text_key_respects_limit(
    text: Seq<char>,
    key: Seq<char>,
    typed: Option<Seq<char>>,
    max_bytes: nat,
)
    requires
        byte_len(text) <= max_bytes,
    ensures
        byte_len(key_effect(text, key, typed, max_bytes).1) <= max_bytes,
{
    if text.len() > 0 {
        lemma_byte_len_concat(text.drop_last(), seq![text.last()]);
        assert(text.drop_last() + seq![text.last()] =~= text);
    }
    if let Some(t) = typed {
        lemma_byte_len_concat(text, t);
    }
}

} // verus!
