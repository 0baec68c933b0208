//! Text as HTTP carries it: equality of strings, and the characters that
//! header values, tokens and route paths may hold.

use vstd::prelude::*;
use vstd::string::*;
use vstd::utf8::*;

verus! {

/// A character that the site puts into a header value: a tab or printable
/// ASCII. Header values can hold more; the site sends and compares no other.
pub open spec fn field_char(c: char) -> bool {
    c == '\t' || (' ' <= c && c <= '~')
}

/// Text of such characters alone, which can be sent as a header value.
pub open spec fn field_value(text: Seq<char>) -> bool {
    forall|i: int| 0 <= i < text.len() ==> field_char(#[trigger] text[i])
}

/// A character of an HTTP token.
pub open spec fn token_char(c: char) -> bool {
    ||| 'a' <= c && c <= 'z'
    ||| 'A' <= c && c <= 'Z'
    ||| '0' <= c && c <= '9'
    ||| c == '!' || c == '#' || c == '$' || c == '%' || c == '&' || c == '\'' || c == '*'
    ||| c == '+' || c == '-' || c == '.' || c == '^' || c == '_' || c == '`' || c == '|'
    ||| c == '~'
}

/// A token: the form of a method's name.
pub open spec fn token(text: Seq<char>) -> bool {
    &&& 1 <= text.len()
    &&& forall|i: int| 0 <= i < text.len() ==> token_char(#[trigger] text[i])
}

/// A token without capitals and of at most 65535 characters: the form in
/// which a header's name is kept.
pub open spec fn lower_token(text: Seq<char>) -> bool {
    &&& token(text)
    &&& text.len() <= 65535
    &&& forall|i: int| 0 <= i < text.len() ==> !('A' <= #[trigger] text[i] && text[i] <= 'Z')
}

/// A route path that is matched letter for letter: it starts with a slash and
/// holds none of the characters that mark a capture.
pub open spec fn plain_path(text: Seq<char>) -> bool {
    &&& 1 <= text.len()
    &&& text[0] == '/'
    &&& forall|i: int|
        0 <= i < text.len() ==> {
            let c = #[trigger] text[i];
            c != '{' && c != '}' && c != ':' && c != '*'
        }
}

/// The text of an optional string.
pub open spec fn text_of(field: Option<String>) -> Option<Seq<char>> {
    match field {
        Some(s) => Some(s@),
        None => None,
    }
}

/// The texts of a list of strings.
pub open spec fn texts(list: Seq<String>) -> Seq<Seq<char>> {
    list.map_values(|s: String| s@)
}

/// A list of strings with the same texts as `list`.
pub fn copy_texts(list: &Vec<String>) -> (copy: Vec<String>)
    ensures
        texts(copy@) == texts(list@),
{
    let mut copy: Vec<String> = Vec::new();
    let mut i: usize = 0;
    while i < list.len()
        invariant
            i <= list@.len(),
            copy@.len() == i,
            forall|k: int| 0 <= k < i ==> copy@[k]@ == list@[k]@,
        decreases list@.len() - i,
    {
        copy.push(list[i].clone());
        i += 1;
    }
    assert(texts(copy@) =~= texts(list@));
    copy
}

/// Whether two strings hold the same text.
pub fn same_text(a: &str, b: &str) -> (same: bool)
    ensures
        same == (a@ == b@),
{
    let x = a.as_bytes();
    let y = b.as_bytes();
    proof {
        encode_utf8_decode_utf8(a@);
        encode_utf8_decode_utf8(b@);
    }
    if x.len() != y.len() {
        return false;
    }
    let mut i: usize = 0;
    while i < x.len()
        invariant
            i <= x.len(),
            x.len() == y.len(),
            x@ == encode_utf8(a@),
            y@ == encode_utf8(b@),
            forall|k: int| 0 <= k < i ==> x@[k] == y@[k],
        decreases x.len() - i,
    {
        if x[i] != y[i] {
            return false;
        }
        i += 1;
    }
    assert(x@ =~= y@);
    true
}

/// Whether `text` holds nothing but tabs and printable ASCII.
pub fn is_field_value(text: &str) -> (ok: bool)
    ensures
        ok == field_value(text@),
{
    if !text.is_ascii() {
        assert(!field_value(text@)) by {
            let i = choose|i: int| 0 <= i < text@.len() && !('\0' <= #[trigger] text@[i] <= '\u{7f}');
            assert(!field_char(text@[i]));
        }
        return false;
    }
    let bytes = text.as_bytes();
    proof {
        is_ascii_spec_bytes(text);
    }
    let mut i: usize = 0;
    while i < bytes.len()
        invariant
            i <= bytes.len(),
            is_ascii(text),
            bytes@ =~= Seq::new(text@.len(), |k: int| text@[k] as u8),
            forall|k: int| 0 <= k < i ==> field_char(#[trigger] text@[k]),
        decreases bytes.len() - i,
    {
        let b = bytes[i];
        if !(b == 9 || (32 <= b && b <= 126)) {
            assert(!field_char(text@[i as int]));
            return false;
        }
        assert(field_char(text@[i as int]));
        i += 1;
    }
    true
}

} // verus!
