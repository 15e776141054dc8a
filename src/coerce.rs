use vstd::prelude::*;
use vstd::utf8::is_ascii_chars;
use crate::text::text_eq;

verus! {

/// What `str::to_lowercase` makes of a text.
pub uninterp spec fn lower_of(s: Seq<char>) -> Seq<char>;

/// A character with an ASCII capital turned into its small letter.
pub open spec fn ascii_lower_char(c: char) -> char {
    if 'A' <= c <= 'Z' {
        ((c as u8) + 32u8) as char
    } else {
        c
    }
}

/// A text with every ASCII capital turned into its small letter.
pub open spec fn ascii_lower(s: Seq<char>) -> Seq<char> {
    s.map_values(|c: char| ascii_lower_char(c))
}

/// A text in lower case: ASCII text by its capitals A to Z, any other text
/// as `str::to_lowercase` folds it.
pub open spec fn case_folded(s: Seq<char>) -> Seq<char> {
    if is_ascii_chars(s) {
        ascii_lower(s)
    } else {
        lower_of(s)
    }
}

/// Relies on `str::to_lowercase`: the result depends on the text alone, and
/// on ASCII text only the capitals A to Z change, to a to z.
#[verifier::external_body]
fn lowercase(s: &str) -> (r: String)
    ensures
        r@ == lower_of(s@),
        is_ascii_chars(s@) ==> r@ == ascii_lower(s@),
{
    s.to_lowercase()
}

/// The words read as `true`, given in lower case.
pub open spec fn truthy(t: Seq<char>, truthy_falsy: bool) -> bool {
    t == "true"@ || (truthy_falsy && (t == "t"@ || t == "yes"@ || t == "y"@ || t == "on"@
        || t == "1"@))
}

/// The words read as `false`, given in lower case.
pub open spec fn falsy(t: Seq<char>, truthy_falsy: bool) -> bool {
    t == "false"@ || (truthy_falsy && (t == "f"@ || t == "no"@ || t == "n"@ || t == "off"@
        || t == "0"@))
}

/// The boolean that a lower-case word stands for, if any.
pub open spec fn bool_token(t: Seq<char>, truthy_falsy: bool) -> Option<bool> {
    if truthy(t, truthy_falsy) {
        Some(true)
    } else if falsy(t, truthy_falsy) {
        Some(false)
    } else {
        None
    }
}

/// Reads a word already in lower case as a boolean. With `truthy_falsy`
/// the words `t`, `yes`, `y`, `on`, `1` and `f`, `no`, `n`, `off`, `0` are
/// taken too; without it only `true` and `false`.
pub fn bool_from_lowered(t: &str, truthy_falsy: bool) -> (r: Option<bool>)
    ensures
        r == bool_token(t@, truthy_falsy),
{
    if text_eq(t, "true") {
        return Some(true);
    }
    if truthy_falsy && (text_eq(t, "t") || text_eq(t, "yes") || text_eq(t, "y") || text_eq(
        t,
        "on",
    ) || text_eq(t, "1")) {
        return Some(true);
    }
    if text_eq(t, "false") {
        return Some(false);
    }
    if truthy_falsy && (text_eq(t, "f") || text_eq(t, "no") || text_eq(t, "n") || text_eq(
        t,
        "off",
    ) || text_eq(t, "0")) {
        return Some(false);
    }
    None
}

/// Reads a text as a boolean, whatever its case.
pub fn bool_from_text(s: &str, truthy_falsy: bool) -> (r: Option<bool>)
    ensures
        r == bool_token(case_folded(s@), truthy_falsy),
{
    let l = lowercase(s);
    bool_from_lowered(l.as_str(), truthy_falsy)
}

} // verus!
