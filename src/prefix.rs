use vstd::prelude::*;
use vstd::slice::slice_to_vec;
use vstd::utf8::{decode_utf8, encode_utf8, valid_utf8};
use crate::key::Key;
use crate::record::pairs_view;
use crate::text::from_utf8;
use crate::value::Value;

verus! {

/// Whether a text begins with `prefix`.
pub open spec fn has_prefix(s: Seq<char>, prefix: Seq<char>) -> bool {
    prefix.len() <= s.len() && s.subrange(0, prefix.len() as int) == prefix
}

/// Relies on `str::strip_prefix`: the rest of `s` after `prefix`, where `s`
/// begins with it.
#[verifier::external_body]
fn strip_prefix<'a>(s: &'a str, prefix: &str) -> (r: Option<&'a str>)
    ensures
        r is Some <==> has_prefix(s@, prefix@),
        r matches Some(t) ==> t@ == s@.subrange(prefix@.len() as int, s@.len() as int),
{
    s.strip_prefix(prefix)
}

/// The name that an entry keeps: its text after `prefix`, where the name is
/// text and begins with `prefix`.
pub open spec fn stripped_name(name: Seq<u8>, prefix: Seq<char>) -> Option<Seq<u8>> {
    if valid_utf8(name) && has_prefix(decode_utf8(name), prefix) {
        Some(encode_utf8(decode_utf8(name).subrange(prefix.len() as int, decode_utf8(name).len() as int)))
    } else {
        None
    }
}

/// The entries whose name begins with `prefix`, in their order, each with
/// the prefix taken off its name.
pub open spec fn prefixed(entries: Seq<(Seq<u8>, Seq<u8>)>, prefix: Seq<char>) -> Seq<(Seq<u8>, Seq<u8>)>
    decreases entries.len(),
{
    if entries.len() == 0 {
        seq![]
    } else {
        let rest = prefixed(entries.drop_last(), prefix);
        match stripped_name(entries.last().0, prefix) {
            Some(n) => rest.push((n, entries.last().1)),
            None => rest,
        }
    }
}

/// The raw name and value of each entry.
pub open spec fn entries_view(e: Seq<(Vec<u8>, Vec<u8>)>) -> Seq<(Seq<u8>, Seq<u8>)> {
    e.map_values(|p: (Vec<u8>, Vec<u8>)| (p.0@, p.1@))
}

/// Keeps the entries whose name is text that begins with `prefix`, and
/// takes the prefix off their names; the others are left out, with no error.
pub fn strip_prefixed(entries: &Vec<(Vec<u8>, Vec<u8>)>, prefix: &str) -> (r: Vec<(Key, Value)>)
    ensures
        pairs_view(r@) == prefixed(entries_view(entries@), prefix@),
{
    let mut out: Vec<(Key, Value)> = Vec::new();
    let mut i: usize = 0;
    while i < entries.len()
        invariant
            i <= entries@.len(),
            pairs_view(out@) == prefixed(entries_view(entries@.subrange(0, i as int)), prefix@),
        decreases entries.len() - i,
    {
        let ghost before = out@;
        let name = &entries[i].0;
        let value = &entries[i].1;
        let ghost seen = entries@.subrange(0, i as int + 1);
        assert(entries_view(seen).drop_last() =~= entries_view(entries@.subrange(0, i as int)));
        assert(entries_view(seen).last() == (name@, value@));
        match from_utf8(name.as_slice()) {
            Some(s) => match strip_prefix(s, prefix) {
                Some(rest) => {
                    out.push((Key::from_text(rest), Value::new(slice_to_vec(value.as_slice()))));
                    assert(pairs_view(out@) =~= pairs_view(before).push(
                        (out@.last().0@, out@.last().1@),
                    ));
                },
                None => {},
            },
            None => {},
        }
        i = i + 1;
    }
    assert(entries@.subrange(0, i as int) =~= entries@);
    out
}

} // verus!
