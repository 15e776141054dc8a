use vstd::prelude::*;
use vstd::slice::slice_to_vec;
use vstd::utf8::{decode_utf8, valid_utf8};
use std::collections::VecDeque;
use crate::error::{Error, ErrorCode};
use crate::key::Key;
use crate::shape::Shape;
use crate::text::{from_utf8, text_eq};
use crate::value::Value;

verus! {

/// The raw name and value of each pair.
pub open spec fn pairs_view(p: Seq<(Key, Value)>) -> Seq<(Seq<u8>, Seq<u8>)> {
    p.map_values(|e: (Key, Value)| (e.0@, e.1@))
}

/// The shapes that the whole list of pairs can take on.
pub open spec fn record_accepts(s: Shape) -> bool {
    s == Shape::Struct || s == Shape::Mapping || s == Shape::Enum
}

/// The text of each field name.
pub open spec fn names_view(fields: Seq<&str>) -> Seq<Seq<char>> {
    fields.map_values(|f: &str| f@)
}

/// A name that is text and one of the fields.
pub open spec fn known_name(name: Seq<u8>, fields: Seq<Seq<char>>) -> bool {
    valid_utf8(name) && fields.contains(decode_utf8(name))
}

/// The message of a name that is none of the fields.
pub open spec fn unknown_field_message(name: Seq<char>) -> Seq<char> {
    "unknown field `"@ + name + "`"@
}

/// The error of a name that is not a known field.
pub open spec fn field_error(name: Seq<u8>, e: Error) -> bool {
    if valid_utf8(name) {
        e.code matches ErrorCode::Message(m) && m@ == unknown_field_message(decode_utf8(name))
    } else {
        e.is_unicode_error(name)
    }
}

/// Walks the pairs once, in order: each name is handed out as a field's
/// name, and its value is held until the target type asks for it.
pub struct EnvDeserializer {
    pairs: VecDeque<(Key, Value)>,
    pending: Option<Value>,
}

impl EnvDeserializer {
    /// The pairs not handed out yet.
    pub closed spec fn remaining(&self) -> Seq<(Seq<u8>, Seq<u8>)> {
        pairs_view(self.pairs@)
    }

    /// The value of the name handed out last, while it waits to be read.
    pub closed spec fn pending(&self) -> Option<Seq<u8>> {
        match self.pending {
            Some(v) => Some(v@),
            None => None,
        }
    }

    /// Starts a walk over the pairs.
    pub fn from_iter(pairs: Vec<(Key, Value)>) -> (r: Self)
        ensures
            r.remaining() == pairs_view(pairs@),
            r.pending() is None,
    {
        let mut rest = pairs;
        let mut queue: VecDeque<(Key, Value)> = VecDeque::new();
        while rest.len() > 0
            invariant
                rest@ + queue@ == pairs@,
            decreases rest.len(),
        {
            let p = rest.pop().unwrap();
            queue.push_front(p);
            assert(rest@ + queue@ =~= pairs@);
        }
        assert(queue@ =~= pairs@);
        EnvDeserializer { pairs: queue, pending: None }
    }

    /// Whether the list of pairs can be read in this shape: as a record, a
    /// map or an enum; every other shape is refused.
    pub fn accept(&self, shape: Shape) -> (r: Result<(), Error>)
        ensures
            r is Ok <==> record_accepts(shape),
            r matches Err(e) ==> e.is_unsupported(shape),
    {
        match shape {
            Shape::Struct | Shape::Mapping | Shape::Enum => Ok(()),
            _ => Err(Error::unsupported_type(shape)),
        }
    }

    /// Whether a text is one of the fields.
    fn is_field(name: &str, fields: &[&str]) -> (r: bool)
        ensures
            r == names_view(fields@).contains(name@),
    {
        let mut i: usize = 0;
        while i < fields.len()
            invariant
                i <= fields@.len(),
                forall|j: int| 0 <= j < i ==> fields@[j]@ != name@,
            decreases fields.len() - i,
        {
            if text_eq(fields[i], name) {
                assert(names_view(fields@)[i as int] == name@);
                return true;
            }
            i = i + 1;
        }
        assert(!names_view(fields@).contains(name@)) by {
            if names_view(fields@).contains(name@) {
                let j = choose|j: int| 0 <= j < names_view(fields@).len() && names_view(fields@)[j] == name@;
                assert(fields@[j]@ == name@);
            }
        }
        false
    }

    /// Refuses the pairs not handed out yet when one of their names is not
    /// among `fields`: the first such name gives the error. Nothing is
    /// handed out.
    pub fn check_fields(&self, fields: &[&str]) -> (r: Result<(), Error>)
        ensures
            r is Ok <==> forall|i: int|
                0 <= i < self.remaining().len() ==> known_name(
                    #[trigger] self.remaining()[i].0,
                    names_view(fields@),
                ),
            r matches Err(e) ==> exists|i: int|
                0 <= i < self.remaining().len() && (forall|j: int|
                    0 <= j < i ==> known_name(
                        #[trigger] self.remaining()[j].0,
                        names_view(fields@),
                    )) && !known_name(self.remaining()[i].0, names_view(fields@)) && field_error(
                    self.remaining()[i].0,
                    e,
                ),
    {
        let mut i: usize = 0;
        while i < self.pairs.len()
            invariant
                i <= self.remaining().len(),
                self.remaining().len() == self.pairs@.len(),
                forall|j: int| 0 <= j < i ==> known_name(#[trigger] self.remaining()[j].0, names_view(fields@)),
            decreases self.pairs.len() - i,
        {
            let name = self.pairs[i].0.as_bytes();
            assert(name@ == self.remaining()[i as int].0);
            match from_utf8(name) {
                Some(s) => {
                    if !Self::is_field(s, fields) {
                        let mut m = String::from_str("unknown field `");
                        m.append(s);
                        m.append("`");
                        return Err(Error::custom(m));
                    }
                },
                None => {
                    return Err(Error::invalid_unicode(slice_to_vec(name)));
                },
            }
            i = i + 1;
        }
        Ok(())
    }

    /// Hands out the next name, holding its value back; `None` once every
    /// pair has been handed out.
    pub fn next_key(&mut self) -> (r: Option<Key>)
        ensures
            old(self).remaining().len() == 0 ==> r is None && final(self).remaining()
                == old(self).remaining() && final(self).pending() == old(self).pending(),
            old(self).remaining().len() > 0 ==> {
                &&& r matches Some(k) && k@ == old(self).remaining()[0].0
                &&& final(self).pending() == Some(old(self).remaining()[0].1)
                &&& final(self).remaining() == old(self).remaining().drop_first()
            },
    {
        match self.pairs.pop_front() {
            Some(p) => {
                let (k, v) = p;
                self.pending = Some(v);
                assert(pairs_view(self.pairs@) =~= pairs_view(old(self).pairs@).drop_first());
                Some(k)
            },
            None => None,
        }
    }

    /// The value of the name handed out last; `None` where no name is
    /// waiting for its value.
    pub fn next_value(&mut self) -> (r: Option<Value>)
        ensures
            old(self).pending() is None ==> r is None,
            old(self).pending() matches Some(v) ==> r matches Some(x) && x@ == v,
            final(self).pending() is None,
            final(self).remaining() == old(self).remaining(),
    {
        self.pending.take()
    }
}

} // verus!
