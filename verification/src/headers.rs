//! The header model and the header projector.
//!
//! A header map is an ordered list of name/value entries; names are
//! case-insensitive and may repeat, and every occurrence is kept.  The
//! projector copies a header map onto a span, one attribute per entry,
//! under a given key prefix.  A value that is not valid UTF-8 cannot be
//! represented as a string and is skipped rather than failing the
//! request; note that a flat attribute store collapses repeated names,
//! last write wins.

use vstd::prelude::*;
use vstd::string::*;
use vstd::utf8::*;
use crate::span::SpanRecord;
use crate::text::{eq_ignore_ascii_case, spec_lower, utf8_to_string};

verus! {

/// One header entry: a name and a byte-string value.
#[derive(Debug)]
pub struct Header {
    pub name: String,
    pub value: Vec<u8>,
}

impl View for Header {
    type V = (Seq<char>, Seq<u8>);

    open spec fn view(&self) -> (Seq<char>, Seq<u8>) {
        (self.name@, self.value@)
    }
}

/// An ordered header map.  Entries keep arrival order; a name may occur
/// more than once.
#[derive(Debug)]
pub struct HeaderMap {
    entries: Vec<Header>,
}

/// The value of the first entry whose name matches, up to ASCII case.
pub open spec fn spec_find(entries: Seq<(Seq<char>, Seq<u8>)>, name: Seq<char>) -> Option<Seq<u8>>
    decreases entries.len(),
{
    if entries.len() == 0 {
        None
    } else if spec_lower(entries.first().0) == spec_lower(name) {
        Some(entries.first().1)
    } else {
        spec_find(entries.drop_first(), name)
    }
}

impl View for HeaderMap {
    type V = Seq<(Seq<char>, Seq<u8>)>;

    closed spec fn view(&self) -> Seq<(Seq<char>, Seq<u8>)> {
        self.entries@.map_values(|h: Header| h@)
    }
}

impl HeaderMap {
    /// An empty header map.
    pub fn new() -> (h: Self)
        ensures
            h@ =~= Seq::<(Seq<char>, Seq<u8>)>::empty(),
    {
        HeaderMap { entries: Vec::new() }
    }

    /// Appends one entry.
    pub fn push(&mut self, name: String, value: Vec<u8>)
        ensures
            final(self)@ =~= old(self)@.push((name@, value@)),
    {
        self.entries.push(Header { name, value });
    }

    /// How many entries the map holds.
    pub fn len(&self) -> (n: usize)
        ensures
            n == self@.len(),
    {
        self.entries.len()
    }

    /// The name of the entry at the given position.
    pub fn name_at(&self, i: usize) -> (r: &String)
        requires
            i < self@.len(),
        ensures
            r@ == self@[i as int].0,
    {
        &self.entries[i].name
    }

    /// The value of the entry at the given position.
    pub fn value_at(&self, i: usize) -> (r: &Vec<u8>)
        requires
            i < self@.len(),
        ensures
            r@ == self@[i as int].1,
    {
        &self.entries[i].value
    }

    /// The value of the first entry with the given name, compared
    /// case-insensitively.
    pub fn value_of(&self, name: &str) -> (r: Option<&Vec<u8>>)
        ensures
            match r {
                Some(v) => spec_find(self@, name@) == Some(v@),
                None => spec_find(self@, name@) is None,
            },
    {
        let mut i: usize = 0;
        proof {
            assert(self@.skip(0) =~= self@);
        }
        while i < self.entries.len()
            invariant
                i <= self@.len(),
                spec_find(self@, name@) == spec_find(self@.skip(i as int), name@),
            decreases self@.len() - i,
        {
            proof {
                assert(self@.skip(i as int).first() == self@[i as int]);
                assert(self@.skip(i as int).drop_first() =~= self@.skip(i as int + 1));
            }
            if eq_ignore_ascii_case(self.entries[i].name.as_str(), name) {
                return Some(&self.entries[i].value);
            }
            i = i + 1;
        }
        None
    }
}

/// The attributes that projecting the given entries under the given
/// prefix writes, in order: one per entry whose value is valid UTF-8,
/// with key `prefix + name` and the decoded value.
pub open spec fn projected(entries: Seq<(Seq<char>, Seq<u8>)>, prefix: Seq<char>) -> Seq<
    (Seq<char>, Seq<char>),
>
    decreases entries.len(),
{
    if entries.len() == 0 {
        Seq::empty()
    } else {
        let rest = projected(entries.drop_last(), prefix);
        if valid_utf8(entries.last().1) {
            rest.push((prefix + entries.last().0, decode_utf8(entries.last().1)))
        } else {
            rest
        }
    }
}

/// Copies a header map onto a span, one attribute per representable
/// entry, with key `prefix + name`.  An empty map is a no-op; an entry
/// whose value is not valid UTF-8 is skipped.
pub fn populate_headers(span: &mut SpanRecord, headers: &HeaderMap, prefix: &str)
    requires
        !old(span).spec_ended(),
    ensures
        final(span).attr_seq() =~= old(span).attr_seq() + projected(headers@, prefix@),
        final(span).spec_name() == old(span).spec_name(),
        final(span).spec_kind() == old(span).spec_kind(),
        !final(span).spec_ended(),
{
    let ghost orig = *span;
    let len = headers.len();
    let mut i: usize = 0;
    proof {
        assert(headers@.take(0) =~= Seq::<(Seq<char>, Seq<u8>)>::empty());
        assert(span.attr_seq() =~= orig.attr_seq() + projected(headers@.take(0), prefix@));
    }
    while i < len
        invariant
            i <= len == headers@.len(),
            !span.spec_ended(),
            span.spec_name() == orig.spec_name(),
            span.spec_kind() == orig.spec_kind(),
            span.attr_seq() =~= orig.attr_seq() + projected(headers@.take(i as int), prefix@),
        decreases len - i,
    {
        match utf8_to_string(headers.value_at(i)) {
            Some(text) => {
                let mut key = String::from_str(prefix);
                key.append(headers.name_at(i).as_str());
                span.set_attribute(key, text);
            },
            None => {},
        }
        proof {
            assert(headers@.take(i as int + 1).drop_last() =~= headers@.take(i as int));
            assert(headers@.take(i as int + 1).last() == headers@[i as int]);
        }
        i = i + 1;
    }
    proof {
        assert(headers@.take(len as int) =~= headers@);
    }
}

/// Header projection is injective per distinct header name: under one
/// prefix, two distinct names yield two distinct attribute keys.
pub proof fn lemma_projection_injective(prefix: Seq<char>, a: Seq<char>, b: Seq<char>)
    requires
        a != b,
    ensures
        prefix + a != prefix + b,
{
    if prefix + a == prefix + b {
        assert((prefix + a).len() == prefix.len() + a.len());
        assert((prefix + b).len() == prefix.len() + b.len());
        assert(a.len() == b.len());
        assert(a =~= (prefix + a).subrange(
            prefix.len() as int,
            prefix.len() as int + a.len() as int,
        ));
        assert(b =~= (prefix + b).subrange(
            prefix.len() as int,
            prefix.len() as int + b.len() as int,
        ));
        assert(false);
    }
}

/// Every projected attribute key starts with the prefix, so it is at
/// least as long as the prefix.
pub proof fn lemma_projected_key_len(entries: Seq<(Seq<char>, Seq<u8>)>, prefix: Seq<char>)
    ensures
        forall|j: int|
            0 <= j < projected(entries, prefix).len() ==> (#[trigger] projected(entries, prefix)[j]).0.len()
                >= prefix.len(),
    decreases entries.len(),
{
    if entries.len() > 0 {
        lemma_projected_key_len(entries.drop_last(), prefix);
        let rest = projected(entries.drop_last(), prefix);
        let p = projected(entries, prefix);
        if valid_utf8(entries.last().1) {
            let pushed = (prefix + entries.last().0, decode_utf8(entries.last().1));
            assert(p == rest.push(pushed));
            assert forall|j: int| 0 <= j < p.len() implies (#[trigger] p[j]).0.len()
                >= prefix.len() by {
                if j < rest.len() {
                    assert(p[j] == rest[j]);
                } else {
                    assert(p[j] == pushed);
                    assert(pushed.0.len() == prefix.len() + entries.last().0.len());
                }
            }
        }
    }
}

/// A representable entry occurs in the projection, under its prefixed
/// key, with its decoded value.
pub proof fn lemma_projected_contains(entries: Seq<(Seq<char>, Seq<u8>)>, prefix: Seq<char>, i: int)
    requires
        0 <= i < entries.len(),
        valid_utf8(entries[i].1),
    ensures
        projected(entries, prefix).contains((prefix + entries[i].0, decode_utf8(entries[i].1))),
    decreases entries.len(),
{
    let target = (prefix + entries[i].0, decode_utf8(entries[i].1));
    if i == entries.len() - 1 {
        let p = projected(entries, prefix);
        assert(p.last() == target);
        assert(p.contains(target));
    } else {
        lemma_projected_contains(entries.drop_last(), prefix, i);
        let rest = projected(entries.drop_last(), prefix);
        let idx = choose|idx: int| 0 <= idx < rest.len() && rest[idx] == target;
        assert(projected(entries, prefix)[idx] == target);
        assert(projected(entries, prefix).contains(target));
    }
}

} // verus!
