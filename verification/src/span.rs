//! The span model: an ordered list of key/value attributes, set only
//! before the span is ended, and an end that can happen only once.
//!
//! A span here is the record that the interceptor builds for one request;
//! the tracing backend that exports it is a collaborator outside this
//! crate.

use vstd::prelude::*;
use crate::text::str_eq;

verus! {

/// The kind of a span.  The interceptor only ever opens server spans.
#[derive(Clone, Copy, Debug, PartialEq, Eq, Structural)]
pub enum SpanKind {
    Server,
}

/// One key/value annotation attached to a span.
#[derive(Debug)]
pub struct Attribute {
    pub key: String,
    pub value: String,
}

impl View for Attribute {
    type V = (Seq<char>, Seq<char>);

    open spec fn view(&self) -> (Seq<char>, Seq<char>) {
        (self.key@, self.value@)
    }
}

/// The value of the last attribute with the given key, if any.  When a
/// flat attribute store collapses repeated keys, the last write wins;
/// this lookup documents that collapsing.
pub open spec fn lookup_last(attrs: Seq<(Seq<char>, Seq<char>)>, key: Seq<char>) -> Option<
    Seq<char>,
>
    decreases attrs.len(),
{
    if attrs.len() == 0 {
        None
    } else if attrs.last().0 == key {
        Some(attrs.last().1)
    } else {
        lookup_last(attrs.drop_last(), key)
    }
}

/// A key that no attribute carries is not found.
pub proof fn lemma_lookup_absent(attrs: Seq<(Seq<char>, Seq<char>)>, key: Seq<char>)
    requires
        forall|i: int| 0 <= i < attrs.len() ==> attrs[i].0 != key,
    ensures
        lookup_last(attrs, key) is None,
    decreases attrs.len(),
{
    if attrs.len() > 0 {
        lemma_lookup_absent(attrs.drop_last(), key);
    }
}

/// One trace segment for one request: a name, a fixed kind, ordered
/// attributes, and an ended flag.  Attributes can be set only while the
/// span is open, and it can be ended exactly once.
#[derive(Debug)]
pub struct SpanRecord {
    name: String,
    kind: SpanKind,
    attrs: Vec<Attribute>,
    ended: bool,
}

impl SpanRecord {
    /// The span's name.
    pub closed spec fn spec_name(self) -> Seq<char> {
        self.name@
    }

    /// The span's kind.
    pub closed spec fn spec_kind(self) -> SpanKind {
        self.kind
    }

    /// The attributes set so far, in order.
    pub closed spec fn attr_seq(self) -> Seq<(Seq<char>, Seq<char>)> {
        self.attrs@.map_values(|a: Attribute| a@)
    }

    /// Whether the span has been ended.
    pub closed spec fn spec_ended(self) -> bool {
        self.ended
    }

    /// The value of the last attribute with the given key, if any.
    pub open spec fn spec_attr(self, key: Seq<char>) -> Option<Seq<char>> {
        lookup_last(self.attr_seq(), key)
    }

    /// Opens a span of kind server with the given name and no attributes.
    pub fn new(name: String) -> (s: Self)
        ensures
            s.spec_name() == name@,
            s.spec_kind() == SpanKind::Server,
            s.attr_seq() =~= Seq::<(Seq<char>, Seq<char>)>::empty(),
            !s.spec_ended(),
    {
        SpanRecord { name, kind: SpanKind::Server, attrs: Vec::new(), ended: false }
    }

    /// Appends one attribute.  Only an open span can be annotated.
    pub fn set_attribute(&mut self, key: String, value: String)
        requires
            !old(self).spec_ended(),
        ensures
            final(self).attr_seq() =~= old(self).attr_seq().push((key@, value@)),
            final(self).spec_name() == old(self).spec_name(),
            final(self).spec_kind() == old(self).spec_kind(),
            !final(self).spec_ended(),
    {
        self.attrs.push(Attribute { key, value });
    }

    /// Ends the span.  A span can be ended exactly once, and never
    /// annotated afterwards.
    pub fn end(&mut self)
        requires
            !old(self).spec_ended(),
        ensures
            final(self).spec_ended(),
            final(self).attr_seq() == old(self).attr_seq(),
            final(self).spec_name() == old(self).spec_name(),
            final(self).spec_kind() == old(self).spec_kind(),
    {
        self.ended = true;
    }

    /// Whether the span has been ended.
    pub fn is_ended(&self) -> (r: bool)
        ensures
            r == self.spec_ended(),
    {
        self.ended
    }

    /// The span's name.
    pub fn name(&self) -> (r: &String)
        ensures
            r@ == self.spec_name(),
    {
        &self.name
    }

    /// How many attributes have been set.
    pub fn attr_count(&self) -> (n: usize)
        ensures
            n == self.attr_seq().len(),
    {
        self.attrs.len()
    }

    /// The attribute at the given position.
    pub fn attribute_at(&self, i: usize) -> (a: &Attribute)
        requires
            i < self.attr_seq().len(),
        ensures
            a@ == self.attr_seq()[i as int],
    {
        &self.attrs[i]
    }

    /// Looks an attribute up by key; when a key was written more than
    /// once, the last write wins.
    pub fn attribute(&self, key: &str) -> (r: Option<&String>)
        ensures
            match r {
                Some(v) => self.spec_attr(key@) == Some(v@),
                None => self.spec_attr(key@) is None,
            },
    {
        let mut i: usize = self.attrs.len();
        proof {
            assert(self.attr_seq().take(i as int) =~= self.attr_seq());
        }
        while i > 0
            invariant
                i <= self.attrs.len(),
                lookup_last(self.attr_seq(), key@) == lookup_last(
                    self.attr_seq().take(i as int),
                    key@,
                ),
            decreases i,
        {
            let idx = i - 1;
            if str_eq(key, self.attrs[idx].key.as_str()) {
                proof {
                    let taken = self.attr_seq().take(i as int);
                    assert(taken.last() == self.attr_seq()[idx as int]);
                }
                return Some(&self.attrs[idx].value);
            }
            proof {
                let taken = self.attr_seq().take(i as int);
                assert(taken.last() == self.attr_seq()[idx as int]);
                assert(taken.drop_last() =~= self.attr_seq().take(idx as int));
            }
            i = idx;
        }
        proof {
            assert(self.attr_seq().take(0).len() == 0);
        }
        None
    }
}

} // verus!
