//! Properties attached to an element node, and the builder that assembles
//! them.
use vstd::prelude::*;

verus! {

/// A value an element attribute can carry. Plain values travel as they
/// are; an event handler travels as the number of a host-invokable function
/// the adapter keeps in a table, because the function value itself is
/// host-owned and opaque to this model.
#[derive(Debug, PartialEq)]
pub enum AttrValue {
    Text(String),
    Number(i64),
    Flag(bool),
    CallbackRef(u64),
}

/// The ref the host fills with the mounted element: either a host-owned
/// container or a callback it invokes, each named by the number of a
/// host-side value the adapter keeps in its table.
#[derive(Debug, PartialEq, Clone, Copy)]
pub enum RefAttr {
    Container(u64),
    Callback(u64),
}

/// The properties of one element node: an optional identity key, an
/// optional ref, and the attributes in the order they were set. When one
/// name is set twice the host keeps the value set last; `effective` is
/// that last-write-wins reading, and the contracts state it alongside the
/// raw order.
#[derive(Debug, PartialEq)]
pub struct Props {
    pub key: Option<String>,
    pub node_ref: Option<RefAttr>,
    pub attrs: Vec<(String, AttrValue)>,
}

/// The value the host ends up seeing for `name`: the last one set, if any.
pub open spec fn lookup(attrs: Seq<(String, AttrValue)>, name: Seq<char>) -> Option<AttrValue>
    decreases attrs.len(),
{
    if attrs.len() == 0 {
        None
    } else if attrs.last().0@ == name {
        Some(attrs.last().1)
    } else {
        lookup(attrs.drop_last(), name)
    }
}

impl Props {
    /// The last-write-wins reading of the attribute list.
    pub open spec fn effective(self, name: Seq<char>) -> Option<AttrValue> {
        lookup(self.attrs@, name)
    }

    /// An empty property set: no key, no ref, no attributes.
    pub fn new() -> (r: Props)
        ensures
            r.key is None,
            r.node_ref is None,
            r.attrs@ == Seq::<(String, AttrValue)>::empty(),
    {
        Props { key: None, node_ref: None, attrs: Vec::new() }
    }

    /// Appends one attribute, leaving the key, the ref and the earlier
    /// attributes as they were. The host ends up seeing `value` for
    /// `name` and its previous reading for every other name.
    pub fn insert(self, name: String, value: AttrValue) -> (r: Props)
        ensures
            r.key == self.key,
            r.node_ref == self.node_ref,
            r.attrs@ == self.attrs@.push((name, value)),
            forall|n: Seq<char>|
                #[trigger] r.effective(n) == (if n == name@ {
                    Some(value)
                } else {
                    self.effective(n)
                }),
    {
        let ghost prior = self.attrs@;
        let mut attrs = self.attrs;
        attrs.push((name, value));
        let r = Props { key: self.key, node_ref: self.node_ref, attrs };
        proof {
            assert(r.attrs@.drop_last() =~= prior);
        }
        r
    }
}

} // verus!

pub mod h;
