//! The builder for element nodes.
use crate::create_element;
use crate::props::AttrValue;
use crate::props::Props;
use crate::props::RefAttr;
use crate::VNode;
use vstd::prelude::*;

verus! {

/// The builder behind element construction. Each step returns the builder
/// with exactly one piece added, so the final node is pinned down by the
/// chain of calls that produced it.
pub struct H {
    pub tag: String,
    pub props: Props,
}

impl H {
    /// Starts a builder for an element with the given tag and no properties.
    pub fn new(tag: String) -> (r: H)
        ensures
            r.tag == tag,
            r.props.key is None,
            r.props.node_ref is None,
            r.props.attrs@ == Seq::<(String, AttrValue)>::empty(),
    {
        H { tag, props: Props::new() }
    }

    /// Sets the identity key the host uses when diffing sibling lists.
    pub fn key(self, value: Option<String>) -> (r: H)
        ensures
            r.tag == self.tag,
            r.props.key == value,
            r.props.node_ref == self.props.node_ref,
            r.props.attrs == self.props.attrs,
    {
        H {
            tag: self.tag,
            props: Props { key: value, node_ref: self.props.node_ref, attrs: self.props.attrs },
        }
    }

    /// Points the host's ref at a host-owned container, named by the number
    /// of that container in the adapter's table; the host fills it with the
    /// mounted element.
    pub fn ref_container(self, container_id: u64) -> (r: H)
        ensures
            r.tag == self.tag,
            r.props.key == self.props.key,
            r.props.node_ref == Some(RefAttr::Container(container_id)),
            r.props.attrs == self.props.attrs,
    {
        H {
            tag: self.tag,
            props: Props {
                key: self.props.key,
                node_ref: Some(RefAttr::Container(container_id)),
                attrs: self.props.attrs,
            },
        }
    }

    /// Points the host's ref at a callback, named by the number of that
    /// host-invokable function in the adapter's table; the host invokes it
    /// with the mounted element, and with nothing once the element is gone.
    pub fn ref_callback(self, callback_id: u64) -> (r: H)
        ensures
            r.tag == self.tag,
            r.props.key == self.props.key,
            r.props.node_ref == Some(RefAttr::Callback(callback_id)),
            r.props.attrs == self.props.attrs,
    {
        H {
            tag: self.tag,
            props: Props {
                key: self.props.key,
                node_ref: Some(RefAttr::Callback(callback_id)),
                attrs: self.props.attrs,
            },
        }
    }

    /// Sets an attribute on the element being built; the host ends up
    /// seeing `value` for `name` and its previous reading for every other
    /// attribute.
    pub fn attr(self, name: String, value: AttrValue) -> (r: H)
        ensures
            r.tag == self.tag,
            r.props.key == self.props.key,
            r.props.node_ref == self.props.node_ref,
            r.props.attrs@ == self.props.attrs@.push((name, value)),
            forall|n: Seq<char>|
                #[trigger] r.props.effective(n) == (if n == name@ {
                    Some(value)
                } else {
                    self.props.effective(n)
                }),
    {
        H { tag: self.tag, props: self.props.insert(name, value) }
    }

    /// Sets an event-handler attribute: the host retains the function value
    /// behind `callback_id` and may invoke it any number of times until its
    /// node is discarded.
    pub fn attr_callback(self, name: String, callback_id: u64) -> (r: H)
        ensures
            r.tag == self.tag,
            r.props.key == self.props.key,
            r.props.node_ref == self.props.node_ref,
            r.props.attrs@ == self.props.attrs@.push((name, AttrValue::CallbackRef(callback_id))),
            forall|n: Seq<char>|
                #[trigger] r.props.effective(n) == (if n == name@ {
                    Some(AttrValue::CallbackRef(callback_id))
                } else {
                    self.props.effective(n)
                }),
    {
        H { tag: self.tag, props: self.props.insert(name, AttrValue::CallbackRef(callback_id)) }
    }

    /// Finishes the builder: the element node holds exactly the tag, the
    /// properties accumulated so far, and the given children.
    pub fn build(self, children: Vec<VNode>) -> (r: VNode)
        ensures
            r == (VNode::Element { tag: self.tag, props: self.props, children }),
    {
        create_element(self.tag, self.props, children)
    }
}

} // verus!
