//! Core of a state-persistence bridge between components written in Rust and
//! an external, garbage-collected declarative UI runtime (the host).
//!
//! The host owns the component tree: it decides when a node is mounted,
//! re-rendered and unmounted, and it stores nothing of the component's state
//! but an opaque handle. Everything that must survive from one render call to
//! the next lives behind that handle, in storage this crate models and
//! verifies: persisted slots, state cells, memo cells and callback wrappers.
//!
//! The host's side of the contract (scheduling, diffing, the actual foreign
//! calls) is outside this crate; the functions here are the decisions the
//! bridge makes, stated over an explicit model of each cell's lifecycle.
use vstd::prelude::*;

verus! {

/// A declarative description of one node in the host's tree, returned by a
/// render call and diffed by the host.
#[derive(Debug, PartialEq)]
pub enum VNode {
    /// A built-in element of the host's document model, with its tag,
    /// properties and children.
    Element { tag: String, props: crate::props::Props, children: Vec<VNode> },
    /// A component node: the identity decides reuse across renders, and
    /// the reference names the adapter-owned component instance the host's
    /// render calls for this node reach.
    Component { identity: crate::component::NodeIdentity, component_ref: crate::handle::Handle },
    /// A plain text node.
    Text(String),
}

/// Builds an element node from a tag, its properties and its children.
pub fn create_element(tag: String, props: crate::props::Props, children: Vec<VNode>) -> (r: VNode)
    ensures
        r == (VNode::Element { tag, props, children }),
{
    VNode::Element { tag, props, children }
}

} // verus!

pub mod callback;
pub mod component;
pub mod handle;
pub mod hooks;
pub mod props;
