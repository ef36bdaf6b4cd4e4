//! Components and the identity the host uses to decide whether two renders
//! refer to the same node.
use crate::handle::Handle;
use crate::handle::HandleStore;
use crate::VNode;
use vstd::prelude::*;

verus! {

/// Implement this trait on a struct to make it renderable by the host. The
/// struct itself is the component's props.
///
/// `render` must not be called by component authors; only the host invokes
/// it, because only the host supplies the lifecycle context (which node the
/// cells read during the call belong to).
pub trait Component {
    /// The registered name, as the contracts see it.
    spec fn spec_name(&self) -> Seq<char>;

    /// The explicit key, if any, as the contracts see it.
    spec fn spec_key(&self) -> Option<Seq<char>>;

    /// The node this component renders, as the contracts see it.
    spec fn spec_render(&self) -> VNode;

    /// The stable name under which this component type is registered with
    /// the host. Two component types must not share a name.
    fn name(&self) -> (r: String)
        ensures
            r@ == self.spec_name(),
    ;

    /// An optional explicit key, overriding the name-based identity when
    /// several siblings of the same component type appear in a list.
    fn key(&self) -> (r: Option<String>)
        ensures
            r.deep_view() == self.spec_key(),
    ;

    /// The render function: a plain computation from the component's props
    /// and cells to a node description.
    fn render(&self) -> (r: VNode)
        ensures
            r == self.spec_render(),
    ;
}

/// The simplest component: an explicit registered name, an optional
/// explicit key, and a fixed line of text it renders — a static fragment
/// placed in the host's tree under an identity of its own.
#[derive(Debug, PartialEq)]
pub struct PureComponent {
    pub registered_name: String,
    pub explicit_key: Option<String>,
    pub text: String,
}

impl Component for PureComponent {
    open spec fn spec_name(&self) -> Seq<char> {
        self.registered_name@
    }

    open spec fn spec_key(&self) -> Option<Seq<char>> {
        match self.explicit_key {
            Option::None => None,
            Option::Some(k) => Some(k@),
        }
    }

    open spec fn spec_render(&self) -> VNode {
        VNode::Text(self.text)
    }

    fn name(&self) -> (r: String) {
        self.registered_name.clone()
    }

    fn key(&self) -> (r: Option<String>) {
        match &self.explicit_key {
            None => None,
            Some(k) => Some(k.clone()),
        }
    }

    fn render(&self) -> (r: VNode) {
        VNode::Text(self.text.clone())
    }
}

/// The identity the host compares when deciding whether a node from the new
/// render is the same node as one from the previous render — and therefore
/// whether its persisted slots are reused or torn down and recreated.
#[derive(Debug, PartialEq)]
pub struct NodeIdentity {
    pub component_name: String,
    pub key: Option<String>,
}

/// What it means for two identities to stand for the same node: same
/// component type and the same key, compared by value.
pub open spec fn same_identity(a: NodeIdentity, b: NodeIdentity) -> bool {
    &&& a.component_name@ == b.component_name@
    &&& match (a.key, b.key) {
        (Option::None, Option::None) => true,
        (Option::Some(x), Option::Some(y)) => x@ == y@,
        _ => false,
    }
}

/// The host's reuse decision: true exactly when the two identities stand for
/// the same node.
pub fn is_same_identity(a: &NodeIdentity, b: &NodeIdentity) -> (r: bool)
    ensures
        r == same_identity(*a, *b),
{
    let names_equal = a.component_name == b.component_name;
    let keys_equal = match (&a.key, &b.key) {
        (Option::None, Option::None) => true,
        (Option::Some(x), Option::Some(y)) => *x == *y,
        _ => false,
    };
    names_equal && keys_equal
}

/// Two sibling nodes of the same component type with distinct explicit keys
/// are never treated as the same node, so they never share a persisted
/// slot's owner — however the host orders them.
pub proof fn lemma_distinct_keys_distinct_identity(a: NodeIdentity, b: NodeIdentity)
    requires
        a.key is Some,
        b.key is Some,
        a.key->0@ != b.key->0@,
    ensures
        !same_identity(a, b),
        !same_identity(b, a),
{
}

/// Builds the component node the host places in its tree: exactly the
/// given registered name, optional key, and instance reference.
pub fn component_node(component_name: String, key: Option<String>, component_ref: Handle) -> (r:
    VNode)
    ensures
        r == (VNode::Component { identity: NodeIdentity { component_name, key }, component_ref }),
{
    VNode::Component { identity: NodeIdentity { component_name, key }, component_ref }
}

/// Wraps a renderable value as a component node. Ownership of the value
/// moves into the adapter's store for the node's mounted lifetime: the
/// returned descriptor carries a fresh handle behind which the store owns
/// exactly this component, and every other stored instance is untouched.
/// The identity is exactly the component's registered name and its optional
/// key, so two siblings of one type with distinct keys yield distinct
/// identities (see `lemma_distinct_keys_distinct_identity`).
pub fn into_vnode<C: Component>(store: &mut HandleStore<C>, component: C) -> (r: VNode)
    ensures
        r matches VNode::Component { identity, component_ref }
            && identity.component_name@ == component.spec_name()
            && identity.key.deep_view() == component.spec_key()
            && !old(store).live(component_ref)
            && final(store).live(component_ref)
            && final(store).value_of(component_ref) == component
            && (forall|g: Handle| g != component_ref ==> final(store).live(g) == old(store).live(g))
            && (forall|g: Handle|
                g != component_ref && old(store).live(g)
                    ==> final(store).value_of(g) == old(store).value_of(g)),
{
    let component_name = component.name();
    let key = component.key();
    let component_ref = store.allocate(component);
    component_node(component_name, key, component_ref)
}

} // verus!
