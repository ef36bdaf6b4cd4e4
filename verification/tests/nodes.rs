use wasm_react::callback::Callback;
use wasm_react::component::{into_vnode, is_same_identity, Component, NodeIdentity, PureComponent};
use wasm_react::handle::HandleStore;
use wasm_react::props::h::H;
use wasm_react::props::{AttrValue, RefAttr};
use wasm_react::{create_element, VNode};

#[test]
fn callback_round_trip_sum() {
    let cb = Callback::new(|(a, b): (i32, i32)| a + b);
    assert_eq!(cb.invoke((2, 3)), 5);
}

#[test]
fn callback_thousand_independent_invocations() {
    let cb = Callback::new(|(a, b): (i32, i32)| a + b);
    for i in 0..1000 {
        assert_eq!(cb.invoke((i, 1)), i + 1);
    }
}

#[test]
fn callback_keeps_captured_state_alive() {
    let base = String::from("x");
    let cb = Callback::new(move |n: usize| format!("{}{}", base, n));
    assert_eq!(cb.invoke(1), "x1");
    assert_eq!(cb.invoke(2), "x2");
}

fn ident(name: &str, key: Option<&str>) -> NodeIdentity {
    NodeIdentity { component_name: name.to_string(), key: key.map(|k| k.to_string()) }
}

#[test]
fn distinct_keys_are_distinct_owners() {
    let a = ident("Counter", Some("left"));
    let b = ident("Counter", Some("right"));
    assert!(!is_same_identity(&a, &b));
    // Reordering the siblings changes nothing: the decision is symmetric.
    assert!(!is_same_identity(&b, &a));
}

#[test]
fn same_key_same_type_is_same_owner() {
    let a = ident("Counter", Some("left"));
    let b = ident("Counter", Some("left"));
    assert!(is_same_identity(&a, &b));
    let c = ident("Counter", None);
    let d = ident("Counter", None);
    assert!(is_same_identity(&c, &d));
}

#[test]
fn keyed_never_matches_unkeyed_or_other_type() {
    let a = ident("Counter", Some("left"));
    let b = ident("Counter", None);
    assert!(!is_same_identity(&a, &b));
    let c = ident("Timer", Some("left"));
    assert!(!is_same_identity(&a, &c));
}

#[test]
fn builder_assembles_element() {
    let node = H::new("div".to_string())
        .key(Some("app".to_string()))
        .attr("id".to_string(), AttrValue::Text("main".to_string()))
        .attr("hidden".to_string(), AttrValue::Flag(false))
        .build(vec![VNode::Text("hello".to_string())]);
    match node {
        VNode::Element { tag, props, children } => {
            assert_eq!(tag, "div");
            assert_eq!(props.key, Some("app".to_string()));
            assert_eq!(
                props.attrs,
                vec![
                    ("id".to_string(), AttrValue::Text("main".to_string())),
                    ("hidden".to_string(), AttrValue::Flag(false)),
                ]
            );
            assert_eq!(children, vec![VNode::Text("hello".to_string())]);
        }
        other => panic!("expected an element, got {:?}", other),
    }
}

#[test]
fn create_element_builds_exactly_what_it_was_given() {
    let props = wasm_react::props::Props::new();
    let node = create_element("span".to_string(), props, Vec::new());
    assert_eq!(
        node,
        VNode::Element {
            tag: "span".to_string(),
            props: wasm_react::props::Props::new(),
            children: Vec::new(),
        }
    );
}

fn counter(n: i32) -> PureComponent {
    PureComponent {
        registered_name: "Counter".to_string(),
        explicit_key: Some(format!("counter-{}", n)),
        text: format!("{}", n),
    }
}

#[test]
fn component_node_carries_name_key_and_instance() {
    let mut store: HandleStore<PureComponent> = HandleStore::new();
    let node = into_vnode(&mut store, counter(3));
    match node {
        VNode::Component { identity, component_ref } => {
            assert_eq!(identity.component_name, "Counter");
            assert_eq!(identity.key, Some("counter-3".to_string()));
            // Ownership moved into the store: the descriptor's reference
            // reaches exactly the wrapped instance.
            assert_eq!(*store.deref(component_ref), counter(3));
            assert_eq!(store.deref(component_ref).render(), VNode::Text("3".to_string()));
        }
        other => panic!("expected a component node, got {:?}", other),
    }
}

#[test]
fn distinctly_keyed_siblings_get_distinct_descriptors() {
    let mut store: HandleStore<PureComponent> = HandleStore::new();
    let left = into_vnode(&mut store, counter(1));
    let right = into_vnode(&mut store, counter(2));
    match (left, right) {
        (
            VNode::Component { identity: a, component_ref: ra },
            VNode::Component { identity: b, component_ref: rb },
        ) => {
            assert_eq!(a.component_name, b.component_name);
            assert!(!is_same_identity(&a, &b));
            assert!(!is_same_identity(&b, &a));
            // Each sibling owns an instance of its own.
            assert_ne!(ra, rb);
            assert_eq!(store.deref(ra).render(), VNode::Text("1".to_string()));
            assert_eq!(store.deref(rb).render(), VNode::Text("2".to_string()));
        }
        other => panic!("expected two component nodes, got {:?}", other),
    }
}

#[test]
fn render_is_a_plain_computation() {
    let c = counter(3);
    let first = c.render();
    let second = c.render();
    assert_eq!(first, second);
    assert_eq!(first, VNode::Text("3".to_string()));
}

#[test]
fn builder_callback_and_ref_attrs() {
    let node = H::new("button".to_string())
        .attr_callback("onClick".to_string(), 7)
        .ref_callback(9)
        .build(Vec::new());
    match node {
        VNode::Element { tag, props, children } => {
            assert_eq!(tag, "button");
            assert_eq!(
                props.attrs,
                vec![("onClick".to_string(), AttrValue::CallbackRef(7))]
            );
            assert_eq!(props.node_ref, Some(RefAttr::Callback(9)));
            assert!(children.is_empty());
        }
        other => panic!("expected an element, got {:?}", other),
    }
    let node = H::new("div".to_string()).ref_container(4).build(Vec::new());
    match node {
        VNode::Element { props, .. } => {
            assert_eq!(props.node_ref, Some(RefAttr::Container(4)));
        }
        other => panic!("expected an element, got {:?}", other),
    }
}

#[test]
fn repeated_attr_keeps_order_so_last_write_wins() {
    // The host applies attributes in order, so the reading it ends up with
    // for a repeated name is the value set last.
    let node = H::new("div".to_string())
        .attr("id".to_string(), AttrValue::Text("first".to_string()))
        .attr("id".to_string(), AttrValue::Text("second".to_string()))
        .build(Vec::new());
    match node {
        VNode::Element { props, .. } => {
            assert_eq!(
                props.attrs,
                vec![
                    ("id".to_string(), AttrValue::Text("first".to_string())),
                    ("id".to_string(), AttrValue::Text("second".to_string())),
                ]
            );
        }
        other => panic!("expected an element, got {:?}", other),
    }
}
