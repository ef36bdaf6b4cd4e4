use wasm_react::hooks::use_state::{use_state, UseState};
use wasm_react::hooks::SlotError;

#[test]
fn state_initializes_once_across_rerenders() {
    let mut cell: UseState<i32> = UseState::new();
    use_state(&mut cell, || 7);
    assert_eq!(*cell.value(), 7);
    cell.update(|x| x + 1).unwrap();
    // The next render runs the hook again; the init thunk must not re-run.
    use_state(&mut cell, || 7);
    assert_eq!(*cell.value(), 8);
    use_state(&mut cell, || 7);
    assert_eq!(*cell.value(), 8);
}

#[test]
fn state_updates_visible_on_next_render() {
    let mut cell: UseState<i32> = UseState::new();
    use_state(&mut cell, || 0);
    assert_eq!(*cell.value(), 0);
    cell.update(|x| x + 1).unwrap();
    cell.update(|x| x + 1).unwrap();
    use_state(&mut cell, || 0);
    assert_eq!(*cell.value(), 2);
}

#[test]
fn state_update_requests_rerender() {
    let mut cell: UseState<i32> = UseState::new();
    use_state(&mut cell, || 1);
    assert!(!cell.take_rerender_request());
    cell.update(|x| x * 3).unwrap();
    assert!(cell.take_rerender_request());
    assert!(!cell.take_rerender_request());
}

#[test]
fn state_update_before_first_render_detected() {
    let mut cell: UseState<i32> = UseState::new();
    assert_eq!(cell.update(|x| x + 1), Err(SlotError::NotInitialized));
}

#[test]
fn state_update_after_unmount_detected() {
    let mut cell: UseState<i32> = UseState::new();
    use_state(&mut cell, || 5);
    cell.unmount().unwrap();
    assert_eq!(cell.update(|x| x + 1), Err(SlotError::UseAfterFree));
}

#[test]
fn state_unmount_twice_detected() {
    let mut cell: UseState<i32> = UseState::new();
    use_state(&mut cell, || 5);
    assert_eq!(cell.unmount(), Ok(()));
    assert_eq!(cell.unmount(), Err(SlotError::DoubleFree));
}

#[test]
fn state_holds_owned_values() {
    let mut cell: UseState<String> = UseState::new();
    use_state(&mut cell, || String::from("a"));
    cell.update(|mut s| {
        s.push('b');
        s
    })
    .unwrap();
    use_state(&mut cell, || String::from("a"));
    assert_eq!(cell.value().as_str(), "ab");
}

#[test]
fn full_node_lifecycle() {
    // One node with a state cell and a memo cell, driven the way the host
    // drives a real component: mount, renders with updates in between,
    // then a single teardown.
    let mut count: UseState<i32> = UseState::new();
    let mut label: wasm_react::hooks::use_memo::Memo<String, i32> =
        wasm_react::hooks::use_memo::Memo::new();

    // First render: both cells initialize.
    use_state(&mut count, || 0);
    let c = *count.value();
    wasm_react::hooks::use_memo::use_memo(
        &mut label,
        || format!("count: {}", c),
        wasm_react::hooks::use_memo::Deps::of(c),
    );
    assert_eq!(label.value().as_str(), "count: 0");

    // An event fires; the host schedules the mutation and re-renders.
    count.update(|x| x + 1).unwrap();
    assert!(count.take_rerender_request());
    use_state(&mut count, || 0);
    let c = *count.value();
    assert_eq!(c, 1);
    let recomputed = wasm_react::hooks::use_memo::use_memo(
        &mut label,
        || format!("count: {}", c),
        wasm_react::hooks::use_memo::Deps::of(c),
    );
    assert!(recomputed);
    assert_eq!(label.value().as_str(), "count: 1");

    // A render with no change in between recomputes nothing.
    use_state(&mut count, || 0);
    let c = *count.value();
    let recomputed = wasm_react::hooks::use_memo::use_memo(
        &mut label,
        || format!("count: {}", c),
        wasm_react::hooks::use_memo::Deps::of(c),
    );
    assert!(!recomputed);

    // Teardown frees each cell exactly once; stale calls are detected.
    assert_eq!(count.unmount(), Ok(()));
    assert_eq!(label.unmount(), Ok(()));
    assert_eq!(count.update(|x| x + 1), Err(SlotError::UseAfterFree));
    assert_eq!(label.unmount(), Err(SlotError::DoubleFree));
}
