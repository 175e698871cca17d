use context_menu::id::Id;
use context_menu::menu::ContextMenu;
use context_menu::state::ContextMenuState;
use iced::Point;

fn owners(state: &ContextMenuState, ids: &[Id]) -> usize {
    ids.iter()
        .filter(|id| ContextMenu::new((*id).clone(), state.active()).is_active())
        .count()
}

#[test]
fn new_state_is_closed() {
    let state = ContextMenuState::new();
    assert!(state.active().is_none());
}

#[test]
fn open_then_current_then_close() {
    let mut state = ContextMenuState::new();
    let a = Id::new("a");
    let p = Point::new(3.0, 4.0);
    state.on_right_click(a.clone(), p);
    let (id, at) = state.active().unwrap();
    assert!(id == a);
    assert_eq!(at, p);
    state.on_close();
    assert!(state.active().is_none());
}

#[test]
fn opening_same_id_twice_toggles_closed() {
    let mut state = ContextMenuState::new();
    state.on_right_click(Id::new("a"), Point::new(1.0, 1.0));
    state.on_right_click(Id::new("a"), Point::new(9.0, 9.0));
    assert!(state.active().is_none());
}

#[test]
fn opening_other_id_switches() {
    let mut state = ContextMenuState::new();
    let a = Id::new("a");
    let b = Id::new("b");
    state.on_right_click(a.clone(), Point::new(1.0, 2.0));
    state.on_right_click(b.clone(), Point::new(5.0, 6.0));
    let (id, at) = state.active().unwrap();
    assert!(id == b);
    assert_eq!(at, Point::new(5.0, 6.0));
    assert!(ContextMenu::new(a, state.active()).overlay().is_none());
    let o = ContextMenu::new(b, state.active()).overlay().unwrap();
    assert_eq!(o.anchor, Point::new(5.0, 6.0));
}

#[test]
fn third_open_after_toggle_reopens() {
    let mut state = ContextMenuState::new();
    let a = Id::new("a");
    state.on_right_click(a.clone(), Point::new(1.0, 1.0));
    state.on_right_click(a.clone(), Point::new(2.0, 2.0));
    state.on_right_click(a.clone(), Point::new(3.0, 3.0));
    let (id, at) = state.active().unwrap();
    assert!(id == a);
    assert_eq!(at, Point::new(3.0, 3.0));
}

#[test]
fn close_clears_whichever_is_open() {
    let mut state = ContextMenuState::new();
    state.on_right_click(Id::new("b"), Point::new(1.0, 1.0));
    state.on_close();
    assert!(state.active().is_none());
    state.on_close();
    assert!(state.active().is_none());
}

#[test]
fn at_most_one_owner_over_a_run_of_requests() {
    let ids = vec![Id::new("a"), Id::new("b"), Id::unique(), Id::unique()];
    let mut state = ContextMenuState::new();
    let order = [0usize, 1, 1, 2, 3, 0, 0, 2, 1, 3];
    for (k, &i) in order.iter().enumerate() {
        state.on_right_click(ids[i].clone(), Point::new(k as f32, 0.0));
        assert!(owners(&state, &ids) <= 1);
        if let Some((open, _)) = state.active() {
            assert!(open == ids[i]);
            assert_eq!(owners(&state, &ids), 1);
        }
    }
    state.on_close();
    assert_eq!(owners(&state, &ids), 0);
}

#[test]
fn distinct_names_never_both_own() {
    let mut state = ContextMenuState::new();
    state.on_right_click(Id::new("context_menu_1"), Point::new(0.0, 0.0));
    let snapshot = state.active();
    let m1 = ContextMenu::new(Id::new("context_menu_1"), snapshot.clone());
    let m2 = ContextMenu::new(Id::new("context_menu_2"), snapshot);
    assert!(m1.is_active());
    assert!(!m2.is_active());
    assert!(m1.overlay().is_some());
    assert!(m2.overlay().is_none());
}

#[test]
fn no_overlay_without_record() {
    let m = ContextMenu::new(Id::new("a"), None);
    assert!(!m.is_active());
    assert!(m.overlay().is_none());
}

#[test]
fn named_ids_compare_by_name() {
    assert!(Id::new("x") == Id::new("x"));
    assert!(Id::new("x") != Id::new("y"));
}

#[test]
fn unique_ids_differ() {
    let a = Id::unique();
    let b = Id::unique();
    assert!(a != b);
    assert!(a == a.clone());
    assert!(a != Id::new("a"));
}

#[test]
fn shared_identifier_is_claimed_by_both() {
    let mut state = ContextMenuState::new();
    state.on_right_click(Id::new("same"), Point::new(2.0, 2.0));
    let m1 = ContextMenu::new(Id::new("same"), state.active());
    let m2 = ContextMenu::new(Id::new("same"), state.active());
    assert!(m1.is_active() && m2.is_active());
}

#[test]
fn named_id_converts_to_iced_widget_id() {
    let w = Id::new("context_menu_1").widget_id();
    assert_eq!(w, iced::advanced::widget::Id::new("context_menu_1"));
    assert_ne!(w, iced::advanced::widget::Id::new("context_menu_2"));
}

#[test]
fn fresh_id_converts_to_its_own_widget_id() {
    let a = Id::unique();
    let b = Id::unique();
    assert_eq!(a.widget_id(), a.clone().widget_id());
    assert_ne!(a.widget_id(), b.widget_id());
    assert_ne!(a.widget_id(), Id::new("a").widget_id());
}
