use a11y_state::{
    build_announcement, build_button, button_bounds, Bounds, NodeKey, RequestedAction, Role,
    State, UiEvent, INITIAL_FOCUS, WINDOW_TITLE,
};

fn keys(u: &a11y_state::TreeUpdate) -> Vec<NodeKey> {
    u.nodes.iter().map(|p| p.0).collect()
}

fn announcement_count(children: &[NodeKey]) -> usize {
    children.iter().filter(|k| **k == NodeKey::Announcement).count()
}

#[test]
fn tokens_are_stable_and_non_zero() {
    assert_eq!(NodeKey::Window.token(), 1);
    assert_eq!(NodeKey::Button1.token(), 2);
    assert_eq!(NodeKey::Button2.token(), 3);
    assert_eq!(NodeKey::Announcement.token(), 4);
    assert_eq!(NodeKey::from_token(3), Some(NodeKey::Button2));
    assert_eq!(NodeKey::from_token(0), None);
    assert_eq!(NodeKey::from_token(5), None);
    assert!(NodeKey::Button1.is_control());
    assert!(!NodeKey::Announcement.is_control());
}

#[test]
fn buttons_and_live_region_are_described() {
    let b1 = build_button(NodeKey::Button1, "Button 1");
    assert_eq!(b1.role, Role::Button);
    assert_eq!(b1.name, "Button 1");
    assert_eq!(b1.bounds, Some(Bounds { x0: 20, y0: 20, x1: 100, y1: 60 }));
    assert!(b1.focusable && b1.clickable && !b1.polite_live);
    assert!(b1.children.is_empty());
    assert_eq!(button_bounds(NodeKey::Button2), Bounds { x0: 20, y0: 60, x1: 100, y1: 100 });
    let a = build_announcement("hi");
    assert_eq!(a.role, Role::StaticText);
    assert_eq!(a.name, "hi");
    assert!(a.polite_live && !a.focusable && a.bounds.is_none());
}

#[test]
fn new_state_has_first_button_and_no_focus() {
    let s = State::new();
    assert_eq!(s.logical_focus(), INITIAL_FOCUS);
    assert_eq!(s.logical_focus(), NodeKey::Button1);
    assert!(!s.is_window_focused());
    assert_eq!(s.effective_focus(), None);
    assert_eq!(s.announcement(), None);
}

#[test]
fn effective_focus_follows_window_flag() {
    let mut s = State::new();
    s.move_focus(NodeKey::Button2);
    assert_eq!(s.effective_focus(), None);
    let u = s.set_window_focus(true);
    assert_eq!(s.effective_focus(), Some(NodeKey::Button2));
    assert!(u.nodes.is_empty() && u.root.is_none());
    assert_eq!(u.focus, Some(NodeKey::Button2));
    let u = s.move_focus(NodeKey::Button1);
    assert_eq!(u.focus, Some(NodeKey::Button1));
    let u = s.set_window_focus(false);
    assert_eq!(u.focus, None);
    assert_eq!(s.effective_focus(), None);
    assert_eq!(s.logical_focus(), NodeKey::Button1);
    s.set_window_focus(true);
    assert_eq!(s.effective_focus(), Some(NodeKey::Button1));
}

#[test]
fn initial_tree_declares_root_and_two_controls() {
    let mut s = State::new();
    s.set_window_focus(true);
    let t = s.build_initial_tree();
    assert_eq!(t.root, Some(NodeKey::Window));
    assert_eq!(keys(&t), vec![NodeKey::Window, NodeKey::Button1, NodeKey::Button2]);
    assert!(!t.declares(NodeKey::Announcement));
    assert!(t.declares(NodeKey::Button2));
    assert_eq!(t.focus, Some(NodeKey::Button1));
    let root = &t.nodes[0].1;
    assert_eq!(root.role, Role::Window);
    assert_eq!(root.name, WINDOW_TITLE);
    assert_eq!(root.name, "Hello world");
    assert_eq!(root.children, vec![NodeKey::Button1, NodeKey::Button2]);
    assert_eq!(t.nodes[1].1.name, "Button 1");
    assert_eq!(t.nodes[2].1.name, "Button 2");
    assert_eq!(t.nodes[2].1.bounds, Some(Bounds { x0: 20, y0: 60, x1: 100, y1: 100 }));
}

#[test]
fn initial_tree_carries_pending_announcement() {
    let mut s = State::new();
    s.activate(NodeKey::Button2);
    let t = s.build_initial_tree();
    assert_eq!(
        keys(&t),
        vec![NodeKey::Window, NodeKey::Button1, NodeKey::Button2, NodeKey::Announcement]
    );
    assert_eq!(t.nodes[3].1.name, "You pressed button 2");
    assert_eq!(
        t.nodes[0].1.children,
        vec![NodeKey::Button1, NodeKey::Button2, NodeKey::Announcement]
    );
    assert_eq!(t.focus, None);
}

#[test]
fn activation_announces_and_overwrites() {
    let mut s = State::new();
    s.activate(NodeKey::Button1);
    assert_eq!(s.announcement(), Some("You pressed button 1"));
    s.activate(NodeKey::Button2);
    assert_eq!(s.announcement(), Some("You pressed button 2"));
    s.activate(NodeKey::Button1);
    assert_eq!(s.announcement(), Some("You pressed button 1"));
}

#[test]
fn activation_update_lists_announcement_once() {
    let mut s = State::new();
    let before = s.build_root();
    assert_eq!(announcement_count(&before.children), 0);
    for _ in 0..3 {
        let u = s.activate(NodeKey::Button1);
        assert_eq!(keys(&u), vec![NodeKey::Announcement, NodeKey::Window]);
        assert!(u.root.is_none());
        assert_eq!(u.nodes[0].1.name, "You pressed button 1");
        assert!(u.nodes[0].1.polite_live);
        assert_eq!(announcement_count(&u.nodes[1].1.children), 1);
        assert_eq!(announcement_count(&s.build_root().children), 1);
    }
}

#[test]
fn cycling_twice_returns_to_first_button() {
    let mut s = State::new();
    s.set_window_focus(true);
    let u = s.cycle_focus();
    assert_eq!(s.logical_focus(), NodeKey::Button2);
    assert_eq!(u.focus, Some(NodeKey::Button2));
    let u = s.cycle_focus();
    assert_eq!(s.logical_focus(), NodeKey::Button1);
    assert_eq!(u.focus, Some(NodeKey::Button1));
}

#[test]
fn keys_drive_focus_and_activation() {
    let mut s = State::new();
    let u = s.handle_event(UiEvent::WindowFocusChanged(true)).unwrap();
    assert_eq!(u.focus, Some(NodeKey::Button1));
    s.handle_event(UiEvent::NextControlKey).unwrap();
    assert_eq!(s.logical_focus(), NodeKey::Button2);
    let u = s.handle_event(UiEvent::ActivateKey).unwrap();
    assert_eq!(u.nodes[0].1.name, "You pressed button 2");
    assert_eq!(s.announcement(), Some("You pressed button 2"));
}

#[test]
fn requests_focus_and_press_controls() {
    let mut s = State::new();
    let focus = UiEvent::Request { action: RequestedAction::Focus, target: 3, has_data: false };
    let u = s.handle_event(focus).unwrap();
    assert!(u.nodes.is_empty());
    assert_eq!(s.logical_focus(), NodeKey::Button2);
    let press = UiEvent::Request { action: RequestedAction::Default, target: 2, has_data: false };
    let u = s.handle_event(press).unwrap();
    assert_eq!(keys(&u), vec![NodeKey::Announcement, NodeKey::Window]);
    assert_eq!(s.announcement(), Some("You pressed button 1"));
    assert_eq!(s.logical_focus(), NodeKey::Button2);
}

#[test]
fn malformed_requests_are_ignored() {
    let mut s = State::new();
    let cases = [
        UiEvent::Request { action: RequestedAction::Focus, target: 1, has_data: false },
        UiEvent::Request { action: RequestedAction::Default, target: 4, has_data: false },
        UiEvent::Request { action: RequestedAction::Default, target: 0, has_data: false },
        UiEvent::Request { action: RequestedAction::Default, target: 99, has_data: false },
        UiEvent::Request { action: RequestedAction::Default, target: 2, has_data: true },
        UiEvent::Request { action: RequestedAction::Other, target: 2, has_data: false },
    ];
    for ev in cases {
        assert!(s.handle_event(ev).is_none());
        assert_eq!(s.logical_focus(), NodeKey::Button1);
        assert_eq!(s.announcement(), None);
        assert!(!s.is_window_focused());
    }
}
