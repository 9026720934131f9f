use qstf::ui::select::{Item, Message, ScrollAction, Select};

fn item(id: u32, name: &str) -> Item {
    Item {
        obj_id: id,
        name: name.to_string(),
        arg_hint: None,
        icon: None,
    }
}

fn items(n: u32) -> Vec<Item> {
    (0..n).map(|i| item(i, &format!("app{}", i))).collect()
}

#[test]
fn new_list_is_empty_and_still() {
    let (s, a) = Select::new(100);
    assert_eq!(a, ScrollAction::Stay);
    assert!(s.apps().is_empty());
    assert_eq!(s.selected_index(), 0);
    assert!(s.selected().is_none());
}

#[test]
fn refresh_selects_the_first_entry_and_scrolls_to_start() {
    let (mut s, _) = Select::new(100);
    assert_eq!(s.update(Message::Refresh(items(3))), ScrollAction::SnapToStart);
    assert_eq!(s.selected_index(), 0);
    assert_eq!(s.selected().unwrap().obj_id, 0);
    assert_eq!(s.apps().len(), 3);
}

#[test]
fn down_and_up_move_the_selection() {
    let (mut s, _) = Select::new(185);
    s.update(Message::Refresh(items(3)));
    assert_eq!(s.update(Message::Down), ScrollAction::Stay);
    assert_eq!(s.selected_index(), 1);
    s.update(Message::Down);
    assert_eq!(s.selected_index(), 2);
    // the last entry stays selected
    assert_eq!(s.update(Message::Down), ScrollAction::Stay);
    assert_eq!(s.selected_index(), 2);
    s.update(Message::Up);
    s.update(Message::Up);
    assert_eq!(s.selected_index(), 0);
    assert_eq!(s.update(Message::Up), ScrollAction::Stay);
    assert_eq!(s.selected_index(), 0);
}

#[test]
fn down_then_up_comes_back() {
    let (mut s, _) = Select::new(185);
    s.update(Message::Refresh(items(5)));
    s.update(Message::Down);
    let before = s.selected_index();
    s.update(Message::Down);
    s.update(Message::Up);
    assert_eq!(s.selected_index(), before);
}

#[test]
fn moving_below_the_window_scrolls_down() {
    // a window 50 high shows one row of 35 (rows are 40 apart)
    let (mut s, _) = Select::new(50);
    s.update(Message::Refresh(items(4)));
    // row 1 spans 40..75, beyond 0 + 50: scroll so that it ends at the bottom
    assert_eq!(
        s.update(Message::Down),
        ScrollAction::SnapTo {
            offset: 25,
            total: 4 * 40 - (5 + 50)
        }
    );
}

#[test]
fn moving_above_the_window_scrolls_up() {
    let (mut s, _) = Select::new(50);
    s.update(Message::Refresh(items(4)));
    s.update(Message::Down);
    s.update(Message::Down); // row 2 spans 80..115: scroll start 65
    // back to row 0, which begins above the window
    s.update(Message::Up); // row 1 begins at 40 < 65
    assert_eq!(s.selected_index(), 1);
    assert_eq!(
        s.update(Message::Up),
        ScrollAction::SnapTo {
            offset: 0,
            total: 4 * 40 - (5 + 50)
        }
    );
}

#[test]
fn push_selects_the_pushed_row() {
    let (mut s, _) = Select::new(185);
    s.update(Message::Refresh(items(3)));
    assert_eq!(s.update(Message::Push { idx: 2, obj_id: 2 }), ScrollAction::Stay);
    assert_eq!(s.selected().unwrap().name, "app2");
}

#[test]
fn scroll_sets_the_scroll_position() {
    let (mut s, _) = Select::new(50);
    s.update(Message::Refresh(items(4)));
    assert_eq!(s.update(Message::Scroll(60)), ScrollAction::Stay);
    // row 0 now lies above the window: the next move back brings it in
    s.update(Message::Down);
    assert_eq!(
        s.update(Message::Up),
        ScrollAction::SnapTo {
            offset: 0,
            total: 4 * 40 - (5 + 50)
        }
    );
}

#[test]
fn height_change_keeps_the_selection_visible() {
    let (mut s, _) = Select::new(200);
    s.update(Message::Refresh(items(10)));
    for _ in 0..4 {
        s.update(Message::Down);
    }
    // row 4 spans 160..195; a window 100 high must start at 95
    assert_eq!(
        s.update(Message::Height(100)),
        ScrollAction::SnapTo {
            offset: 95,
            total: 10 * 40 - (5 + 100)
        }
    );
}

#[test]
fn overflowing_updates_are_not_allowed() {
    let (mut s, _) = Select::new(10);
    // moving down in an empty list would underflow its last index
    assert!(!s.update_allowed(&Message::Down));
    s.update(Message::Refresh(items(2)));
    assert!(s.update_allowed(&Message::Down));
    // the selected row would end past the end of a u16
    assert!(!s.update_allowed(&Message::Push { idx: 2000, obj_id: 0 }));
    assert!(s.update_allowed(&Message::Height(60000)));
    s.update(Message::Scroll(100));
    // now scrolling is needed, and the list is shorter than the window
    assert!(!s.update_allowed(&Message::Height(60000)));
    assert!(s.update_allowed(&Message::Height(50)));
}
