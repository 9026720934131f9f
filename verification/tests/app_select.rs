use qstf::select::{AppInfo, AppInfoFlags, Message, ScrollAction, Select};

fn app(name: &str) -> AppInfo {
    AppInfo {
        name: name.to_string(),
        flags: AppInfoFlags(0),
        icon: None,
    }
}

fn apps(n: usize) -> Vec<AppInfo> {
    (0..n).map(|i| app(&format!("a{}", i))).collect()
}

#[test]
fn flags_combine_bitwise() {
    let f = AppInfoFlags::from(AppInfoFlags::HAS_ARG_FILE) | AppInfoFlags(AppInfoFlags::HAS_ARG_URL);
    assert_eq!(f.0, 0b101);
    let mut g = AppInfoFlags(AppInfoFlags::HAS_ARG_FILES);
    g |= AppInfoFlags(AppInfoFlags::HAS_ARG_URLS);
    assert_eq!(g.0, 0b1010);
    g &= AppInfoFlags(0b1000);
    assert_eq!(g.0, 0b1000);
    assert_eq!((AppInfoFlags(0b1100) & AppInfoFlags(0b1010)).0, 0b1000);
    assert_eq!((AppInfoFlags(0b1100) ^ AppInfoFlags(0b1010)).0, 0b0110);
    assert_eq!((!AppInfoFlags(0)).0, u32::MAX);
}

#[test]
fn flag_laws_on_values() {
    let a = 0b1011u32;
    let b = 0b0110u32;
    assert_eq!((!(AppInfoFlags(a) | AppInfoFlags(b))).0, (!AppInfoFlags(a) & !AppInfoFlags(b)).0);
    assert_eq!((!(AppInfoFlags(a) & AppInfoFlags(b))).0, (!AppInfoFlags(a) | !AppInfoFlags(b)).0);
    assert_eq!(((AppInfoFlags(a) ^ AppInfoFlags(b)) ^ AppInfoFlags(b)).0, a);
    assert_eq!((!!AppInfoFlags(a)).0, a);
}

#[test]
fn nothing_is_selected_at_first() {
    let mut s = Select::with_height(100);
    assert!(s.selected().is_none());
    assert_eq!(s.update(Message::AppInfo(apps(3))), ScrollAction::SnapToStart);
    assert!(s.selected().is_none());
    assert_eq!(Select::new().apps().len(), 0);
}

#[test]
fn down_selects_from_the_first_row() {
    let mut s = Select::with_height(100);
    s.update(Message::AppInfo(apps(3)));
    s.update(Message::Down);
    assert_eq!(s.selected().unwrap().name, "a0");
    assert!(s.highlighted(0));
    assert!(!s.highlighted(1));
    s.update(Message::Down);
    s.update(Message::Down);
    s.update(Message::Down);
    assert_eq!(s.selected().unwrap().name, "a2");
    s.update(Message::Up);
    assert_eq!(s.selected().unwrap().name, "a1");
}

#[test]
fn up_stops_at_the_first_row() {
    let mut s = Select::with_height(100);
    s.update(Message::AppInfo(apps(2)));
    s.update(Message::Down);
    assert_eq!(s.update(Message::Up), ScrollAction::Stay);
    assert_eq!(s.selected().unwrap().name, "a0");
}

#[test]
fn moving_below_the_window_scrolls() {
    let mut s = Select::with_height(50);
    s.update(Message::AppInfo(apps(4)));
    s.update(Message::Down); // row 1 spans 0..35
    // row 2 spans 40..75: the window must start at 25
    assert_eq!(
        s.update(Message::Down),
        ScrollAction::SnapTo {
            offset: 25,
            total: 4 * 40 - (5 + 50)
        }
    );
}

#[test]
fn height_needs_a_selected_row() {
    let mut s = Select::with_height(100);
    s.update(Message::AppInfo(apps(3)));
    // with nothing selected the row positions would underflow
    assert!(!s.update_allowed(&Message::Height(50)));
    s.update(Message::Down);
    assert!(s.update_allowed(&Message::Height(50)));
    assert_eq!(s.update(Message::Height(20)), ScrollAction::SnapTo { offset: 15, total: 120 - 25 });
}
