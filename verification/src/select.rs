use vstd::prelude::*;

verus! {

use vstd::std_specs::ops::{BitAndSpec, BitOrSpec, BitXorSpec, NotSpec};

/// Gap between two rows of the list.
pub const SPACING: u16 = 5;

/// Height of one row of the list.
pub const TEXT_WIDTH: u16 = 35;

/// What kinds of arguments an application accepts, one bit each.
pub struct AppInfoFlags(pub u32);

impl AppInfoFlags {
    /// Bit set when the application takes one file.
    pub const HAS_ARG_FILE: u32 = 0b0000_0001;

    /// Bit set when the application takes several files.
    pub const HAS_ARG_FILES: u32 = 0b0000_0010;

    /// Bit set when the application takes one URL.
    pub const HAS_ARG_URL: u32 = 0b0000_0100;

    /// Bit set when the application takes several URLs.
    pub const HAS_ARG_URLS: u32 = 0b0000_1000;
}

impl From<u32> for AppInfoFlags {
    fn from(v: u32) -> (r: AppInfoFlags) {
        AppInfoFlags(v)
    }
}

impl vstd::std_specs::convert::FromSpecImpl<u32> for AppInfoFlags {
    open spec fn obeys_from_spec() -> bool {
        true
    }

    open spec fn from_spec(v: u32) -> AppInfoFlags {
        AppInfoFlags(v)
    }
}

impl core::ops::BitOr for AppInfoFlags {
    type Output = AppInfoFlags;

    fn bitor(self, rhs: AppInfoFlags) -> (r: AppInfoFlags) {
        AppInfoFlags(self.0 | rhs.0)
    }
}

impl vstd::std_specs::ops::BitOrSpecImpl for AppInfoFlags {
    open spec fn obeys_bitor_spec() -> bool {
        true
    }

    open spec fn bitor_req(self, rhs: AppInfoFlags) -> bool {
        true
    }

    open spec fn bitor_spec(self, rhs: AppInfoFlags) -> AppInfoFlags {
        AppInfoFlags(self.0 | rhs.0)
    }
}

impl core::ops::BitOrAssign for AppInfoFlags {
    fn bitor_assign(&mut self, rhs: AppInfoFlags)
        ensures
            final(self).0 == old(self).0 | rhs.0,
    {
        self.0 = self.0 | rhs.0;
    }
}

impl core::ops::BitAnd for AppInfoFlags {
    type Output = AppInfoFlags;

    fn bitand(self, rhs: AppInfoFlags) -> (r: AppInfoFlags) {
        AppInfoFlags(self.0 & rhs.0)
    }
}

impl vstd::std_specs::ops::BitAndSpecImpl for AppInfoFlags {
    open spec fn obeys_bitand_spec() -> bool {
        true
    }

    open spec fn bitand_req(self, rhs: AppInfoFlags) -> bool {
        true
    }

    open spec fn bitand_spec(self, rhs: AppInfoFlags) -> AppInfoFlags {
        AppInfoFlags(self.0 & rhs.0)
    }
}

impl core::ops::BitAndAssign for AppInfoFlags {
    fn bitand_assign(&mut self, rhs: AppInfoFlags)
        ensures
            final(self).0 == old(self).0 & rhs.0,
    {
        self.0 = self.0 & rhs.0;
    }
}

impl core::ops::Not for AppInfoFlags {
    type Output = AppInfoFlags;

    fn not(self) -> (r: AppInfoFlags) {
        AppInfoFlags(!self.0)
    }
}

impl vstd::std_specs::ops::NotSpecImpl for AppInfoFlags {
    open spec fn obeys_not_spec() -> bool {
        true
    }

    open spec fn not_req(self) -> bool {
        true
    }

    open spec fn not_spec(self) -> AppInfoFlags {
        AppInfoFlags(!self.0)
    }
}

impl core::ops::BitXor for AppInfoFlags {
    type Output = AppInfoFlags;

    fn bitxor(self, rhs: AppInfoFlags) -> (r: AppInfoFlags) {
        AppInfoFlags(self.0 ^ rhs.0)
    }
}

impl vstd::std_specs::ops::BitXorSpecImpl for AppInfoFlags {
    open spec fn obeys_bitxor_spec() -> bool {
        true
    }

    open spec fn bitxor_req(self, rhs: AppInfoFlags) -> bool {
        true
    }

    open spec fn bitxor_spec(self, rhs: AppInfoFlags) -> AppInfoFlags {
        AppInfoFlags(self.0 ^ rhs.0)
    }
}

/// An application offered by the daemon.
pub struct AppInfo {
    pub name: String,
    pub flags: AppInfoFlags,
    pub icon: Option<String>,
}

/// What the list reacts to.
pub enum Message {
    Height(u16),
    Up,
    Down,
    AppInfo(Vec<AppInfo>),
}

/// The scrolling that the list asks of the window after a change.
///
/// `SnapTo` asks for the relative offset `offset / total`.
#[derive(Debug, Clone, Copy, PartialEq, Eq)]
pub enum ScrollAction {
    Stay,
    SnapToStart,
    SnapTo { offset: u16, total: usize },
}

/// A list of applications with a selection counted from one (zero: nothing
/// selected) and a scroll position.
pub struct Select {
    apps: Vec<AppInfo>,
    selected_index: usize,
    height: u16,
    scroll_start: u16,
}

/// The abstract state of a [`Select`].
pub struct SelectView {
    pub apps: Seq<AppInfo>,
    pub selected_index: usize,
    pub height: u16,
    pub scroll_start: u16,
}

impl View for Select {
    type V = SelectView;

    closed spec fn view(&self) -> SelectView {
        SelectView {
            apps: self.apps@,
            selected_index: self.selected_index,
            height: self.height,
            scroll_start: self.scroll_start,
        }
    }
}

/// Distance from the top of one row to the top of the next.
pub open spec fn row_pitch() -> int {
    TEXT_WIDTH + SPACING
}

/// Bottom of the row at position `idx`, counted from one.
pub open spec fn row_end(idx: usize) -> int {
    (idx as u16) * row_pitch() - SPACING
}

/// Top of the row at position `idx`, counted from one.
pub open spec fn row_begin(idx: usize) -> int {
    ((idx as u16) - 1) * row_pitch()
}

/// The selected row is not wholly inside the visible window.
pub open spec fn needs_scroll(s: SelectView) -> bool {
    row_end(s.selected_index) > s.scroll_start + s.height || row_begin(s.selected_index)
        < s.scroll_start
}

/// The new top of the visible window.
pub open spec fn new_scroll_start(s: SelectView) -> u16 {
    if row_end(s.selected_index) > s.scroll_start + s.height {
        (row_end(s.selected_index) - s.height) as u16
    } else if row_begin(s.selected_index) < s.scroll_start {
        row_begin(s.selected_index) as u16
    } else {
        s.scroll_start
    }
}

/// Total scrollable length of the list in state `s`.
pub open spec fn scroll_total(s: SelectView) -> int {
    s.apps.len() * row_pitch() - (SPACING + s.height)
}

/// The scroll check runs without an arithmetic overflow: among others, a
/// row must be selected.
pub open spec fn check_scroll_ok(s: SelectView) -> bool {
    &&& (s.selected_index as u16) >= 1
    &&& (s.selected_index as u16) * row_pitch() <= u16::MAX
    &&& s.scroll_start + s.height <= u16::MAX
    &&& needs_scroll(s) ==> {
        &&& SPACING + s.height <= u16::MAX
        &&& s.apps.len() * row_pitch() <= usize::MAX
        &&& scroll_total(s) >= 0
    }
}

/// State and scroll request after the scroll check in state `s`.
pub open spec fn check_scroll_spec(s: SelectView) -> (SelectView, ScrollAction) {
    if needs_scroll(s) {
        let t = SelectView { scroll_start: new_scroll_start(s), ..s };
        (t, ScrollAction::SnapTo { offset: t.scroll_start, total: scroll_total(s) as usize })
    } else {
        (s, ScrollAction::Stay)
    }
}

pub open spec fn with_index(s: SelectView, idx: usize) -> SelectView {
    SelectView { selected_index: idx, ..s }
}

/// `msg` is handled without an arithmetic overflow in state `s`: in
/// particular, a change of height needs a selected row.
pub open spec fn update_ok(s: SelectView, msg: Message) -> bool {
    match msg {
        Message::Height(h) => check_scroll_ok(SelectView { height: h, ..s }),
        Message::Up => s.selected_index <= 1 || check_scroll_ok(
            with_index(s, (s.selected_index - 1) as usize),
        ),
        Message::Down => s.selected_index >= s.apps.len() || check_scroll_ok(
            with_index(s, (s.selected_index + 1) as usize),
        ),
        Message::AppInfo(_) => true,
    }
}

/// State and scroll request after `msg` in state `s`.
pub open spec fn update_spec(s: SelectView, msg: Message) -> (SelectView, ScrollAction) {
    match msg {
        Message::Height(h) => check_scroll_spec(SelectView { height: h, ..s }),
        Message::Up => if s.selected_index > 1 {
            check_scroll_spec(with_index(s, (s.selected_index - 1) as usize))
        } else {
            (s, ScrollAction::Stay)
        },
        Message::Down => if s.selected_index < s.apps.len() {
            check_scroll_spec(with_index(s, (s.selected_index + 1) as usize))
        } else {
            (s, ScrollAction::Stay)
        },
        Message::AppInfo(apps) => (
            SelectView { apps: apps@, selected_index: 0, ..s },
            ScrollAction::SnapToStart,
        ),
    }
}

impl Select {
    /// An empty list with a visible window of height zero.
    pub fn new() -> (r: Select)
        ensures
            r@.apps.len() == 0,
            r@.selected_index == 0,
            r@.height == 0,
            r@.scroll_start == 0,
    {
        Select { apps: Vec::new(), selected_index: 0, height: 0, scroll_start: 0 }
    }

    /// An empty list whose visible window is `height` high.
    pub fn with_height(height: u16) -> (r: Select)
        ensures
            r@.apps.len() == 0,
            r@.selected_index == 0,
            r@.height == height,
            r@.scroll_start == 0,
    {
        Select { apps: Vec::new(), selected_index: 0, height, scroll_start: 0 }
    }

    /// The selected application: none when the selection is zero or past
    /// the end of the list.
    pub fn selected(&self) -> (r: Option<&AppInfo>)
        ensures
            r is Some <==> 1 <= self@.selected_index <= self@.apps.len(),
            r matches Some(a) ==> *a == self@.apps[self@.selected_index - 1],
    {
        if self.selected_index == 0 {
            None
        } else if self.selected_index - 1 < self.apps.len() {
            Some(&self.apps[self.selected_index - 1])
        } else {
            None
        }
    }

    /// Whether the row at position `i` (counted from zero) is drawn as the
    /// selected one.
    pub fn highlighted(&self, i: usize) -> (r: bool)
        ensures
            r == (i + 1 == self@.selected_index),
    {
        i < usize::MAX && i + 1 == self.selected_index
    }

    /// The applications of the list.
    pub fn apps(&self) -> (r: &Vec<AppInfo>)
        ensures
            r@ == self@.apps,
    {
        &self.apps
    }

    fn check_scroll(&mut self) -> (r: ScrollAction)
        requires
            check_scroll_ok(old(self)@),
        ensures
            (final(self)@, r) == check_scroll_spec(old(self)@),
    {
        let t: u16 = self.selected_index as u16;
        assert(t * 40 <= u16::MAX);
        assert(t * 40 >= 40 && (t - 1) * 40 <= t * 40) by (nonlinear_arith)
            requires
                t >= 1,
        ;
        let mut minscroll: u16 = t * (TEXT_WIDTH + SPACING) - SPACING;
        let mut changed = false;
        if minscroll > self.scroll_start + self.height {
            self.scroll_start = minscroll - self.height;
            changed = true;
        } else {
            minscroll = (t - 1) * (TEXT_WIDTH + SPACING);
            if minscroll < self.scroll_start {
                self.scroll_start = minscroll;
                changed = true;
            }
        }
        if changed {
            let all: usize = self.apps.len() * ((TEXT_WIDTH + SPACING) as usize) - ((SPACING
                + self.height) as usize);
            ScrollAction::SnapTo { offset: self.scroll_start, total: all }
        } else {
            ScrollAction::Stay
        }
    }

    /// Whether the scroll check runs without an overflow once the selection
    /// is `idx` and the window `height` high.
    fn check_scroll_allowed(&self, idx: usize, height: u16) -> (r: bool)
        ensures
            r == check_scroll_ok(SelectView { selected_index: idx, height, ..self@ }),
    {
        let t: u64 = (idx as u16) as u64;
        if t < 1 || t * 40 > 65535 {
            return false;
        }
        let end: u64 = t * 40 - 5;
        let begin: u64 = (t - 1) * 40;
        let ss: u64 = self.scroll_start as u64;
        let h: u64 = height as u64;
        if ss + h > 65535 {
            return false;
        }
        let needs = end > ss + h || begin < ss;
        if !needs {
            return true;
        }
        if 5 + h > 65535 {
            return false;
        }
        match self.apps.len().checked_mul(40) {
            None => false,
            Some(total) => total as u64 >= 5 + h,
        }
    }

    /// Whether `msg` is handled without an arithmetic overflow: the condition
    /// under which [`Select::update`] may be called.
    pub fn update_allowed(&self, msg: &Message) -> (r: bool)
        ensures
            r == update_ok(self@, *msg),
    {
        match msg {
            Message::Height(h) => self.check_scroll_allowed(self.selected_index, *h),
            Message::Up => self.selected_index <= 1 || self.check_scroll_allowed(
                self.selected_index - 1,
                self.height,
            ),
            Message::Down => self.selected_index >= self.apps.len() || self.check_scroll_allowed(
                self.selected_index + 1,
                self.height,
            ),
            Message::AppInfo(_) => true,
        }
    }

    fn down(&mut self) -> (r: ScrollAction)
        requires
            update_ok(old(self)@, Message::Down),
        ensures
            (final(self)@, r) == update_spec(old(self)@, Message::Down),
    {
        if self.selected_index < self.apps.len() {
            self.selected_index = self.selected_index + 1;
            self.check_scroll()
        } else {
            ScrollAction::Stay
        }
    }

    fn up(&mut self) -> (r: ScrollAction)
        requires
            update_ok(old(self)@, Message::Up),
        ensures
            (final(self)@, r) == update_spec(old(self)@, Message::Up),
    {
        if self.selected_index > 1 {
            self.selected_index = self.selected_index - 1;
            self.check_scroll()
        } else {
            ScrollAction::Stay
        }
    }

    /// Handles `msg` and says how the window has to scroll.
    pub fn update(&mut self, msg: Message) -> (r: ScrollAction)
        requires
            update_ok(old(self)@, msg),
        ensures
            (final(self)@, r) == update_spec(old(self)@, msg),
    {
        match msg {
            Message::Height(h) => {
                self.height = h;
                self.check_scroll()
            },
            Message::Up => self.up(),
            Message::Down => self.down(),
            Message::AppInfo(apps) => {
                self.apps = apps;
                self.selected_index = 0;
                ScrollAction::SnapToStart
            },
        }
    }
}

/// After the scroll check the selected row lies wholly in the visible
/// window, provided that the window is at least one row high.
pub proof fn lemma_check_scroll_shows_selection(s: SelectView)
    requires
        check_scroll_ok(s),
        s.height >= TEXT_WIDTH,
    ensures
        ({
            let t = check_scroll_spec(s).0;
            &&& t.scroll_start <= row_begin(t.selected_index)
            &&& row_end(t.selected_index) <= t.scroll_start + t.height
        }),
{
}

/// Moving down and then up comes back to the row one started from.
pub proof fn lemma_down_then_up(s: SelectView)
    requires
        1 <= s.selected_index < s.apps.len() <= usize::MAX,
    ensures
        update_spec(update_spec(s, Message::Down).0, Message::Up).0.selected_index
            == s.selected_index,
{
}

/// Moving up and then down comes back to the row one started from.
pub proof fn lemma_up_then_down(s: SelectView)
    requires
        1 < s.selected_index <= s.apps.len(),
    ensures
        update_spec(update_spec(s, Message::Up).0, Message::Down).0.selected_index
            == s.selected_index,
{
}

/// The selection never leaves the range from zero to the length of the list.
pub proof fn lemma_update_keeps_selection_bounded(s: SelectView, msg: Message)
    requires
        s.selected_index <= s.apps.len(),
    ensures
        update_spec(s, msg).0.selected_index <= update_spec(s, msg).0.apps.len(),
{
}

/// A new application list clears the selection, whatever was selected
/// before: nothing is selected in it, and the list scrolls to its start.
pub proof fn lemma_app_info_clears_selection(s: SelectView, apps: Vec<AppInfo>)
    ensures
        ({
            let (t, a) = update_spec(s, Message::AppInfo(apps));
            &&& t.apps == apps@
            &&& t.selected_index == 0
            &&& !(1 <= t.selected_index <= t.apps.len())
            &&& t.height == s.height
            &&& a == ScrollAction::SnapToStart
        }),
{
}

/// Laws of the flag operations: union and intersection are commutative and
/// idempotent, complement is an involution, De Morgan's laws hold, and a
/// difference taken twice cancels out.
pub proof fn lemma_flag_algebra(a: AppInfoFlags, b: AppInfoFlags)
    ensures
        a.bitor_spec(b) == b.bitor_spec(a),
        a.bitand_spec(b) == b.bitand_spec(a),
        a.bitor_spec(a) == a,
        a.bitand_spec(a) == a,
        a.not_spec().not_spec() == a,
        a.bitor_spec(b).not_spec() == a.not_spec().bitand_spec(b.not_spec()),
        a.bitand_spec(b).not_spec() == a.not_spec().bitor_spec(b.not_spec()),
        a.bitxor_spec(b).bitxor_spec(b) == a,
        a.bitxor_spec(a).0 == 0,
{
    let x = a.0;
    let y = b.0;
    assert(x | y == y | x) by (bit_vector);
    assert(x & y == y & x) by (bit_vector);
    assert(x | x == x) by (bit_vector);
    assert(x & x == x) by (bit_vector);
    assert(!!x == x) by (bit_vector);
    assert(!(x | y) == !x & !y) by (bit_vector);
    assert(!(x & y) == !x | !y) by (bit_vector);
    assert((x ^ y) ^ y == x) by (bit_vector);
    assert(x ^ x == 0) by (bit_vector);
}

} // verus!
