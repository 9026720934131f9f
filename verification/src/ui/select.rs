use vstd::prelude::*;

verus! {

/// Gap between two rows of the list.
pub const SPACING: u16 = 5;

/// Height of one row of the list.
pub const TEXT_WIDTH: u16 = 35;

/// What a list is made with: the height of its visible window.
pub type Flags = u16;

/// One entry of the result list.
#[derive(Debug, Clone)]
pub struct Item {
    pub obj_id: u32,
    pub name: String,
    pub arg_hint: Option<String>,
    pub icon: Option<String>,
}

/// What the list reacts to. `Scroll` carries the list's absolute scroll
/// offset, already converted to whole pixels.
#[derive(Debug, Clone)]
pub enum Message {
    Height(u16),
    Refresh(Vec<Item>),
    Up,
    Down,
    Push { idx: usize, obj_id: u32 },
    Scroll(u16),
}

/// The scrolling that the list asks of the window after a change.
///
/// `SnapTo` asks for the relative offset `offset / total`.
#[derive(Debug, Clone, Copy, PartialEq, Eq)]
pub enum ScrollAction {
    Stay,
    SnapToStart,
    SnapTo { offset: u16, total: usize },
}

/// The list of search results with its selection and scroll position.
pub struct Select {
    apps: Vec<Item>,
    selected_index: usize,
    height: u16,
    scroll_start: u16,
}

/// The abstract state of a [`Select`].
pub struct SelectView {
    pub apps: Seq<Item>,
    pub selected_index: usize,
    pub height: u16,
    pub scroll_start: u16,
}

impl View for Select {
    type V = SelectView;

    closed spec fn view(&self) -> SelectView {
        SelectView {
            apps: self.apps@,
            selected_index: self.selected_index,
            height: self.height,
            scroll_start: self.scroll_start,
        }
    }
}

/// Distance from the top of one row to the top of the next.
pub open spec fn row_pitch() -> int {
    TEXT_WIDTH + SPACING
}

/// Top of row `idx` (the index taken as a `u16`, as the list computes it).
pub open spec fn row_begin(idx: usize) -> int {
    (idx as u16) * row_pitch()
}

/// Bottom of row `idx`.
pub open spec fn row_end(idx: usize) -> int {
    row_begin(idx) + TEXT_WIDTH
}

/// The selected row is not wholly inside the visible window.
pub open spec fn needs_scroll(s: SelectView) -> bool {
    row_end(s.selected_index) > s.scroll_start + s.height || row_begin(s.selected_index)
        < s.scroll_start
}

/// The new top of the visible window: the least move that brings the bottom
/// of the selected row, or else its top, into view.
pub open spec fn new_scroll_start(s: SelectView) -> u16 {
    if row_end(s.selected_index) > s.scroll_start + s.height {
        (row_end(s.selected_index) - s.height) as u16
    } else if row_begin(s.selected_index) < s.scroll_start {
        row_begin(s.selected_index) as u16
    } else {
        s.scroll_start
    }
}

/// Total scrollable length of the list in state `s`.
pub open spec fn scroll_total(s: SelectView) -> int {
    s.apps.len() * row_pitch() - (SPACING + s.height)
}

/// The scroll check runs without an arithmetic overflow.
pub open spec fn check_scroll_ok(s: SelectView) -> bool {
    &&& row_end(s.selected_index) <= u16::MAX
    &&& s.scroll_start + s.height <= u16::MAX
    &&& needs_scroll(s) ==> {
        &&& SPACING + s.height <= u16::MAX
        &&& s.apps.len() * row_pitch() <= usize::MAX
        &&& scroll_total(s) >= 0
    }
}

/// State and scroll request after the scroll check in state `s`.
pub open spec fn check_scroll_spec(s: SelectView) -> (SelectView, ScrollAction) {
    if needs_scroll(s) {
        let t = SelectView { scroll_start: new_scroll_start(s), ..s };
        (t, ScrollAction::SnapTo { offset: t.scroll_start, total: scroll_total(s) as usize })
    } else {
        (s, ScrollAction::Stay)
    }
}

pub open spec fn with_index(s: SelectView, idx: usize) -> SelectView {
    SelectView { selected_index: idx, ..s }
}

/// `msg` is handled without an arithmetic overflow in state `s`: in
/// particular, a move down needs a non-empty list.
pub open spec fn update_ok(s: SelectView, msg: Message) -> bool {
    match msg {
        Message::Height(h) => check_scroll_ok(SelectView { height: h, ..s }),
        Message::Refresh(_) => true,
        Message::Up => s.selected_index == 0 || check_scroll_ok(
            with_index(s, (s.selected_index - 1) as usize),
        ),
        Message::Down => s.apps.len() >= 1 && (s.selected_index == s.apps.len() - 1 || (
        s.selected_index < usize::MAX && check_scroll_ok(
            with_index(s, (s.selected_index + 1) as usize),
        ))),
        Message::Push { idx, .. } => check_scroll_ok(with_index(s, idx)),
        Message::Scroll(_) => true,
    }
}

/// State and scroll request after `msg` in state `s`.
pub open spec fn update_spec(s: SelectView, msg: Message) -> (SelectView, ScrollAction) {
    match msg {
        Message::Height(h) => check_scroll_spec(SelectView { height: h, ..s }),
        Message::Refresh(apps) => (
            SelectView { apps: apps@, selected_index: 0, ..s },
            ScrollAction::SnapToStart,
        ),
        Message::Up => if s.selected_index == 0 {
            (s, ScrollAction::Stay)
        } else {
            check_scroll_spec(with_index(s, (s.selected_index - 1) as usize))
        },
        Message::Down => if s.selected_index == s.apps.len() - 1 {
            (s, ScrollAction::Stay)
        } else {
            check_scroll_spec(with_index(s, (s.selected_index + 1) as usize))
        },
        Message::Push { idx, .. } => check_scroll_spec(with_index(s, idx)),
        Message::Scroll(y) => (SelectView { scroll_start: y, ..s }, ScrollAction::Stay),
    }
}

/// The selection points at an entry, or the list is empty and the
/// selection is at its start.
pub open spec fn selection_in_range(s: SelectView) -> bool {
    s.selected_index < s.apps.len() || (s.apps.len() == 0 && s.selected_index == 0)
}

impl Select {
    /// The selected entry, if the selection points at one.
    pub fn selected(&self) -> (r: Option<&Item>)
        ensures
            r is Some <==> self@.selected_index < self@.apps.len(),
            r matches Some(it) ==> *it == self@.apps[self@.selected_index as int],
    {
        if self.selected_index < self.apps.len() {
            Some(&self.apps[self.selected_index])
        } else {
            None
        }
    }

    fn check_scroll(&mut self) -> (r: ScrollAction)
        requires
            check_scroll_ok(old(self)@),
        ensures
            (final(self)@, r) == check_scroll_spec(old(self)@),
    {
        let mut minscroll: u16 = self.selected_index as u16 * (TEXT_WIDTH + SPACING) + TEXT_WIDTH;
        let mut changed = false;
        if minscroll > self.scroll_start + self.height {
            self.scroll_start = minscroll - self.height;
            changed = true;
        } else {
            minscroll = (self.selected_index as u16) * (TEXT_WIDTH + SPACING);
            if minscroll < self.scroll_start {
                self.scroll_start = minscroll;
                changed = true;
            }
        }
        if changed {
            let all: usize = self.apps.len() * ((TEXT_WIDTH + SPACING) as usize) - ((SPACING
                + self.height) as usize);
            ScrollAction::SnapTo { offset: self.scroll_start, total: all }
        } else {
            ScrollAction::Stay
        }
    }

    /// Whether the scroll check runs without an overflow once the selection
    /// is `idx` and the window `height` high.
    fn check_scroll_allowed(&self, idx: usize, height: u16) -> (r: bool)
        ensures
            r == check_scroll_ok(SelectView { selected_index: idx, height, ..self@ }),
    {
        let t: u64 = (idx as u16) as u64;
        let end: u64 = t * 40 + 35;
        let ss: u64 = self.scroll_start as u64;
        let h: u64 = height as u64;
        if end > 65535 || ss + h > 65535 {
            return false;
        }
        let needs = end > ss + h || t * 40 < ss;
        if !needs {
            return true;
        }
        if 5 + h > 65535 {
            return false;
        }
        match self.apps.len().checked_mul(40) {
            None => false,
            Some(total) => total as u64 >= 5 + h,
        }
    }

    /// Whether `msg` is handled without an arithmetic overflow: the condition
    /// under which [`Select::update`] may be called.
    pub fn update_allowed(&self, msg: &Message) -> (r: bool)
        ensures
            r == update_ok(self@, *msg),
    {
        match msg {
            Message::Height(h) => self.check_scroll_allowed(self.selected_index, *h),
            Message::Refresh(_) => true,
            Message::Up => self.selected_index == 0 || self.check_scroll_allowed(
                self.selected_index - 1,
                self.height,
            ),
            Message::Down => self.apps.len() >= 1 && (self.selected_index == self.apps.len() - 1
                || (self.selected_index < usize::MAX && self.check_scroll_allowed(
                self.selected_index + 1,
                self.height,
            ))),
            Message::Push { idx, .. } => self.check_scroll_allowed(*idx, self.height),
            Message::Scroll(_) => true,
        }
    }

    /// An empty list whose visible window is `height` high.
    pub fn new(height: Flags) -> (r: (Select, ScrollAction))
        ensures
            r.0@.apps.len() == 0,
            r.0@.selected_index == 0,
            r.0@.height == height,
            r.0@.scroll_start == 0,
            r.1 == ScrollAction::Stay,
    {
        (Select { apps: Vec::new(), selected_index: 0, height, scroll_start: 0 }, ScrollAction::Stay)
    }

    /// The entries of the list.
    pub fn apps(&self) -> (r: &Vec<Item>)
        ensures
            r@ == self@.apps,
    {
        &self.apps
    }

    /// Index of the selected entry.
    pub fn selected_index(&self) -> (r: usize)
        ensures
            r == self@.selected_index,
    {
        self.selected_index
    }

    /// Handles `msg` and says how the window has to scroll.
    pub fn update(&mut self, msg: Message) -> (r: ScrollAction)
        requires
            update_ok(old(self)@, msg),
        ensures
            (final(self)@, r) == update_spec(old(self)@, msg),
    {
        match msg {
            Message::Height(h) => {
                self.height = h;
                self.check_scroll()
            },
            Message::Refresh(apps) => {
                self.apps = apps;
                self.selected_index = 0;
                ScrollAction::SnapToStart
            },
            Message::Up => {
                if self.selected_index == 0 {
                    ScrollAction::Stay
                } else {
                    self.selected_index = self.selected_index - 1;
                    self.check_scroll()
                }
            },
            Message::Down => {
                if self.selected_index == self.apps.len() - 1 {
                    ScrollAction::Stay
                } else {
                    self.selected_index = self.selected_index + 1;
                    self.check_scroll()
                }
            },
            Message::Push { idx, .. } => {
                self.selected_index = idx;
                self.check_scroll()
            },
            Message::Scroll(y) => {
                self.scroll_start = y;
                ScrollAction::Stay
            },
        }
    }
}

/// After the scroll check the selected row lies wholly in the visible
/// window, provided that the window is at least one row high.
pub proof fn lemma_check_scroll_shows_selection(s: SelectView)
    requires
        check_scroll_ok(s),
        s.height >= TEXT_WIDTH,
    ensures
        ({
            let t = check_scroll_spec(s).0;
            &&& t.scroll_start <= row_begin(t.selected_index)
            &&& row_end(t.selected_index) <= t.scroll_start + t.height
        }),
{
}

/// Every message but a push to a row outside the list, or a move down in an
/// empty list, keeps the selection in range.
pub proof fn lemma_update_keeps_selection_in_range(s: SelectView, msg: Message)
    requires
        s.apps.len() <= usize::MAX,
        selection_in_range(s),
        msg matches Message::Push { idx, .. } ==> idx < s.apps.len(),
        msg is Down ==> s.apps.len() > 0,
    ensures
        selection_in_range(update_spec(s, msg).0),
{
}

/// Moving down and then up comes back to the row one started from.
pub proof fn lemma_down_then_up(s: SelectView)
    requires
        s.selected_index + 1 < s.apps.len() <= usize::MAX,
    ensures
        update_spec(update_spec(s, Message::Down).0, Message::Up).0.selected_index
            == s.selected_index,
        update_spec(update_spec(s, Message::Down).0, Message::Up).0.apps == s.apps,
{
}

/// Moving up and then down comes back to the row one started from.
pub proof fn lemma_up_then_down(s: SelectView)
    requires
        0 < s.selected_index < s.apps.len() <= usize::MAX,
    ensures
        update_spec(update_spec(s, Message::Up).0, Message::Down).0.selected_index
            == s.selected_index,
{
}

/// A refresh shows the new list from its first entry.
pub proof fn lemma_refresh_selects_first(s: SelectView, apps: Vec<Item>)
    ensures
        ({
            let (t, a) = update_spec(s, Message::Refresh(apps));
            &&& t.apps == apps@
            &&& t.selected_index == 0
            &&& a == ScrollAction::SnapToStart
            &&& selection_in_range(t)
        }),
{
}

/// A scroll of the list only records the new offset: the entries, the
/// selection and the window height stay, and nothing more is scrolled.
pub proof fn lemma_scroll_keeps_selection(s: SelectView, y: u16)
    ensures
        ({
            let (t, a) = update_spec(s, Message::Scroll(y));
            &&& t.scroll_start == y
            &&& t.selected_index == s.selected_index
            &&& t.apps == s.apps
            &&& t.height == s.height
            &&& a == ScrollAction::Stay
        }),
{
}

} // verus!
