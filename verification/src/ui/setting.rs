use vstd::prelude::*;

verus! {

/// An extension as the settings window lists it.
#[derive(Debug, Clone)]
pub struct ExtInfo {
    pub id: u32,
    pub name: String,
    pub dir: String,
    pub command: String,
}

/// What the settings window reacts to.
#[derive(Debug, Clone, Copy, PartialEq, Eq, Structural)]
pub enum Message {
    PickExt(usize),
}

/// One choice of the extension picker: a name and its position.
#[derive(Debug, Clone, PartialEq, Eq)]
pub struct PickItem {
    pub name: String,
    pub idx: usize,
}

/// The settings window's state: the extensions and the one picked.
pub struct Setting {
    selected_ext: usize,
    exts: Vec<ExtInfo>,
}

impl PickItem {
    /// The choice named `name` at position `idx`.
    pub fn new(name: String, idx: usize) -> (r: PickItem)
        ensures
            r.name == name,
            r.idx == idx,
    {
        PickItem { name, idx }
    }
}

impl Setting {
    /// A settings window over `exts` with the first one picked.
    pub fn new(exts: Vec<ExtInfo>) -> (r: Setting)
        ensures
            r.selected() == 0,
            r.exts() == exts@,
    {
        Setting { selected_ext: 0, exts }
    }

    /// Position of the picked extension.
    pub closed spec fn selected(&self) -> usize {
        self.selected_ext
    }

    /// The extensions listed.
    pub closed spec fn exts(&self) -> Seq<ExtInfo> {
        self.exts@
    }

    /// The window's title.
    pub fn title(&self) -> (r: String)
        ensures
            r@ == "Setting"@,
    {
        "Setting".to_owned()
    }

    /// The choices of the picker: every extension's name with its position.
    pub fn options(&self) -> (r: Vec<PickItem>)
        ensures
            r@.len() == self.exts().len(),
            forall|i: int|
                0 <= i < r@.len() ==> #[trigger] r@[i].idx == i && r@[i].name == self.exts()[i].name,
    {
        let mut out: Vec<PickItem> = Vec::new();
        let mut i: usize = 0;
        while i < self.exts.len()
            invariant
                i <= self.exts@.len(),
                out@.len() == i,
                forall|j: int|
                    0 <= j < i ==> #[trigger] out@[j].idx == j && out@[j].name == self.exts@[j].name,
            decreases self.exts@.len() - i,
        {
            out.push(PickItem::new(self.exts[i].name.clone(), i));
            i = i + 1;
        }
        out
    }

    /// The choice shown as picked, if the picked position holds an extension.
    pub fn picked(&self) -> (r: Option<PickItem>)
        ensures
            r is Some <==> self.selected() < self.exts().len(),
            r matches Some(p) ==> p.idx == self.selected() && p.name == self.exts()[self.selected()
                as int].name,
    {
        if self.selected_ext < self.exts.len() {
            Some(PickItem::new(self.exts[self.selected_ext].name.clone(), self.selected_ext))
        } else {
            None
        }
    }
}

} // verus!
