//! The tab lifecycle manager: an ordered registry of tabs, each owning one
//! parsed document, with stable index-based addressing.
//!
//! Every tab's selector and close controls are bound to the tab's position
//! at creation time. Removing a tab therefore rebinds the controls of every
//! tab to its right down by one, so that bound actions always name the
//! correct current position; that bookkeeping is the registry's central
//! invariant, `wf`.

use vstd::prelude::*;
use crate::document::DocNode;
use crate::document::Document;

verus! {

/// The messages the tab strip dispatches to the application.
#[derive(Clone, Copy, PartialEq, Eq, Structural, Debug)]
pub enum BrowserTabAction {
    ClickedTab(usize),
    CloseTab(usize),
    AddTab,
}

/// Fixed width of one tab control.
pub const TAB_WIDTH: u64 = 200;

/// Horizontal padding after each tab control.
pub const TAB_PADDING: u64 = 10;

/// Where the strip's first control is laid out.
pub const STRIP_ORIGIN_X: u64 = 10;

/// The strip's vertical origin.
pub const STRIP_ORIGIN_Y: u64 = 75;

/// Width of the trailing add-tab control.
pub const ADD_TAB_WIDTH: u64 = 25;

/// How far below the strip origin the add-tab control sits.
pub const ADD_TAB_Y_OFFSET: u64 = 6;

/// How many tabs the layout computation accepts; keeps every control's
/// position well inside `u64`.
pub const MAX_TABS: usize = 0x100_0000;

/// One document slot: a display name, the positions its selector and close
/// actions are bound to, its control geometry, and the document it owns.
pub struct BrowserTab {
    pub name: String,
    /// Position the selector control dispatches `ClickedTab` with.
    pub select_target: usize,
    /// Position the close control dispatches `CloseTab` with.
    pub close_target: usize,
    pub width: u64,
    pub padding: u64,
    pub document: Document,
}

/// Everything about a tab except where its controls are bound: what must
/// survive a rebinding unchanged.
pub open spec fn same_tab_content(a: BrowserTab, b: BrowserTab) -> bool {
    &&& a.name == b.name
    &&& a.width == b.width
    &&& a.padding == b.padding
    &&& a.document == b.document
}

impl BrowserTab {
    /// A tab named `name` whose selector and close actions are bound to
    /// `index`, owning a freshly created, empty document.
    pub fn new(name: &str, index: usize) -> (t: BrowserTab)
        ensures
            t.name@ == name@,
            t.select_target == index,
            t.close_target == index,
            t.width == TAB_WIDTH,
            t.padding == TAB_PADDING,
            t.document.nodes@ == Seq::<DocNode>::empty(),
    {
        BrowserTab {
            name: name.to_owned(),
            select_target: index,
            close_target: index,
            width: TAB_WIDTH,
            padding: TAB_PADDING,
            document: Document::new(),
        }
    }

    /// Replaces the tab's document with a newly parsed one; everything
    /// else stays.
    pub fn set_document(&mut self, document: Document)
        ensures
            final(self).document == document,
            final(self).name == old(self).name,
            final(self).select_target == old(self).select_target,
            final(self).close_target == old(self).close_target,
            final(self).width == old(self).width,
            final(self).padding == old(self).padding,
    {
        self.document = document;
    }
}

/// Where one control of the tab strip is laid out.
pub struct ControlPlacement {
    pub x: u64,
    pub y: u64,
    pub width: u64,
}

/// The whole strip: one placement per tab, plus the trailing add-tab
/// control past the last tab.
pub struct StripLayout {
    pub tabs: Vec<ControlPlacement>,
    pub add_tab: ControlPlacement,
}

/// The ordered collection of tabs.
pub struct BrowserTabs {
    pub tabs: Vec<BrowserTab>,
    pub starting_x: u64,
    pub starting_y: u64,
}

impl BrowserTabs {
    /// Indices are contiguous: every tab's selector and close actions are
    /// bound to exactly its current position, and each tab keeps the fixed
    /// control geometry it was created with.
    pub open spec fn wf(self) -> bool {
        &&& forall|i: int|
            0 <= i < self.tabs@.len() ==> {
                let t = #[trigger] self.tabs@[i];
                &&& t.select_target == i
                &&& t.close_target == i
                &&& t.width == TAB_WIDTH
                &&& t.padding == TAB_PADDING
            }
        &&& self.starting_x == STRIP_ORIGIN_X
        &&& self.starting_y == STRIP_ORIGIN_Y
    }

    /// An empty registry.
    pub fn new() -> (r: BrowserTabs)
        ensures
            r.wf(),
            r.tabs@.len() == 0,
    {
        BrowserTabs {
            tabs: Vec::new(),
            starting_x: STRIP_ORIGIN_X,
            starting_y: STRIP_ORIGIN_Y,
        }
    }

    /// Appends a new tab with a freshly created, empty document; its index
    /// is the pre-insertion length and its selector and close actions are
    /// bound to that fixed index at creation time.
    pub fn add_tab(&mut self, tab_name: &str)
        requires
            old(self).wf(),
        ensures
            final(self).wf(),
            final(self).tabs@.len() == old(self).tabs@.len() + 1,
            forall|j: int|
                0 <= j < old(self).tabs@.len() ==> final(self).tabs@[j] == old(self).tabs@[j],
            ({
                let t = final(self).tabs@[old(self).tabs@.len() as int];
                &&& t.name@ == tab_name@
                &&& t.select_target == old(self).tabs@.len()
                &&& t.close_target == old(self).tabs@.len()
                &&& t.document.nodes@ == Seq::<DocNode>::empty()
            }),
    {
        let next_tab_idx = self.tabs.len();
        self.tabs.push(BrowserTab::new(tab_name, next_tab_idx));
    }

    /// Removes the tab at `tab_idx` — unless it is the sole remaining tab,
    /// which stays (the registry never drops below one tab once it has
    /// one). The surviving tabs keep their relative order and contents,
    /// and every tab formerly right of the removed one has its selector
    /// and close actions rebound to its new position, one to the left.
    pub fn remove_tab(&mut self, tab_idx: usize)
        requires
            old(self).wf(),
            tab_idx < old(self).tabs@.len(),
        ensures
            final(self).wf(),
            old(self).tabs@.len() == 1 ==> *final(self) == *old(self),
            old(self).tabs@.len() > 1 ==> {
                &&& final(self).tabs@.len() == old(self).tabs@.len() - 1
                &&& forall|j: int| 0 <= j < tab_idx ==> final(self).tabs@[j] == old(self).tabs@[j]
                &&& forall|j: int|
                    tab_idx <= j < final(self).tabs@.len() ==> {
                        &&& same_tab_content(#[trigger] final(self).tabs@[j], old(self).tabs@[j + 1])
                        &&& final(self).tabs@[j].select_target == j
                        &&& final(self).tabs@[j].close_target == j
                    }
            },
    {
        let n_tabs = self.tabs.len();

        // never close the only remaining tab
        if n_tabs == 1 {
            return ;
        }

        // rebind the actions of every tab to the right of the closed one,
        // so no bound index is left pointing out of bounds
        let mut j = tab_idx + 1;
        while j < n_tabs
            invariant
                tab_idx < j <= n_tabs,
                n_tabs == self.tabs@.len(),
                self.starting_x == old(self).starting_x,
                self.starting_y == old(self).starting_y,
                forall|k: int|
                    0 <= k < self.tabs@.len() && !(tab_idx + 1 <= k < j) ==> self.tabs@[k]
                        == old(self).tabs@[k],
                forall|k: int|
                    tab_idx + 1 <= k < j ==> {
                        &&& same_tab_content(#[trigger] self.tabs@[k], old(self).tabs@[k])
                        &&& self.tabs@[k].select_target == k - 1
                        &&& self.tabs@[k].close_target == k - 1
                    },
            decreases n_tabs - j,
        {
            self.tabs[j].select_target = j - 1;
            self.tabs[j].close_target = j - 1;
            j = j + 1;
        }
        let ghost before_remove = self.tabs@;
        self.tabs.remove(tab_idx);
        proof {
            before_remove.remove_ensures(tab_idx as int);
            assert forall|k: int| 0 <= k < self.tabs@.len() implies {
                let t = #[trigger] self.tabs@[k];
                &&& t.select_target == k
                &&& t.close_target == k
                &&& t.width == TAB_WIDTH
                &&& t.padding == TAB_PADDING
            } by {
                if k < tab_idx {
                    assert(self.tabs@[k] == before_remove[k]);
                } else {
                    assert(self.tabs@[k] == before_remove[k + 1]);
                }
            }
        }
    }

    /// Hands out the document owned by the tab at `tab_idx`, for the
    /// caller to render; the tab set itself is untouched.
    pub fn select(&self, tab_idx: usize) -> (doc: &Document)
        requires
            tab_idx < self.tabs@.len(),
        ensures
            *doc == self.tabs@[tab_idx as int].document,
    {
        &self.tabs[tab_idx].document
    }

    /// Lays the tab controls out left to right at fixed width and padding
    /// from the strip origin, with the add-tab control past the last tab.
    pub fn strip_layout(&self) -> (layout: StripLayout)
        requires
            self.wf(),
            self.tabs@.len() <= MAX_TABS,
        ensures
            layout.tabs@.len() == self.tabs@.len(),
            forall|j: int|
                0 <= j < self.tabs@.len() ==> {
                    let c = #[trigger] layout.tabs@[j];
                    &&& c.x == STRIP_ORIGIN_X + j * (TAB_WIDTH + TAB_PADDING)
                    &&& c.y == STRIP_ORIGIN_Y
                    &&& c.width == TAB_WIDTH
                },
            layout.add_tab.x == STRIP_ORIGIN_X + self.tabs@.len() * (TAB_WIDTH + TAB_PADDING),
            layout.add_tab.y == STRIP_ORIGIN_Y + ADD_TAB_Y_OFFSET,
            layout.add_tab.width == ADD_TAB_WIDTH,
    {
        let mut placements: Vec<ControlPlacement> = Vec::new();
        let mut start_x: u64 = self.starting_x;
        let start_y: u64 = self.starting_y;
        let mut i: usize = 0;
        while i < self.tabs.len()
            invariant
                self.wf(),
                self.tabs@.len() <= MAX_TABS,
                i <= self.tabs@.len(),
                start_x == STRIP_ORIGIN_X + i * (TAB_WIDTH + TAB_PADDING),
                start_y == STRIP_ORIGIN_Y,
                placements@.len() == i,
                forall|j: int|
                    0 <= j < i ==> {
                        let c = #[trigger] placements@[j];
                        &&& c.x == STRIP_ORIGIN_X + j * (TAB_WIDTH + TAB_PADDING)
                        &&& c.y == STRIP_ORIGIN_Y
                        &&& c.width == TAB_WIDTH
                    },
            decreases self.tabs@.len() - i,
        {
            let tab = &self.tabs[i];
            proof {
                assert(self.tabs@[i as int].width == TAB_WIDTH);
                assert(self.tabs@[i as int].padding == TAB_PADDING);
                assert(i < MAX_TABS);
                assert(STRIP_ORIGIN_X + MAX_TABS * (TAB_WIDTH + TAB_PADDING) < u64::MAX);
                assert(i * (TAB_WIDTH + TAB_PADDING) <= MAX_TABS * (TAB_WIDTH + TAB_PADDING))
                    by (nonlinear_arith)
                    requires
                        0 <= i <= MAX_TABS,
                ;
            }
            placements.push(ControlPlacement { x: start_x, y: start_y, width: tab.width });
            start_x = start_x + tab.width + tab.padding;
            i = i + 1;
            proof {
                assert(i * (TAB_WIDTH + TAB_PADDING) == (i - 1) * (TAB_WIDTH + TAB_PADDING) + (
                TAB_WIDTH + TAB_PADDING)) by (nonlinear_arith);
            }
        }
        StripLayout {
            tabs: placements,
            add_tab: ControlPlacement {
                x: start_x,
                y: start_y + ADD_TAB_Y_OFFSET,
                width: ADD_TAB_WIDTH,
            },
        }
    }
}

} // verus!
