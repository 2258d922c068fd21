//! The strip that shows the tabs: what it holds, where the pointer hits it,
//! how it is drawn, and what its messages ask for.

use vstd::prelude::*;

use crate::host::{
    Reply, TabError, MK_CONTROL, WM_COMMAND, WM_LBUTTONDOWN, WM_MBUTTONDOWN, WM_MOUSELEAVE,
    WM_MOUSEMOVE, WM_PAINT, WM_RBUTTONUP,
};
use crate::tabs::geometry::{Point, Rect};

verus! {

/// The lasting name of a tab, whatever its place in the strip.
pub type TabKey = usize;

/// The place of a tab in the strip, counted from the left.
pub type TabIndex = usize;

/// One tab of the strip as it is shown: the key of the tab and its title.
#[derive(Debug)]
pub struct TabItem {
    key: TabKey,
    title: String,
}

/// The mathematical value of a [`TabItem`].
pub struct ItemView {
    pub key: TabKey,
    pub title: Seq<char>,
}

impl View for TabItem {
    type V = ItemView;

    closed spec fn view(&self) -> ItemView {
        ItemView { key: self.key, title: self.title@ }
    }
}

impl DeepView for TabItem {
    type V = ItemView;

    open spec fn deep_view(&self) -> ItemView {
        self@
    }
}

/// The strip of tabs: the tabs from left to right, which of them is selected
/// and which is under the pointer, and whether the strip is drawn dark.
#[derive(Debug)]
pub struct TabControl {
    handle: isize,
    dark_mode: bool,
    items: Vec<TabItem>,
    selected_tab: Option<TabIndex>,
    focused_tab: Option<TabIndex>,
}

/// The mathematical value of a [`TabControl`].
pub struct TabControlView {
    pub handle: isize,
    pub dark_mode: bool,
    pub items: Seq<ItemView>,
    pub selected: Option<TabIndex>,
    pub focused: Option<TabIndex>,
}

impl TabControlView {
    /// The tabs can be counted, and a selection, where there is one, is a
    /// tab of the strip.
    pub open spec fn wf(self) -> bool {
        &&& self.items.len() <= usize::MAX
        &&& self.selected matches Some(selected) ==> selected < self.items.len()
    }

    /// The selection after a tab has come in at `index`: the first tab of a
    /// strip is selected as it comes, and a selection at or right of `index`
    /// moves right with its tab.
    pub open spec fn selected_after_insert(self, index: int) -> Option<TabIndex> {
        if self.items.len() == 0 {
            Some(0)
        } else {
            match self.selected {
                Some(selected) if index <= selected => Some((selected + 1) as usize),
                other => other,
            }
        }
    }

    /// The selection after the tab at `index` has left: that of the tab
    /// itself is gone, and one right of it moves left with its tab.
    pub open spec fn selected_after_remove(self, index: int) -> Option<TabIndex> {
        match self.selected {
            Some(selected) if index == selected => None,
            Some(selected) if index < selected => Some((selected - 1) as usize),
            other => other,
        }
    }

    /// The strip after a tab with `title` and `key` has come in at `index`.
    pub open spec fn add_tab(self, title: Seq<char>, index: int, key: TabKey) -> TabControlView
        recommends
            0 <= index <= self.items.len(),
    {
        TabControlView {
            items: self.items.insert(index, ItemView { key, title }),
            selected: self.selected_after_insert(index),
            ..self
        }
    }

    /// The strip after the tab at `index` has left.
    pub open spec fn remove_tab(self, index: int) -> TabControlView
        recommends
            0 <= index < self.items.len(),
    {
        TabControlView {
            items: self.items.remove(index),
            selected: self.selected_after_remove(index),
            ..self
        }
    }

    /// The strip after the tab at `index` has been given `title`.
    pub open spec fn set_tab_title(self, index: int, title: Seq<char>) -> TabControlView
        recommends
            0 <= index < self.items.len(),
    {
        TabControlView {
            items: self.items.update(index, ItemView { key: self.items[index].key, title }),
            ..self
        }
    }

    /// The strip after the tab at `index` has been selected.
    pub open spec fn set_selected_tab(self, index: TabIndex) -> TabControlView {
        TabControlView { selected: Some(index), ..self }
    }
}

/// The selection stays with its tab while other tabs come and go: after a
/// tab has come in anywhere, and after any other tab has left, the selected
/// tab is the one that was selected before.
pub proof fn lemma_selection_follows_tab(
    strip: TabControlView,
    title: Seq<char>,
    index: int,
    key: TabKey,
)
    requires
        strip.wf(),
        strip.selected is Some,
        0 <= index <= strip.items.len(),
    ensures
        ({
            let added = strip.add_tab(title, index, key);
            &&& added.selected is Some
            &&& added.items[added.selected->0 as int] == strip.items[strip.selected->0 as int]
        }),
        index < strip.items.len() && strip.selected != Some(index as usize) ==> ({
            let removed = strip.remove_tab(index);
            &&& removed.selected is Some
            &&& removed.items[removed.selected->0 as int] == strip.items[strip.selected->0 as int]
        }),
{
}

impl View for TabControl {
    type V = TabControlView;

    closed spec fn view(&self) -> TabControlView {
        TabControlView {
            handle: self.handle,
            dark_mode: self.dark_mode,
            items: self.items.deep_view(),
            selected: self.selected_tab,
            focused: self.focused_tab,
        }
    }
}

impl TabControl {
    /// An empty strip for the window `handle`.
    pub fn new(handle: isize, dark_mode: bool) -> (control: TabControl)
        ensures
            control@ == (TabControlView {
                handle,
                dark_mode,
                items: Seq::empty(),
                selected: None,
                focused: None,
            }),
            control@.wf(),
    {
        let control = TabControl {
            handle,
            dark_mode,
            items: Vec::new(),
            selected_tab: None,
            focused_tab: None,
        };
        assert(control.items.deep_view() =~= Seq::empty());
        control
    }

    /// The window that shows the strip.
    pub fn handle(&self) -> (handle: isize)
        ensures
            handle == self@.handle,
    {
        self.handle
    }

    pub fn dark_mode(&self) -> (dark: bool)
        ensures
            dark == self@.dark_mode,
    {
        self.dark_mode
    }

    pub fn set_dark_mode(&mut self, dark: bool)
        ensures
            final(self)@ == (TabControlView { dark_mode: dark, ..old(self)@ }),
    {
        self.dark_mode = dark;
    }

    /// Puts a tab into the strip at `index`, which may be any place from the
    /// left end to just past the right end; any other is turned down with
    /// `OperationFailed` and leaves the strip as it was.
    pub fn add_tab(&mut self, title: String, index: TabIndex, key: TabKey) -> (done: Result<
        (),
        TabError,
    >)
        requires
            old(self)@.wf(),
        ensures
            final(self)@.wf(),
            match done {
                Ok(_) => {
                    &&& index <= old(self)@.items.len()
                    &&& final(self)@ == old(self)@.add_tab(title@, index as int, key)
                },
                Err(e) => {
                    &&& index > old(self)@.items.len()
                    &&& e == TabError::OperationFailed
                    &&& final(self)@ == old(self)@
                },
            },
    {
        if index > self.items.len() {
            return Err(TabError::OperationFailed);
        }
        let selected = if self.items.len() == 0 {
            Some(0)
        } else {
            match self.selected_tab {
                Some(selected) if index <= selected => Some(selected + 1),
                other => other,
            }
        };
        self.items.insert(index, TabItem { key, title });
        self.selected_tab = selected;
        assert(self.items.deep_view() =~= old(self)@.items.insert(
            index as int,
            ItemView { key, title: title@ },
        ));
        assert(self.items.deep_view().len() == self.items.len());
        Ok(())
    }

    /// Gives the tab at `index` the title `title`; where there is no such
    /// tab the strip stays as it was and the error is `OperationFailed`.
    pub fn set_tab_title(&mut self, index: TabIndex, title: String) -> (done: Result<(), TabError>)
        ensures
            match done {
                Ok(_) => {
                    &&& index < old(self)@.items.len()
                    &&& final(self)@ == old(self)@.set_tab_title(index as int, title@)
                },
                Err(e) => {
                    &&& index >= old(self)@.items.len()
                    &&& e == TabError::OperationFailed
                    &&& final(self)@ == old(self)@
                },
            },
    {
        if index >= self.items.len() {
            return Err(TabError::OperationFailed);
        }
        let key = self.items[index].key;
        self.items.set(index, TabItem { key, title });
        assert(self.items.deep_view() =~= old(self)@.items.update(
            index as int,
            ItemView { key, title: title@ },
        ));
        Ok(())
    }

    /// Selects the tab at `index`; where there is no such tab the strip
    /// stays as it was and the error is `OperationFailed`.
    pub fn set_selected_tab(&mut self, index: TabIndex) -> (done: Result<(), TabError>)
        ensures
            match done {
                Ok(_) => {
                    &&& index < old(self)@.items.len()
                    &&& final(self)@ == old(self)@.set_selected_tab(index)
                },
                Err(e) => {
                    &&& index >= old(self)@.items.len()
                    &&& e == TabError::OperationFailed
                    &&& final(self)@ == old(self)@
                },
            },
            old(self)@.wf() ==> final(self)@.wf(),
    {
        if index >= self.items.len() {
            return Err(TabError::OperationFailed);
        }
        self.selected_tab = Some(index);
        Ok(())
    }

    /// How many tabs the strip shows.
    pub fn get_tab_count(&self) -> (count: usize)
        ensures
            count == self@.items.len(),
    {
        self.items.len()
    }

    /// The place of the selected tab, if one is selected.
    pub fn get_selected_tab_index(&self) -> (selected: Option<TabIndex>)
        ensures
            selected == self@.selected,
    {
        self.selected_tab
    }

    /// The place of the tab under the pointer, as last seen.
    pub fn get_focused_tab_index(&self) -> (focused: Option<TabIndex>)
        ensures
            focused == self@.focused,
    {
        self.focused_tab
    }

    /// The key of the tab at `index`, or `NotFound` where there is none.
    pub fn get_tab_key(&self, index: TabIndex) -> (key: Result<TabKey, TabError>)
        ensures
            match key {
                Ok(key) => index < self@.items.len() && key == self@.items[index as int].key,
                Err(e) => index >= self@.items.len() && e == TabError::NotFound,
            },
    {
        if index >= self.items.len() {
            return Err(TabError::NotFound);
        }
        Ok(self.items[index].key)
    }

    /// The title of the tab at `index`, or `NotFound` where there is none.
    pub fn get_tab_text(&self, index: TabIndex) -> (text: Result<String, TabError>)
        ensures
            match text {
                Ok(text) => index < self@.items.len() && text@ == self@.items[index as int].title,
                Err(e) => index >= self@.items.len() && e == TabError::NotFound,
            },
    {
        if index >= self.items.len() {
            return Err(TabError::NotFound);
        }
        Ok(self.items[index].title.clone())
    }

    /// Takes the tab at `index` out of the strip; where there is no such tab
    /// the strip stays as it was and the error is `OperationFailed`.
    pub fn remove_tab(&mut self, index: TabIndex) -> (done: Result<(), TabError>)
        requires
            old(self)@.wf(),
        ensures
            final(self)@.wf(),
            match done {
                Ok(_) => {
                    &&& index < old(self)@.items.len()
                    &&& final(self)@ == old(self)@.remove_tab(index as int)
                },
                Err(e) => {
                    &&& index >= old(self)@.items.len()
                    &&& e == TabError::OperationFailed
                    &&& final(self)@ == old(self)@
                },
            },
    {
        if index >= self.items.len() {
            return Err(TabError::OperationFailed);
        }
        let selected = match self.selected_tab {
            Some(selected) if index == selected => None,
            Some(selected) if index < selected => Some(selected - 1),
            other => other,
        };
        self.items.remove(index);
        self.selected_tab = selected;
        assert(self.items.deep_view() =~= old(self)@.items.remove(index as int));
        Ok(())
    }
}

/// The colour behind the tabs of a dark strip.
pub const BACKGROUND: u32 = 0x191919;

/// The fill of the tab under the pointer.
pub const BG_FOCUSED_TAB: u32 = 0x4d4d4d;

/// The fill of the selected tab.
pub const BG_SELECTED_TAB: u32 = 0x191919;

/// The fill of any other tab.
pub const BG_UNFOCUSED_TAB: u32 = 0x202020;

/// The colour of the line round a tab.
pub const BORDER_COLOR: u32 = 0x2b2b2b;

/// The colour of the titles.
pub const TEXT_COLOR: u32 = 0xffffff;

/// How far a tab that is not selected stands below the top of its place, and
/// how far a title stands below the top of its tab.
pub const INSET: i32 = 2;

/// How one tab of a dark strip is to be drawn.
#[derive(Debug)]
pub struct TabDrawing {
    /// The place of the tab in the strip.
    pub index: TabIndex,
    /// The rectangle to fill.
    pub fill: Rect,
    /// The colour to fill it with.
    pub color: u32,
    /// The line round the tab: up its left side, along its top and down its
    /// right side. The bottom stays open.
    pub edges: [Point; 4],
    /// The rectangle in which the title is centred.
    pub text: Rect,
    /// The title.
    pub title: String,
}

/// The mathematical value of a [`TabDrawing`].
pub struct TabDrawingView {
    pub index: TabIndex,
    pub fill: Rect,
    pub color: u32,
    pub edges: Seq<Point>,
    pub text: Rect,
    pub title: Seq<char>,
}

impl View for TabDrawing {
    type V = TabDrawingView;

    open spec fn view(&self) -> TabDrawingView {
        TabDrawingView {
            index: self.index,
            fill: self.fill,
            color: self.color,
            edges: self.edges@,
            text: self.text,
            title: self.title@,
        }
    }
}

impl DeepView for TabDrawing {
    type V = TabDrawingView;

    open spec fn deep_view(&self) -> TabDrawingView {
        self@
    }
}

/// The fill of a tab: that of the selected tab where it is selected, else
/// that of the tab under the pointer where it is that, else the plain one.
pub open spec fn fill_color(selected: bool, focused: bool) -> u32 {
    if selected {
        BG_SELECTED_TAB
    } else if focused {
        BG_FOCUSED_TAB
    } else {
        BG_UNFOCUSED_TAB
    }
}

/// Whether every one of the first `count` rectangles leaves room below its
/// top for the two insets.
pub open spec fn can_inset(rects: Seq<Rect>, count: int) -> bool {
    forall|i: int| 0 <= i < count && i < rects.len() ==> (#[trigger] rects[i]).top + 2 * INSET <= i32::MAX
}

impl TabControlView {
    /// Whether the strip can be drawn in `rects`: every tab has a rectangle,
    /// and in each there is room for the insets.
    pub open spec fn can_paint(self, rects: Seq<Rect>) -> bool {
        rects.len() >= self.items.len() && can_inset(rects, self.items.len() as int)
    }

    /// Whether the tab at `index` has a rectangle and the point lies in it.
    pub open spec fn hits(self, rects: Seq<Rect>, x: int, y: int, index: int) -> bool {
        &&& 0 <= index < self.items.len()
        &&& index < rects.len()
        &&& rects[index].contains(x, y)
    }

    /// Whether `index` is the leftmost tab whose rectangle holds the point.
    pub open spec fn hits_first(self, rects: Seq<Rect>, x: int, y: int, index: int) -> bool {
        &&& self.hits(rects, x, y, index)
        &&& forall|j: int| 0 <= j < index ==> !self.hits(rects, x, y, j)
    }

    /// The tab at the point `(x, y)`, where `rects` gives the rectangle of
    /// each tab in turn: the leftmost tab whose rectangle holds the point, or
    /// none where no rectangle does.
    pub open spec fn tab_at(self, rects: Seq<Rect>, x: int, y: int) -> Option<TabIndex> {
        if exists|i: int| self.hits_first(rects, x, y, i) {
            Some((choose|i: int| self.hits_first(rects, x, y, i)) as usize)
        } else {
            None
        }
    }

    /// How the tab at `index` is drawn in the rectangle `rects[index]`. The
    /// selected tab fills its rectangle; any other stands `INSET` lower. The
    /// title stands `INSET` below the top of the tab.
    pub open spec fn drawing(self, rects: Seq<Rect>, index: int) -> TabDrawingView {
        let rect = rects[index];
        let selected = self.selected == Some(index as usize);
        let top = if selected {
            rect.top
        } else {
            (rect.top + INSET) as i32
        };
        TabDrawingView {
            index: index as usize,
            fill: Rect { top, ..rect },
            color: fill_color(selected, self.focused == Some(index as usize)),
            edges: seq![
                Point { x: rect.left, y: rect.bottom },
                Point { x: rect.left, y: top },
                Point { x: rect.right, y: top },
                Point { x: rect.right, y: rect.bottom },
            ],
            text: Rect { top: (top + INSET) as i32, ..rect },
            title: self.items[index].title,
        }
    }

    /// The drawings of those of the first `count` tabs whose rectangle meets
    /// `dirty`, from left to right.
    pub open spec fn painted(self, rects: Seq<Rect>, dirty: Rect, count: int) -> Seq<
        TabDrawingView,
    >
        decreases count,
    {
        if count <= 0 {
            Seq::empty()
        } else {
            let before = self.painted(rects, dirty, count - 1);
            if rects[count - 1].intersects(dirty) {
                before.push(self.drawing(rects, count - 1))
            } else {
                before
            }
        }
    }
}

impl TabControl {
    /// The tab at the point `(x, y)`, where `rects` gives the rectangle of
    /// each tab in turn.
    pub fn get_tab_at_coords(&self, rects: &Vec<Rect>, x: i32, y: i32) -> (hit: Option<TabIndex>)
        ensures
            hit == self@.tab_at(rects@, x as int, y as int),
            match hit {
                Some(index) => self@.hits_first(rects@, x as int, y as int, index as int),
                None => forall|j: int| !self@.hits(rects@, x as int, y as int, j),
            },
    {
        let mut index: usize = 0;
        while index < self.items.len() && index < rects.len()
            invariant
                forall|j: int| 0 <= j < index ==> !self@.hits(rects@, x as int, y as int, j),
            decreases self.items.len() - index,
        {
            if rects[index].contains_point(x, y) {
                proof {
                    let first = self@.tab_at(rects@, x as int, y as int);
                    assert(self@.hits_first(rects@, x as int, y as int, index as int));
                    let chosen = choose|i: int| self@.hits_first(rects@, x as int, y as int, i);
                    assert(self@.hits_first(rects@, x as int, y as int, chosen));
                    assert(chosen == index);
                }
                return Some(index);
            }
            index += 1;
        }
        assert forall|j: int| !self@.hits(rects@, x as int, y as int, j) by {
            if self@.hits(rects@, x as int, y as int, j) {
                assert(j < index);
            }
        }
        None
    }

    /// Plans the drawing of a dark strip after `dirty` has been filled with
    /// `BACKGROUND`: one drawing for each tab whose rectangle meets `dirty`,
    /// from left to right, where `rects` gives the rectangle of each tab in
    /// turn. With fewer rectangles than tabs, or with the rectangle of a tab
    /// so low that the insets do not fit, the error is `OperationFailed`.
    pub fn paint(&self, rects: &Vec<Rect>, dirty: &Rect) -> (plan: Result<
        Vec<TabDrawing>,
        TabError,
    >)
        ensures
            match plan {
                Ok(drawings) => {
                    &&& self@.can_paint(rects@)
                    &&& drawings.deep_view() == self@.painted(
                        rects@,
                        *dirty,
                        self@.items.len() as int,
                    )
                },
                Err(e) => !self@.can_paint(rects@) && e == TabError::OperationFailed,
            },
    {
        if rects.len() < self.items.len() {
            return Err(TabError::OperationFailed);
        }
        let mut drawings: Vec<TabDrawing> = Vec::new();
        let mut index: usize = 0;
        assert(drawings.deep_view() =~= self@.painted(rects@, *dirty, 0));
        while index < self.items.len()
            invariant
                index <= self.items.len() <= rects.len(),
                can_inset(rects@, index as int),
                drawings.deep_view() == self@.painted(rects@, *dirty, index as int),
            decreases self.items.len() - index,
        {
            let rect = rects[index];
            if rect.top > i32::MAX - 2 * INSET {
                return Err(TabError::OperationFailed);
            }
            if rect.intersects_rect(dirty) {
                let selected = self.selected_tab == Some(index);
                let focused = self.focused_tab == Some(index);
                let top = if selected {
                    rect.top
                } else {
                    rect.top + INSET
                };
                let color = if selected {
                    BG_SELECTED_TAB
                } else if focused {
                    BG_FOCUSED_TAB
                } else {
                    BG_UNFOCUSED_TAB
                };
                let drawing = TabDrawing {
                    index,
                    fill: Rect { left: rect.left, top, right: rect.right, bottom: rect.bottom },
                    color,
                    edges: [
                        Point { x: rect.left, y: rect.bottom },
                        Point { x: rect.left, y: top },
                        Point { x: rect.right, y: top },
                        Point { x: rect.right, y: rect.bottom },
                    ],
                    text: Rect {
                        left: rect.left,
                        top: top + INSET,
                        right: rect.right,
                        bottom: rect.bottom,
                    },
                    title: self.items[index].title.clone(),
                };
                assert(drawing@.edges =~= self@.drawing(rects@, index as int).edges);
                assert(drawing@ == self@.drawing(rects@, index as int));
                drawings.push(drawing);
                assert(drawings.deep_view() =~= self@.painted(rects@, *dirty, index as int).push(
                    self@.drawing(rects@, index as int),
                ));
            }
            index += 1;
        }
        Ok(drawings)
    }
}

/// What the plan of a drawing holds: a tab is drawn if and only if it is
/// among the first `count` and its rectangle meets `dirty`; each is drawn
/// as [`TabControlView::drawing`] says; and the tabs come from left to right.
pub proof fn lemma_painted(strip: TabControlView, rects: Seq<Rect>, dirty: Rect, count: int)
    requires
        0 <= count <= usize::MAX,
    ensures
        strip.painted(rects, dirty, count).len() <= count,
        forall|k: int|
            0 <= k < strip.painted(rects, dirty, count).len() ==> {
                let drawn = #[trigger] strip.painted(rects, dirty, count)[k];
                &&& drawn.index < count
                &&& rects[drawn.index as int].intersects(dirty)
                &&& drawn == strip.drawing(rects, drawn.index as int)
            },
        forall|k: int, l: int|
            0 <= k < l < strip.painted(rects, dirty, count).len() ==> (#[trigger] strip.painted(
                rects,
                dirty,
                count,
            )[k]).index < (#[trigger] strip.painted(rects, dirty, count)[l]).index,
        forall|i: int|
            0 <= i < count && (#[trigger] rects[i]).intersects(dirty) ==> exists|k: int|
                0 <= k < strip.painted(rects, dirty, count).len() && (#[trigger] strip.painted(
                    rects,
                    dirty,
                    count,
                )[k]).index == i,
    decreases count,
{
    if count > 0 {
        lemma_painted(strip, rects, dirty, count - 1);
        let before = strip.painted(rects, dirty, count - 1);
        let plan = strip.painted(rects, dirty, count);
        assert forall|i: int| 0 <= i < count && (#[trigger] rects[i]).intersects(
            dirty,
        ) implies exists|k: int|
            0 <= k < plan.len() && (#[trigger] plan[k]).index == i by {
            if i < count - 1 {
                let k = choose|k: int| 0 <= k < before.len() && (#[trigger] before[k]).index == i;
                assert(plan[k] == before[k]);
            } else {
                assert(plan[plan.len() - 1].index == i);
            }
        }
    }
}

/// The command of the strip's menu that switches between dark and light.
pub const TOGGLE_DARK_MODE: usize = 1001;

/// What a message to the strip asks for.
#[derive(Clone, Copy, Debug, PartialEq, Eq, Structural)]
pub enum InputAction {
    /// Nothing.
    Nothing,
    /// Switch between dark and light, and draw the strip anew.
    ToggleDarkMode,
    /// Draw the strip as [`TabControl::paint`] plans it.
    Paint,
    /// Close the tab at this place.
    RemoveTab(TabIndex),
    /// Open a second tab at the place of the tab at this place.
    CloneTab(TabIndex),
    /// Go to the tab at this place.
    SwitchTab(TabIndex),
    /// Show the strip's menu.
    PopupMenu,
    /// Draw the strip anew.
    Repaint,
}

/// The horizontal place of the pointer in the `lparam` of a pointer message:
/// its low 16 bits, read as a signed number.
pub open spec fn pointer_x(lparam: isize) -> i32 {
    ((lparam & 0xffff) as i16) as i32
}

/// The vertical place of the pointer in the `lparam` of a pointer message:
/// the 16 bits above the low 16, read as a signed number.
pub open spec fn pointer_y(lparam: isize) -> i32 {
    (((lparam >> 16) & 0xffff) as i16) as i32
}

/// The `lparam` that carries the point `(x, y)`.
pub open spec fn pointer_at(x: i16, y: i16) -> isize {
    (((y as u16) as isize) << 16) | ((x as u16) as isize)
}

/// A point put into an `lparam` is the point read out of it.
pub proof fn lemma_pointer_read_back(x: i16, y: i16)
    ensures
        pointer_x(pointer_at(x, y)) == x,
        pointer_y(pointer_at(x, y)) == y,
{
    assert((((((y as u16) as isize) << 16) | ((x as u16) as isize)) & 0xffff) as i16 == x)
        by (bit_vector);
    assert(((((((y as u16) as isize) << 16) | ((x as u16) as isize)) >> 16) & 0xffff) as i16 == y)
        by (bit_vector);
}

impl TabControlView {
    /// What a press of the primary button asks for: with the control key
    /// held, a copy of the tab under the pointer; without, that tab itself;
    /// with no tab under the pointer, nothing.
    pub open spec fn left_click(self, flags: usize) -> InputAction {
        match self.focused {
            Some(index) => if flags & MK_CONTROL != 0 {
                InputAction::CloneTab(index)
            } else {
                InputAction::SwitchTab(index)
            },
            None => InputAction::Nothing,
        }
    }

    /// What the message asks for.
    pub open spec fn input_action(
        self,
        message: u32,
        wparam: usize,
        lparam: isize,
        rects: Seq<Rect>,
    ) -> InputAction {
        if message == WM_COMMAND {
            if wparam == TOGGLE_DARK_MODE {
                InputAction::ToggleDarkMode
            } else {
                InputAction::Nothing
            }
        } else if message == WM_PAINT {
            if self.dark_mode {
                InputAction::Paint
            } else {
                InputAction::Nothing
            }
        } else if message == WM_MBUTTONDOWN {
            match self.focused {
                Some(index) => InputAction::RemoveTab(index),
                None => InputAction::Nothing,
            }
        } else if message == WM_LBUTTONDOWN {
            self.left_click(wparam)
        } else if message == WM_RBUTTONUP {
            InputAction::PopupMenu
        } else if message == WM_MOUSEMOVE {
            if self.tab_at(rects, pointer_x(lparam) as int, pointer_y(lparam) as int)
                != self.focused {
                InputAction::Repaint
            } else {
                InputAction::Nothing
            }
        } else if message == WM_MOUSELEAVE {
            InputAction::Repaint
        } else {
            InputAction::Nothing
        }
    }

    /// The strip after the message: a move of the pointer puts the tab at
    /// the pointer under it, the pointer's leaving puts none there, and no
    /// other message changes the strip.
    pub open spec fn after_input(self, message: u32, lparam: isize, rects: Seq<Rect>) -> TabControlView {
        if message == WM_MOUSEMOVE {
            TabControlView {
                focused: self.tab_at(rects, pointer_x(lparam) as int, pointer_y(lparam) as int),
                ..self
            }
        } else if message == WM_MOUSELEAVE {
            TabControlView { focused: None, ..self }
        } else {
            self
        }
    }
}

/// Whether the rectangles of the tabs are looked at when `message` is
/// taken: only a move of the pointer is placed among them.
pub fn wants_rects(message: u32) -> (wanted: bool)
    ensures
        wanted == (message == WM_MOUSEMOVE),
{
    message == WM_MOUSEMOVE
}

/// What a message asks for, and what it does to the strip, depends on the
/// rectangles of the tabs for a move of the pointer alone.
pub proof fn lemma_rects_matter_for_pointer_moves(
    strip: TabControlView,
    message: u32,
    wparam: usize,
    lparam: isize,
    rects: Seq<Rect>,
    others: Seq<Rect>,
)
    requires
        message != WM_MOUSEMOVE,
    ensures
        strip.input_action(message, wparam, lparam, rects) == strip.input_action(
            message,
            wparam,
            lparam,
            others,
        ),
        strip.after_input(message, lparam, rects) == strip.after_input(message, lparam, others),
{
}

impl TabControl {
    /// What a press of the primary button asks for, `flags` telling which
    /// keys are held.
    pub fn handle_left_click(&self, flags: usize) -> (action: InputAction)
        ensures
            action == self@.left_click(flags),
    {
        match self.focused_tab {
            Some(index) => if flags & MK_CONTROL != 0 {
                InputAction::CloneTab(index)
            } else {
                InputAction::SwitchTab(index)
            },
            None => InputAction::Nothing,
        }
    }

    /// Takes a message to the strip's window: follows the pointer, and says
    /// what the message asks for. `rects` gives the rectangle of each tab in
    /// turn.
    pub fn window_procedure(
        &mut self,
        message: u32,
        wparam: usize,
        lparam: isize,
        rects: &Vec<Rect>,
    ) -> (action: InputAction)
        ensures
            action == old(self)@.input_action(message, wparam, lparam, rects@),
            final(self)@ == old(self)@.after_input(message, lparam, rects@),
    {
        if message == WM_COMMAND {
            if wparam == TOGGLE_DARK_MODE {
                InputAction::ToggleDarkMode
            } else {
                InputAction::Nothing
            }
        } else if message == WM_PAINT {
            if self.dark_mode {
                InputAction::Paint
            } else {
                InputAction::Nothing
            }
        } else if message == WM_MBUTTONDOWN {
            match self.focused_tab {
                Some(index) => InputAction::RemoveTab(index),
                None => InputAction::Nothing,
            }
        } else if message == WM_LBUTTONDOWN {
            self.handle_left_click(wparam)
        } else if message == WM_RBUTTONUP {
            InputAction::PopupMenu
        } else if message == WM_MOUSEMOVE {
            let x = #[verifier::truncate] ((lparam & 0xffff) as i16);
            let y = #[verifier::truncate] (((lparam >> 16) & 0xffff) as i16);
            let focused = self.get_tab_at_coords(rects, x as i32, y as i32);
            if focused != self.focused_tab {
                self.focused_tab = focused;
                InputAction::Repaint
            } else {
                InputAction::Nothing
            }
        } else if message == WM_MOUSELEAVE {
            self.focused_tab = None;
            InputAction::Repaint
        } else {
            InputAction::Nothing
        }
    }

    /// The procedure of the toolbar that holds the strip: a release of the
    /// secondary button stops here, so that the toolbar shows no menu of its
    /// own, and every other message goes on.
    pub fn tool_bar_proc(message: u32, lparam: isize) -> (reply: Reply)
        ensures
            reply == if message == WM_RBUTTONUP {
                Reply::Handled(0)
            } else {
                Reply::Forward(lparam)
            },
    {
        if message == WM_RBUTTONUP {
            Reply::Handled(0)
        } else {
            Reply::Forward(lparam)
        }
    }
}

/// The text that `String::from_utf16_lossy` makes of these UTF-16 units.
pub uninterp spec fn utf16_lossy(units: Seq<u16>) -> Seq<char>;

/// `String::from_utf16_lossy`: the text that the units spell in UTF-16, with
/// the replacement character for each unit that is half of no pair. The text
/// depends on the units alone; it is named here and not described.
#[verifier::external_body]
fn from_utf16_lossy(units: &[u16]) -> (text: String)
    ensures
        text@ == utf16_lossy(units@),
{
    String::from_utf16_lossy(units)
}

/// Whether the text in `units` ends at `len`: at the first unit that is
/// zero, or at the end where none is.
pub open spec fn text_ends_at(units: Seq<u16>, len: int) -> bool {
    &&& 0 <= len <= units.len()
    &&& forall|i: int| 0 <= i < len ==> units[i] != 0
    &&& len < units.len() ==> units[len] == 0
}

/// The units of the text in `units`: those before the first zero.
pub open spec fn wide_text(units: Seq<u16>) -> Seq<u16> {
    units.take(choose|len: int| text_ends_at(units, len))
}

/// Reads a wide string: the text of `pwstr` up to its first zero unit, or
/// all of it where no unit is zero. Without a string the error is
/// `OperationFailed`.
pub fn pwstr_to_string(pwstr: Option<&Vec<u16>>) -> (text: Result<String, TabError>)
    ensures
        match text {
            Ok(text) => pwstr matches Some(units) && text@ == utf16_lossy(wide_text(units@)),
            Err(e) => pwstr is None && e == TabError::OperationFailed,
        },
{
    let units = match pwstr {
        None => {
            return Err(TabError::OperationFailed);
        },
        Some(units) => units,
    };
    let mut end: usize = 0;
    while end < units.len() && units[end] != 0
        invariant
            end <= units.len(),
            forall|i: int| 0 <= i < end ==> units[i] != 0,
        decreases units.len() - end,
    {
        end += 1;
    }
    proof {
        assert(text_ends_at(units@, end as int));
        let chosen = choose|len: int| text_ends_at(units@, len);
        assert(text_ends_at(units@, chosen));
        assert(chosen == end);
    }
    let text = from_utf16_lossy(vstd::slice::slice_subrange(units.as_slice(), 0, end));
    Ok(text)
}

} // verus!
