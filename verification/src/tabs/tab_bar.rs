//! The tab bar: the tabs with their histories, the strip that shows them, and
//! what each operation does to both and asks of the host.

use std::collections::HashMap;
use vstd::prelude::*;

use crate::host::{
    result_view, HostCommand, HostCommandView, Reply, TabError, BROWSE_AFTER_STEP, BROWSE_TO_TAB,
};
use crate::idl::{ShellName, ShellNameView};
use crate::settings::Settings;
use crate::tabs::geometry::Rect;
use crate::tabs::tab::{clone_path, PathView, Tab, TabPath, TabView};
use crate::tabs::tab_control::{
    pwstr_to_string, utf16_lossy, wide_text, InputAction, TabControl, TabControlView, TabIndex,
    TabKey,
};
use crate::tabs::travel_bar_control::{marked, TravelBarControl};

verus! {

/// The button of the travel toolbar that goes back.
pub const BACK_BUTTON: usize = 256;

/// The button of the travel toolbar that goes forward.
pub const FORWARD_BUTTON: usize = 257;

/// The title of a tab at `path`: three question marks for a tab that is
/// nowhere or whose place has a null name, nothing where the name could not
/// be looked up, and else the text of the name.
pub open spec fn tab_name(path: PathView) -> Seq<char> {
    match path {
        None => "???"@,
        Some(idl) => match idl.name {
            ShellNameView::Unavailable => Seq::empty(),
            ShellNameView::Null => "???"@,
            ShellNameView::Wide(units) => utf16_lossy(wide_text(units)),
        },
    }
}

/// The title of a tab at `pidl`.
pub fn get_tab_name(pidl: &TabPath) -> (name: String)
    ensures
        name@ == tab_name(pidl.deep_view()),
{
    let pidl = match pidl {
        None => {
            return "???".to_owned();
        },
        Some(pidl) => pidl,
    };
    let name = match pidl.name() {
        ShellName::Unavailable => {
            return String::new();
        },
        ShellName::Null => pwstr_to_string(None),
        ShellName::Wide(units) => pwstr_to_string(Some(units)),
    };
    match name {
        Ok(name) => name,
        Err(_) => "???".to_owned(),
    }
}

/// How far a request to close a tab has come.
#[derive(Debug)]
pub enum Removal {
    /// The tab is the only one and stays.
    Kept,
    /// The tab is gone.
    Removed,
    /// The tab was the selected one and is still there; the selection has
    /// gone to its heir. Once the host has carried out the command, the tab
    /// is closed by asking again.
    Switched(HostCommand),
}

/// The mathematical value of a [`Removal`].
pub enum RemovalView {
    Kept,
    Removed,
    Switched(HostCommandView),
}

impl DeepView for Removal {
    type V = RemovalView;

    open spec fn deep_view(&self) -> RemovalView {
        match self {
            Removal::Kept => RemovalView::Kept,
            Removal::Removed => RemovalView::Removed,
            Removal::Switched(command) => RemovalView::Switched(command@),
        }
    }
}

/// What is left to do for a message to the strip once the tab bar has taken
/// it.
#[derive(Debug)]
pub enum Task {
    /// Nothing.
    Nothing,
    /// Nothing, and the message is not for the strip's own procedure.
    Done,
    /// Draw the strip anew.
    Repaint,
    /// Draw the strip as [`TabControl::paint`] plans it.
    Paint,
    /// Show the strip's menu.
    PopupMenu,
    /// Carry out the command.
    Run(HostCommand),
    /// Carry out the command and then hand the same message in once more.
    RunAndRepeat(HostCommand),
}

/// The mathematical value of a [`Task`].
pub enum TaskView {
    Nothing,
    Done,
    Repaint,
    Paint,
    PopupMenu,
    Run(HostCommandView),
    RunAndRepeat(HostCommandView),
}

impl DeepView for Task {
    type V = TaskView;

    open spec fn deep_view(&self) -> TaskView {
        match self {
            Task::Nothing => TaskView::Nothing,
            Task::Done => TaskView::Done,
            Task::Repaint => TaskView::Repaint,
            Task::Paint => TaskView::Paint,
            Task::PopupMenu => TaskView::PopupMenu,
            Task::Run(command) => TaskView::Run(command@),
            Task::RunAndRepeat(command) => TaskView::RunAndRepeat(command@),
        }
    }
}

/// What the strip's window procedure does once a task has been seen to.
#[derive(Clone, Copy, Debug, PartialEq, Eq, Structural)]
pub enum Next {
    /// It answers.
    Answer(Reply),
    /// It hands the same message to the tab bar once more.
    Repeat,
}

/// What follows a task, `performed` telling whether all that the task asked
/// for was done. A failure stops the message with 0; painting and the menu
/// stop it with 1 where they were done; a copy that was made stops it too,
/// so that the strip's own procedure does not select the tab under the
/// pointer; and else the message goes on to the strip's own procedure.
pub open spec fn next_step(task: Result<TaskView, TabError>, performed: bool, lparam: isize) -> Next {
    match task {
        Err(_) => Next::Answer(Reply::Handled(0)),
        Ok(TaskView::Nothing) => Next::Answer(Reply::Forward(lparam)),
        Ok(TaskView::Done) => Next::Answer(Reply::Handled(0)),
        Ok(TaskView::Repaint) => Next::Answer(Reply::Forward(lparam)),
        Ok(TaskView::Paint) | Ok(TaskView::PopupMenu) => Next::Answer(
            Reply::Handled(
                if performed {
                    1
                } else {
                    0
                },
            ),
        ),
        Ok(TaskView::Run(_)) => if performed {
            Next::Answer(Reply::Forward(lparam))
        } else {
            Next::Answer(Reply::Handled(0))
        },
        Ok(TaskView::RunAndRepeat(_)) => if performed {
            Next::Repeat
        } else {
            Next::Answer(Reply::Handled(0))
        },
    }
}

/// The mathematical value of a [`TabBar`]: the strip, and beside each tab of
/// the strip its history.
pub struct TabBarView {
    /// The strip.
    pub strip: TabControlView,
    /// The history of each tab of the strip, in the order of the strip.
    pub tabs: Seq<TabView>,
    /// The key that the next new tab gets.
    pub next_key: TabKey,
    /// The window of the travel toolbar.
    pub travel_toolbar: isize,
    /// The top window of the host.
    pub explorer_handle: isize,
}

/// What an operation on the tab bar leaves behind and hands back.
pub struct Outcome<T> {
    pub after: TabBarView,
    pub result: Result<T, TabError>,
}

/// The tab that takes over when the selected tab at `index` is to close: the
/// one to its left, or for the leftmost tab the one to its right.
pub open spec fn heir(index: TabIndex) -> TabIndex {
    if index == 0 {
        1
    } else {
        (index - 1) as usize
    }
}

/// The request to show the place `path`, with these flags, or `NotFound`
/// where there is no place.
pub open spec fn browse(path: PathView, flags: u32) -> Result<HostCommandView, TabError> {
    match path {
        Some(idl) => Ok(HostCommandView::Browse { path: idl, flags }),
        None => Err(TabError::NotFound),
    }
}

impl TabBarView {
    /// What every tab bar satisfies: each tab of the strip has a history;
    /// no two tabs share a key, and every key is below the next to be given
    /// out; and a strip that shows a tab has one selected.
    pub open spec fn wf(self) -> bool {
        &&& self.strip.wf()
        &&& self.tabs.len() == self.strip.items.len()
        &&& forall|i: int| 0 <= i < self.tabs.len() ==> (#[trigger] self.tabs[i]).wf()
        &&& forall|i: int|
            0 <= i < self.strip.items.len() ==> (#[trigger] self.strip.items[i]).key < self.next_key
        &&& forall|i: int, j: int|
            0 <= i < j < self.strip.items.len() ==> (#[trigger] self.strip.items[i]).key != (
            #[trigger] self.strip.items[j]).key
        &&& self.strip.items.len() > 0 ==> self.strip.selected is Some
    }

    /// How many tabs there are.
    pub open spec fn len(self) -> nat {
        self.strip.items.len()
    }

    /// The tab bar with a new tab at `path` put in at `index`.
    pub open spec fn with_tab(self, path: PathView, index: int) -> TabBarView {
        TabBarView {
            strip: self.strip.add_tab(tab_name(path), index, self.next_key),
            tabs: self.tabs.insert(index, TabView::fresh(path)),
            next_key: (self.next_key + 1) as usize,
            ..self
        }
    }

    /// The tab bar without the tab at `index`.
    pub open spec fn without_tab(self, index: int) -> TabBarView {
        TabBarView {
            strip: self.strip.remove_tab(index),
            tabs: self.tabs.remove(index),
            ..self
        }
    }

    /// The tab bar with the tab at `index` selected.
    pub open spec fn with_selected(self, index: TabIndex) -> TabBarView {
        TabBarView { strip: self.strip.set_selected_tab(index), ..self }
    }

    /// The tab bar with the history of the tab at `index` replaced.
    pub open spec fn with_history(self, index: int, tab: TabView) -> TabBarView {
        TabBarView { tabs: self.tabs.update(index, tab), ..self }
    }

    /// The two messages that show on the travel toolbar whether the tab at
    /// `index` can step back and forward.
    pub open spec fn travel_buttons(self, index: int) -> Seq<HostCommandView> {
        seq![
            HostCommandView::EnableButton {
                handle: self.travel_toolbar,
                button: BACK_BUTTON,
                lparam: marked(self.tabs[index].can_go_backward()),
            },
            HostCommandView::EnableButton {
                handle: self.travel_toolbar,
                button: FORWARD_BUTTON,
                lparam: marked(self.tabs[index].can_go_forward()),
            },
        ]
    }

    /// Opening a tab at `path`, shown at `index`. `index` may be any place
    /// from the left end to just past the right end, and a key must be left
    /// to give; else nothing changes and the error is `OperationFailed`.
    pub open spec fn add_tab(self, path: PathView, index: TabIndex) -> Outcome<()> {
        if index <= self.len() && self.next_key < usize::MAX {
            Outcome { after: self.with_tab(path, index as int), result: Ok(()) }
        } else {
            Outcome { after: self, result: Err(TabError::OperationFailed) }
        }
    }

    /// Going to the tab at `index`: it is selected, and the host is asked to
    /// show its place. Where there is no such tab, nothing changes and the
    /// error is `OperationFailed`; where the tab is nowhere, it is selected
    /// all the same and the error is `NotFound`.
    pub open spec fn switch_tab(self, index: TabIndex) -> Outcome<HostCommandView> {
        if index < self.len() {
            Outcome {
                after: self.with_selected(index),
                result: browse(self.tabs[index as int].current, BROWSE_TO_TAB),
            }
        } else {
            Outcome { after: self, result: Err(TabError::OperationFailed) }
        }
    }

    /// Going to the selected tab again: the host is asked to show its place.
    pub open spec fn switch_to_current_tab(self) -> Outcome<HostCommandView> {
        match self.strip.selected {
            Some(index) => self.switch_tab(index),
            None => Outcome { after: self, result: Err(TabError::NotFound) },
        }
    }

    /// Closing the tab at `index`, or the first step towards it.
    ///
    /// - Where there is no tab at `index`, nothing changes and the error is
    ///   `NotFound`.
    /// - A tab that is not selected is closed.
    /// - The selected tab stays if it is the only one.
    /// - Otherwise the selection goes to the heir of the selected tab, as in
    ///   [`Self::switch_tab`], and the tab is still there.
    pub open spec fn remove_tab(self, index: TabIndex) -> Outcome<RemovalView> {
        if index >= self.len() {
            Outcome { after: self, result: Err(TabError::NotFound) }
        } else if self.strip.selected != Some(index) {
            Outcome { after: self.without_tab(index as int), result: Ok(RemovalView::Removed) }
        } else if self.len() <= 1 {
            Outcome { after: self, result: Ok(RemovalView::Kept) }
        } else {
            let switched = self.switch_tab(heir(index));
            Outcome {
                after: switched.after,
                result: match switched.result {
                    Ok(command) => Ok(RemovalView::Switched(command)),
                    Err(e) => Err(e),
                },
            }
        }
    }

    /// The host's report that it is at `path`: the selected tab takes the
    /// report into its history and shows the name of the place as its
    /// title, and the travel toolbar is told whether that tab can now step
    /// back and forward. With no tab selected, nothing changes and the error
    /// is `NotFound`.
    pub open spec fn navigated(self, path: PathView) -> Outcome<Seq<HostCommandView>> {
        match self.strip.selected {
            Some(index) => {
                let after = TabBarView {
                    strip: self.strip.set_tab_title(index as int, tab_name(path)),
                    ..self.with_history(index as int, self.tabs[index as int].navigated(path))
                };
                Outcome { after, result: Ok(after.travel_buttons(index as int)) }
            },
            None => Outcome { after: self, result: Err(TabError::NotFound) },
        }
    }

    /// A step back of the selected tab: the host is asked to show the place
    /// arrived at, and to write no history of its own, for the tab has
    /// written the step into its history already. With no tab selected,
    /// nothing changes and the error is `NotFound`; with nowhere to go back
    /// to, nothing changes and the error is `NoHistory`.
    pub open spec fn navigate_back(self) -> Outcome<HostCommandView> {
        match self.strip.selected {
            Some(index) => {
                let tab = self.tabs[index as int];
                if tab.can_go_backward() {
                    Outcome {
                        after: self.with_history(index as int, tab.navigate_back()),
                        result: browse(tab.navigate_back().current, BROWSE_AFTER_STEP),
                    }
                } else {
                    Outcome { after: self, result: Err(TabError::NoHistory) }
                }
            },
            None => Outcome { after: self, result: Err(TabError::NotFound) },
        }
    }

    /// A step forward of the selected tab: the host is asked to show the
    /// place arrived at, and to write no history of its own. With no tab
    /// selected, nothing changes and the error is `NotFound`; with nowhere to
    /// go forward to, nothing changes and the error is `NoHistory`; where the
    /// step arrives nowhere, it is taken all the same and the error is
    /// `NotFound`.
    pub open spec fn navigate_forward(self) -> Outcome<HostCommandView> {
        match self.strip.selected {
            Some(index) => {
                let tab = self.tabs[index as int];
                if tab.can_go_forward() {
                    Outcome {
                        after: self.with_history(index as int, tab.navigate_forward()),
                        result: browse(tab.navigate_forward().current, BROWSE_AFTER_STEP),
                    }
                } else {
                    Outcome { after: self, result: Err(TabError::NoHistory) }
                }
            },
            None => Outcome { after: self, result: Err(TabError::NotFound) },
        }
    }

    /// Opening a second tab at the place of the tab at `index`, right of it
    /// and with no history. The selection stays with the tab it is on.
    /// Where there is no tab at `index`, nothing changes and the error is
    /// `NotFound`.
    pub open spec fn clone_tab(self, index: TabIndex) -> Outcome<()> {
        if index < self.len() {
            self.add_tab(self.tabs[index as int].current, (index + 1) as usize)
        } else {
            Outcome { after: self, result: Err(TabError::NotFound) }
        }
    }

    /// Opening a tab at `path` in place of a window that the host was about
    /// to open: the tab comes in at the right end and is gone to, and the
    /// host's window is then brought to the foreground.
    pub open spec fn new_window(self, path: PathView) -> Outcome<Seq<HostCommandView>> {
        let index = self.len() as usize;
        let added = self.add_tab(path, index);
        match added.result {
            Err(e) => Outcome { after: added.after, result: Err(e) },
            Ok(_) => {
                let switched = added.after.switch_tab(index);
                Outcome {
                    after: switched.after,
                    result: match switched.result {
                        Ok(command) => Ok(
                            seq![
                                command,
                                HostCommandView::SetForeground { handle: self.explorer_handle },
                            ],
                        ),
                        Err(e) => Err(e),
                    },
                }
            },
        }
    }

    /// The tab bar with dark and light changed.
    pub open spec fn toggle_dark_mode(self) -> TabBarView {
        TabBarView {
            strip: TabControlView { dark_mode: !self.strip.dark_mode, ..self.strip },
            ..self
        }
    }

    /// A message to the strip: the strip follows the pointer and says what
    /// the message asks for, and the tab bar does its part of that.
    pub open spec fn window_procedure(
        self,
        message: u32,
        wparam: usize,
        lparam: isize,
        rects: Seq<Rect>,
    ) -> Outcome<TaskView> {
        let moved = TabBarView { strip: self.strip.after_input(message, lparam, rects), ..self };
        match self.strip.input_action(message, wparam, lparam, rects) {
            InputAction::Nothing => Outcome { after: moved, result: Ok(TaskView::Nothing) },
            InputAction::ToggleDarkMode => Outcome {
                after: moved.toggle_dark_mode(),
                result: Ok(TaskView::Repaint),
            },
            InputAction::Paint => Outcome { after: moved, result: Ok(TaskView::Paint) },
            InputAction::PopupMenu => Outcome { after: moved, result: Ok(TaskView::PopupMenu) },
            InputAction::Repaint => Outcome { after: moved, result: Ok(TaskView::Repaint) },
            InputAction::RemoveTab(index) => {
                let removed = moved.remove_tab(index);
                Outcome {
                    after: removed.after,
                    result: match removed.result {
                        Ok(RemovalView::Switched(command)) => Ok(TaskView::RunAndRepeat(command)),
                        Ok(_) => Ok(TaskView::Nothing),
                        Err(e) => Err(e),
                    },
                }
            },
            InputAction::CloneTab(index) => {
                let cloned = moved.clone_tab(index);
                Outcome {
                    after: cloned.after,
                    result: match cloned.result {
                        Ok(_) => Ok(TaskView::Done),
                        Err(e) => Err(e),
                    },
                }
            },
            InputAction::SwitchTab(index) => {
                let switched = moved.switch_tab(index);
                Outcome {
                    after: switched.after,
                    result: match switched.result {
                        Ok(command) => Ok(TaskView::Run(command)),
                        Err(e) => Err(e),
                    },
                }
            },
        }
    }
}

/// The tab bar: the tabs by their keys, and the strip that shows them.
#[derive(Debug)]
pub struct TabBar {
    tabs: HashMap<TabKey, Tab>,
    tab_key_counter: TabKey,
    tab_control: TabControl,
    travel_toolbar: TravelBarControl,
    explorer_handle: isize,
}

impl View for TabBar {
    type V = TabBarView;

    closed spec fn view(&self) -> TabBarView {
        TabBarView {
            strip: self.tab_control@,
            tabs: Seq::new(
                self.tab_control@.items.len(),
                |i: int| self.tabs@[self.tab_control@.items[i].key]@,
            ),
            next_key: self.tab_key_counter,
            travel_toolbar: self.travel_toolbar@,
            explorer_handle: self.explorer_handle,
        }
    }
}

impl TabBar {
    /// The tabs that are kept are those that the strip shows.
    pub closed spec fn inv(&self) -> bool {
        &&& forall|i: int|
            0 <= i < self.tab_control@.items.len() ==> self.tabs@.contains_key(
                (#[trigger] self.tab_control@.items[i]).key,
            )
        &&& forall|key: TabKey| #[trigger]
            self.tabs@.contains_key(key) ==> exists|i: int|
                0 <= i < self.tab_control@.items.len() && (
                #[trigger] self.tab_control@.items[i]).key == key
    }

    /// Whether the tab bar is in order, inside and as seen from outside.
    pub open spec fn wf(&self) -> bool {
        self.inv() && self@.wf()
    }

    /// A tab bar without tabs, for a strip in the window `handle`; dark or
    /// light as `settings` say.
    pub fn new(
        handle: isize,
        explorer_handle: isize,
        travel_toolbar_handle: isize,
        settings: Settings,
    ) -> (tab_bar: TabBar)
        ensures
            tab_bar.wf(),
            tab_bar@ == (TabBarView {
                strip: TabControlView {
                    handle,
                    dark_mode: settings.dark_mode,
                    items: Seq::empty(),
                    selected: None,
                    focused: None,
                },
                tabs: Seq::empty(),
                next_key: 0,
                travel_toolbar: travel_toolbar_handle,
                explorer_handle,
            }),
    {
        let tab_bar = TabBar {
            tabs: HashMap::new(),
            tab_key_counter: 0,
            tab_control: TabControl::new(handle, settings.dark_mode),
            travel_toolbar: TravelBarControl::new(travel_toolbar_handle),
            explorer_handle,
        };
        assert(tab_bar@.tabs =~= Seq::empty());
        tab_bar
    }

    /// The strip.
    pub fn tab_control(&self) -> (control: &TabControl)
        ensures
            control@ == self@.strip,
    {
        &self.tab_control
    }

    /// The window that shows the strip.
    pub fn get_handle(&self) -> (handle: isize)
        ensures
            handle == self@.strip.handle,
    {
        self.tab_control.handle()
    }

    /// The tab at `index`, if there is one.
    pub fn get_tab(&self, index: TabIndex) -> (tab: Option<&Tab>)
        requires
            self.wf(),
        ensures
            match tab {
                Some(tab) => index < self@.len() && tab@ == self@.tabs[index as int],
                None => index >= self@.len(),
            },
    {
        let key = match self.tab_control.get_tab_key(index) {
            Ok(key) => key,
            Err(_) => {
                return None;
            },
        };
        self.tabs.get(&key)
    }

    /// How many histories are kept: one for each tab of the strip, and none
    /// besides.
    pub fn tab_count(&self) -> (count: usize)
        requires
            self.wf(),
        ensures
            count == self@.len(),
    {
        proof {
            let items = self.tab_control@.items;
            let keys = Seq::new(items.len(), |i: int| items[i].key);
            assert forall|i: int, j: int|
                0 <= i < keys.len() && 0 <= j < keys.len() && i != j implies keys[i] != keys[j] by {
                if i < j {
                    assert(items[i].key != items[j].key);
                } else {
                    assert(items[j].key != items[i].key);
                }
            }
            keys.unique_seq_to_set();
            assert forall|key: TabKey| keys.to_set().contains(key) <==> self.tabs@.dom().contains(
                key,
            ) by {
                if keys.to_set().contains(key) {
                    let i = choose|i: int| 0 <= i < keys.len() && keys[i] == key;
                    assert(self.tabs@.contains_key(items[i].key));
                }
                if self.tabs@.contains_key(key) {
                    let i = choose|i: int| 0 <= i < items.len() && (#[trigger] items[i]).key == key;
                    assert(keys[i] == key);
                }
            }
            assert(keys.to_set() =~= self.tabs@.dom());
        }
        self.tabs.len()
    }

    /// Keeps a new tab at `path` under the next key, and returns the key.
    fn add_tab_entry(&mut self, path: TabPath) -> (key: TabKey)
        requires
            old(self).tab_key_counter < usize::MAX,
        ensures
            key == old(self).tab_key_counter,
            final(self).tab_key_counter == key + 1,
            final(self).tabs@.dom() == old(self).tabs@.dom().insert(key),
            final(self).tabs@[key]@ == TabView::fresh(path.deep_view()),
            forall|other: TabKey|
                other != key && old(self).tabs@.contains_key(other) ==> final(self).tabs@[other]
                    == old(self).tabs@[other],
            final(self).tab_control == old(self).tab_control,
            final(self).travel_toolbar == old(self).travel_toolbar,
            final(self).explorer_handle == old(self).explorer_handle,
    {
        let key = self.tab_key_counter;
        self.tab_key_counter = key + 1;
        self.tabs.insert(key, Tab::new(path));
        key
    }

    /// Opens a tab at `path` and shows it at `index` of the strip, under a
    /// key that no tab has had before. `index` may be any place from the left
    /// end to just past the right end. Any other index, and a tab bar that
    /// has given out every key, leave the tab bar as it was, with the error
    /// `OperationFailed`.
    pub fn add_tab(&mut self, path: TabPath, index: usize) -> (done: Result<(), TabError>)
        requires
            old(self).wf(),
        ensures
            final(self).wf(),
            final(self)@ == old(self)@.add_tab(path.deep_view(), index).after,
            result_view(done) == old(self)@.add_tab(path.deep_view(), index).result,
    {
        if index > self.tab_control.get_tab_count() || self.tab_key_counter == usize::MAX {
            return Err(TabError::OperationFailed);
        }
        let title = get_tab_name(&path);
        let ghost fresh = TabView::fresh(path.deep_view());
        let key = self.add_tab_entry(path);
        let done = self.tab_control.add_tab(title, index, key);
        proof {
            let before = old(self).tab_control@.items;
            let after = self.tab_control@.items;
            assert forall|other: TabKey| #[trigger] self.tabs@.contains_key(other) implies exists|
                i: int,
            |
                0 <= i < after.len() && (#[trigger] after[i]).key == other by {
                if other == key {
                    assert(after[index as int].key == key);
                } else {
                    let i = choose|i: int| 0 <= i < before.len() && (#[trigger] before[i]).key == other;
                    if i < index {
                        assert(after[i] == before[i]);
                    } else {
                        assert(after[i + 1] == before[i]);
                    }
                }
            }
            assert(self@.tabs =~= old(self)@.tabs.insert(index as int, fresh));
        }
        done
    }

    /// The request to show `path`, with these flags.
    fn browse_to(path: TabPath, flags: u32) -> (request: Result<HostCommand, TabError>)
        ensures
            result_view(request) == browse(path.deep_view(), flags),
    {
        match path {
            Some(path) => Ok(HostCommand::Browse { path, flags }),
            None => Err(TabError::NotFound),
        }
    }

    /// Selects the tab at `index` and returns the request that takes the host
    /// to the place of that tab. Where the strip has no such tab, nothing
    /// changes and the error is `OperationFailed`; where the tab is nowhere,
    /// it is selected all the same and the error is `NotFound`.
    pub fn switch_tab(&mut self, index: TabIndex) -> (request: Result<HostCommand, TabError>)
        requires
            old(self).wf(),
        ensures
            final(self).wf(),
            final(self)@ == old(self)@.switch_tab(index).after,
            result_view(request) == old(self)@.switch_tab(index).result,
    {
        match self.tab_control.set_selected_tab(index) {
            Err(e) => {
                return Err(e);
            },
            Ok(_) => {},
        }
        let path = match self.get_tab(index) {
            Some(tab) => clone_path(tab.current_path()),
            None => {
                return Err(TabError::NotFound);
            },
        };
        Self::browse_to(path, BROWSE_TO_TAB)
    }

    /// Sends the host to the place of the selected tab. With no tab
    /// selected, or with the selected tab nowhere, the error is `NotFound`.
    /// The tab bar stays as it is.
    pub fn switch_to_current_tab(&mut self) -> (request: Result<HostCommand, TabError>)
        requires
            old(self).wf(),
        ensures
            final(self).wf(),
            final(self)@ == old(self)@.switch_to_current_tab().after,
            result_view(request) == old(self)@.switch_to_current_tab().result,
    {
        match self.tab_control.get_selected_tab_index() {
            Some(index) => self.switch_tab(index),
            None => Err(TabError::NotFound),
        }
    }

    /// Changes between a dark and a light strip.
    pub fn toggle_dark_mode(&mut self)
        requires
            old(self).wf(),
        ensures
            final(self).wf(),
            final(self)@ == old(self)@.toggle_dark_mode(),
    {
        let dark = self.tab_control.dark_mode();
        self.tab_control.set_dark_mode(!dark);
    }

    /// Closes the tab at `index`, or takes the first step towards it.
    ///
    /// - Where the strip has no tab at `index`, nothing changes and the error
    ///   is `NotFound`.
    /// - A tab that is not selected is closed: it leaves the strip and its
    ///   history is dropped.
    /// - The selected tab stays if it is the only one.
    /// - Otherwise the selection goes from the selected tab to its heir, and
    ///   the request that takes the host there is returned; the tab itself
    ///   is closed by asking again. Where the heir is nowhere, it is selected
    ///   all the same and the error is `NotFound`.
    pub fn remove_tab(&mut self, index: TabIndex) -> (done: Result<Removal, TabError>)
        requires
            old(self).wf(),
        ensures
            final(self).wf(),
            final(self)@ == old(self)@.remove_tab(index).after,
            result_view(done) == old(self)@.remove_tab(index).result,
    {
        let key = match self.tab_control.get_tab_key(index) {
            Ok(key) => key,
            Err(e) => {
                return Err(e);
            },
        };
        if Some(index) == self.tab_control.get_selected_tab_index() {
            if self.tab_control.get_tab_count() <= 1 {
                return Ok(Removal::Kept);
            }
            let request = if index == 0 {
                self.switch_tab(1)
            } else {
                self.switch_tab(index - 1)
            };
            return match request {
                Ok(command) => Ok(Removal::Switched(command)),
                Err(e) => Err(e),
            };
        }
        self.tabs.remove(&key);
        match self.tab_control.remove_tab(index) {
            Err(e) => {
                return Err(e);
            },
            Ok(_) => {},
        }
        proof {
            let before = old(self).tab_control@.items;
            let after = self.tab_control@.items;
            assert forall|other: TabKey| #[trigger] self.tabs@.contains_key(other) implies exists|
                i: int,
            |
                0 <= i < after.len() && (#[trigger] after[i]).key == other by {
                let i = choose|i: int| 0 <= i < before.len() && (#[trigger] before[i]).key == other;
                if i < index {
                    assert(after[i] == before[i]);
                } else {
                    assert(after[i - 1] == before[i]);
                }
            }
            assert(self@.tabs =~= old(self)@.tabs.remove(index as int));
        }
        Ok(Removal::Removed)
    }

    /// Takes the history of the selected tab out of the keeping, to be
    /// changed and put back under the same key. Returns the place of the tab
    /// in the strip, its key and its history. With no tab selected, nothing
    /// changes and the error is `NotFound`.
    fn take_selected_tab(&mut self) -> (taken: Result<(TabIndex, TabKey, Tab), TabError>)
        requires
            old(self).wf(),
        ensures
            final(self).tab_control == old(self).tab_control,
            final(self).tab_key_counter == old(self).tab_key_counter,
            final(self).travel_toolbar == old(self).travel_toolbar,
            final(self).explorer_handle == old(self).explorer_handle,
            match taken {
                Ok((index, key, tab)) => {
                    &&& old(self)@.strip.selected == Some(index)
                    &&& index < old(self)@.len()
                    &&& key == old(self)@.strip.items[index as int].key
                    &&& tab@ == old(self)@.tabs[index as int]
                    &&& final(self).tabs@ == old(self).tabs@.remove(key)
                },
                Err(e) => {
                    &&& old(self)@.strip.selected is None
                    &&& e == TabError::NotFound
                    &&& final(self).tabs@ == old(self).tabs@
                },
            },
    {
        let index = match self.tab_control.get_selected_tab_index() {
            Some(index) => index,
            None => {
                return Err(TabError::NotFound);
            },
        };
        let key = match self.tab_control.get_tab_key(index) {
            Ok(key) => key,
            Err(e) => {
                return Err(e);
            },
        };
        match self.tabs.remove(&key) {
            Some(tab) => Ok((index, key, tab)),
            None => Err(TabError::NotFound),
        }
    }

    /// That the tab bar is in order again once the history of the tab at
    /// `index` has been put back changed.
    proof fn lemma_tab_replaced(old_bar: &TabBar, new_bar: &TabBar, index: int, tab: Tab)
        requires
            old_bar.wf(),
            0 <= index < old_bar@.len(),
            tab@.wf(),
            new_bar.tabs@ == old_bar.tabs@.remove(old_bar.tab_control@.items[index].key).insert(
                old_bar.tab_control@.items[index].key,
                tab,
            ),
            new_bar.tab_control@.items.len() == old_bar.tab_control@.items.len(),
            forall|i: int|
                0 <= i < old_bar@.len() ==> (#[trigger] new_bar.tab_control@.items[i]).key
                    == old_bar.tab_control@.items[i].key,
            new_bar.tab_control@.selected == old_bar.tab_control@.selected,
            new_bar.tab_key_counter == old_bar.tab_key_counter,
        ensures
            new_bar.wf(),
            new_bar@.tabs == old_bar@.tabs.update(index, tab@),
    {
        let before = old_bar.tab_control@.items;
        let after = new_bar.tab_control@.items;
        let key = before[index].key;
        assert(new_bar.tabs@ =~= old_bar.tabs@.insert(key, tab));
        assert forall|other: TabKey| #[trigger] new_bar.tabs@.contains_key(other) implies exists|
            i: int,
        |
            0 <= i < after.len() && (#[trigger] after[i]).key == other by {
            if other == key {
                assert(after[index].key == key);
            } else {
                let i = choose|i: int| 0 <= i < before.len() && (#[trigger] before[i]).key == other;
                assert(after[i].key == other);
            }
        }
        assert forall|i: int| 0 <= i < after.len() implies (#[trigger] new_bar@.tabs[i])
            == old_bar@.tabs.update(index, tab@)[i] by {}
    }

    /// Records that the host is now at `path`: the selected tab takes the
    /// report into its history and shows the name of the place as its title.
    /// Returns the two messages that tell the travel toolbar whether that tab
    /// can now step back and forward. With no tab selected, nothing changes
    /// and the error is `NotFound`.
    pub fn navigated(&mut self, path: TabPath) -> (done: Result<Vec<HostCommand>, TabError>)
        requires
            old(self).wf(),
        ensures
            final(self).wf(),
            final(self)@ == old(self)@.navigated(path.deep_view()).after,
            result_view(done) == old(self)@.navigated(path.deep_view()).result,
    {
        let (index, key, mut tab) = match self.take_selected_tab() {
            Ok(taken) => taken,
            Err(e) => {
                return Err(e);
            },
        };
        let title = get_tab_name(&path);
        tab.navigated(path);
        let can_go_backward = tab.can_go_backward();
        let can_go_forward = tab.can_go_forward();
        let ghost replaced = tab;
        self.tabs.insert(key, tab);
        match self.tab_control.set_tab_title(index, title) {
            Err(e) => {
                return Err(e);
            },
            Ok(_) => {},
        }
        proof {
            Self::lemma_tab_replaced(old(self), self, index as int, replaced);
        }
        let mut commands: Vec<HostCommand> = Vec::new();
        commands.push(self.travel_toolbar.set_button_active(BACK_BUTTON, can_go_backward));
        commands.push(self.travel_toolbar.set_button_active(FORWARD_BUTTON, can_go_forward));
        assert(commands.deep_view() =~= self@.travel_buttons(index as int));
        Ok(commands)
    }

    /// Steps the selected tab back and returns the request that takes the
    /// host to the place arrived at; the request carries the flag that keeps
    /// the host from writing history. With no tab selected, nothing changes
    /// and the error is `NotFound`; with nowhere to go back to, nothing
    /// changes and the error is `NoHistory`.
    pub fn navigate_back(&mut self) -> (request: Result<HostCommand, TabError>)
        requires
            old(self).wf(),
        ensures
            final(self).wf(),
            final(self)@ == old(self)@.navigate_back().after,
            result_view(request) == old(self)@.navigate_back().result,
    {
        let (index, key, mut tab) = match self.take_selected_tab() {
            Ok(taken) => taken,
            Err(e) => {
                return Err(e);
            },
        };
        let arrived = tab.navigate_back();
        let ghost replaced = tab;
        self.tabs.insert(key, tab);
        proof {
            Self::lemma_tab_replaced(old(self), self, index as int, replaced);
            if arrived is Err {
                assert(self@.tabs =~= old(self)@.tabs);
            }
        }
        match arrived {
            Ok(next_path) => Self::browse_to(next_path, BROWSE_AFTER_STEP),
            Err(e) => Err(e),
        }
    }

    /// Steps the selected tab forward and returns the request that takes the
    /// host to the place arrived at; the request carries the flag that keeps
    /// the host from writing history. With no tab selected, nothing changes
    /// and the error is `NotFound`; with nowhere to go forward to, nothing
    /// changes and the error is `NoHistory`. Where the step arrives nowhere,
    /// it is taken all the same and the error is `NotFound`.
    pub fn navigate_forward(&mut self) -> (request: Result<HostCommand, TabError>)
        requires
            old(self).wf(),
        ensures
            final(self).wf(),
            final(self)@ == old(self)@.navigate_forward().after,
            result_view(request) == old(self)@.navigate_forward().result,
    {
        let (index, key, mut tab) = match self.take_selected_tab() {
            Ok(taken) => taken,
            Err(e) => {
                return Err(e);
            },
        };
        let arrived = tab.navigate_forward();
        let ghost replaced = tab;
        self.tabs.insert(key, tab);
        proof {
            Self::lemma_tab_replaced(old(self), self, index as int, replaced);
            if arrived is Err {
                assert(self@.tabs =~= old(self)@.tabs);
            }
        }
        match arrived {
            Ok(next_path) => Self::browse_to(next_path, BROWSE_AFTER_STEP),
            Err(e) => Err(e),
        }
    }

    /// Opens a second tab at the place of the tab at `index`, right of it
    /// and with no history; the selection stays with the tab it is on. Where
    /// the strip has no tab at `index`, nothing changes and the error is
    /// `NotFound`; where every key has been given out, nothing changes and
    /// the error is `OperationFailed`.
    pub fn clone_tab(&mut self, index: TabIndex) -> (done: Result<(), TabError>)
        requires
            old(self).wf(),
        ensures
            final(self).wf(),
            final(self)@ == old(self)@.clone_tab(index).after,
            result_view(done) == old(self)@.clone_tab(index).result,
    {
        if index >= self.tab_control.get_tab_count() {
            return Err(TabError::NotFound);
        }
        let path = match self.get_tab(index) {
            Some(tab) => clone_path(tab.current_path()),
            None => {
                return Err(TabError::NotFound);
            },
        };
        self.add_tab(path, index + 1)
    }

    /// Opens a tab at `path` at the right end of the strip and selects it,
    /// in place of a window that the host was about to open. Returns what is
    /// then to be done, in this order: take the host to `path`, and bring
    /// the host's window to the foreground. Where every key has been given
    /// out, nothing changes and the error is `OperationFailed`; where `path`
    /// is nowhere, the tab is opened and selected all the same and the error
    /// is `NotFound`.
    pub fn new_window(&mut self, path: TabPath) -> (done: Result<Vec<HostCommand>, TabError>)
        requires
            old(self).wf(),
        ensures
            final(self).wf(),
            final(self)@ == old(self)@.new_window(path.deep_view()).after,
            result_view(done) == old(self)@.new_window(path.deep_view()).result,
    {
        let index = self.tab_control.get_tab_count();
        match self.add_tab(path, index) {
            Err(e) => {
                return Err(e);
            },
            Ok(_) => {},
        }
        let browse = match self.switch_tab(index) {
            Ok(browse) => browse,
            Err(e) => {
                return Err(e);
            },
        };
        let mut commands: Vec<HostCommand> = Vec::new();
        commands.push(browse);
        commands.push(HostCommand::SetForeground { handle: self.explorer_handle });
        assert(commands.deep_view() =~= seq![
            browse@,
            HostCommandView::SetForeground { handle: old(self)@.explorer_handle },
        ]);
        Ok(commands)
    }

    /// Takes a message to the strip's window. The strip follows the pointer
    /// and says what the message asks for; the tab bar closes, copies or goes
    /// to the tab that it names, or changes between dark and light; and what
    /// is left to do comes back as the task. `rects` gives the rectangle of
    /// each tab in turn.
    pub fn window_procedure(
        &mut self,
        message: u32,
        wparam: usize,
        lparam: isize,
        rects: &Vec<Rect>,
    ) -> (task: Result<Task, TabError>)
        requires
            old(self).wf(),
        ensures
            final(self).wf(),
            final(self)@ == old(self)@.window_procedure(message, wparam, lparam, rects@).after,
            result_view(task) == old(self)@.window_procedure(message, wparam, lparam, rects@).result,
    {
        let action = self.tab_control.window_procedure(message, wparam, lparam, rects);
        match action {
            InputAction::Nothing => Ok(Task::Nothing),
            InputAction::ToggleDarkMode => {
                self.toggle_dark_mode();
                Ok(Task::Repaint)
            },
            InputAction::Paint => Ok(Task::Paint),
            InputAction::PopupMenu => Ok(Task::PopupMenu),
            InputAction::Repaint => Ok(Task::Repaint),
            InputAction::RemoveTab(index) => match self.remove_tab(index) {
                Ok(Removal::Switched(command)) => Ok(Task::RunAndRepeat(command)),
                Ok(_) => Ok(Task::Nothing),
                Err(e) => Err(e),
            },
            InputAction::CloneTab(index) => match self.clone_tab(index) {
                Ok(_) => Ok(Task::Done),
                Err(e) => Err(e),
            },
            InputAction::SwitchTab(index) => match self.switch_tab(index) {
                Ok(command) => Ok(Task::Run(command)),
                Err(e) => Err(e),
            },
        }
    }

    /// What the strip's window procedure does once `task` has been seen to,
    /// `performed` telling whether all that the task asked for was done.
    pub fn reply(task: &Result<Task, TabError>, performed: bool, lparam: isize) -> (next: Next)
        ensures
            next == next_step(result_view(*task), performed, lparam),
    {
        match task {
            Err(_) => Next::Answer(Reply::Handled(0)),
            Ok(Task::Nothing) => Next::Answer(Reply::Forward(lparam)),
            Ok(Task::Done) => Next::Answer(Reply::Handled(0)),
            Ok(Task::Repaint) => Next::Answer(Reply::Forward(lparam)),
            Ok(Task::Paint) | Ok(Task::PopupMenu) => Next::Answer(
                Reply::Handled(
                    if performed {
                        1
                    } else {
                        0
                    },
                ),
            ),
            Ok(Task::Run(_)) => if performed {
                Next::Answer(Reply::Forward(lparam))
            } else {
                Next::Answer(Reply::Handled(0))
            },
            Ok(Task::RunAndRepeat(_)) => if performed {
                Next::Repeat
            } else {
                Next::Answer(Reply::Handled(0))
            },
        }
    }
}

} // verus!
