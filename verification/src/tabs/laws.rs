//! What holds of the tab bar whatever is done with it.

use vstd::prelude::*;

use crate::host::{
    lemma_request_flags, HostCommandView, TabError, BROWSE_AFTER_STEP, BROWSE_TO_TAB,
    SBSP_WRITENOHISTORY, WM_LBUTTONDOWN, WM_MBUTTONDOWN,
};
use crate::tabs::geometry::Rect;
use crate::tabs::tab::{
    is_walk, lemma_back_retraces_walk, lemma_back_then_diverge, lemma_back_then_forward, same_path,
    PathView, TabView,
};
use crate::tabs::tab_bar::{heir, RemovalView, TabBarView, TaskView};
use crate::tabs::tab_control::TabIndex;

verus! {

impl TabBarView {
    /// The tab bar after the host has reported each of `paths` in turn.
    pub open spec fn navigated_all(self, paths: Seq<PathView>) -> TabBarView
        decreases paths.len(),
    {
        if paths.len() == 0 {
            self
        } else {
            self.navigated_all(paths.drop_last()).navigated(paths.last()).after
        }
    }

    /// The tab bar after `steps` steps back of the selected tab.
    pub open spec fn navigate_back_times(self, steps: nat) -> TabBarView
        decreases steps,
    {
        if steps == 0 {
            self
        } else {
            self.navigate_back_times((steps - 1) as nat).navigate_back().after
        }
    }
}

/// A tab bar has no more tabs than it has given out keys.
pub proof fn lemma_tabs_within_keys(bar: TabBarView)
    requires
        bar.wf(),
    ensures
        bar.len() <= bar.next_key,
{
    let keys = Seq::new(bar.len(), |i: int| bar.strip.items[i].key as int);
    assert forall|i: int, j: int| 0 <= i < keys.len() && 0 <= j < keys.len() && i != j implies keys[i]
        != keys[j] by {
        if i < j {
            assert(bar.strip.items[i].key != bar.strip.items[j].key);
        } else {
            assert(bar.strip.items[j].key != bar.strip.items[i].key);
        }
    }
    keys.unique_seq_to_set();
    vstd::set_lib::lemma_int_range(0, bar.next_key as int);
    assert forall|key: int| keys.to_set().contains(key) implies vstd::set_lib::set_int_range(
        0,
        bar.next_key as int,
    ).contains(key) by {
        let i = choose|i: int| 0 <= i < keys.len() && keys[i] == key;
        assert(bar.strip.items[i].key < bar.next_key);
    }
    vstd::set_lib::lemma_len_subset(
        keys.to_set(),
        vstd::set_lib::set_int_range(0, bar.next_key as int),
    );
}

/// Opening a tab keeps the tab bar in order.
pub proof fn lemma_add_tab_keeps_wf(bar: TabBarView, path: PathView, index: TabIndex)
    requires
        bar.wf(),
    ensures
        bar.add_tab(path, index).after.wf(),
{
    let after = bar.add_tab(path, index).after;
    lemma_tabs_within_keys(bar);
    if index <= bar.len() && bar.next_key < usize::MAX {
        let before = bar.strip.items;
        let items = after.strip.items;
        assert forall|i: int| 0 <= i < items.len() implies (#[trigger] items[i]).key
            < after.next_key by {
            if i < index {
                assert(items[i] == before[i]);
            } else if i > index {
                assert(items[i] == before[i - 1]);
            }
        }
        assert forall|i: int, j: int| 0 <= i < j < items.len() implies (#[trigger] items[i]).key != (
        #[trigger] items[j]).key by {
            let bi = if i < index { i } else { i - 1 };
            let bj = if j < index { j } else { j - 1 };
            if i != index {
                assert(items[i] == before[bi]);
            }
            if j != index {
                assert(items[j] == before[bj]);
            }
        }
        assert forall|i: int| 0 <= i < after.tabs.len() implies (#[trigger] after.tabs[i]).wf() by {
            if i < index {
                assert(after.tabs[i] == bar.tabs[i]);
            } else if i > index {
                assert(after.tabs[i] == bar.tabs[i - 1]);
            }
        }
    }
}

/// Going to a tab keeps the tab bar in order.
pub proof fn lemma_switch_tab_keeps_wf(bar: TabBarView, index: TabIndex)
    requires
        bar.wf(),
    ensures
        bar.switch_tab(index).after.wf(),
        bar.switch_to_current_tab().after.wf(),
{
}

/// Closing a tab, or taking the first step towards it, keeps the tab bar in
/// order.
pub proof fn lemma_remove_tab_keeps_wf(bar: TabBarView, index: TabIndex)
    requires
        bar.wf(),
    ensures
        bar.remove_tab(index).after.wf(),
{
    let after = bar.remove_tab(index).after;
    if index < bar.len() && bar.strip.selected != Some(index) {
        let before = bar.strip.items;
        let items = after.strip.items;
        assert forall|i: int| 0 <= i < items.len() implies (#[trigger] items[i]).key
            < after.next_key by {
            let bi = if i < index { i } else { i + 1 };
            assert(items[i] == before[bi]);
        }
        assert forall|i: int, j: int| 0 <= i < j < items.len() implies (#[trigger] items[i]).key != (
        #[trigger] items[j]).key by {
            let bi = if i < index { i } else { i + 1 };
            let bj = if j < index { j } else { j + 1 };
            assert(items[i] == before[bi]);
            assert(items[j] == before[bj]);
        }
        assert forall|i: int| 0 <= i < after.tabs.len() implies (#[trigger] after.tabs[i]).wf() by {
            let bi = if i < index { i } else { i + 1 };
            assert(after.tabs[i] == bar.tabs[bi]);
        }
    }
}

/// A report from the host and a step back or forward keep the tab bar in
/// order.
pub proof fn lemma_navigation_keeps_wf(bar: TabBarView, path: PathView)
    requires
        bar.wf(),
    ensures
        bar.navigated(path).after.wf(),
        bar.navigate_back().after.wf(),
        bar.navigate_forward().after.wf(),
{
    if bar.strip.selected is Some {
        let index = bar.strip.selected->0;
        let reported = bar.navigated(path).after;
        assert forall|i: int| 0 <= i < reported.strip.items.len() implies (
        #[trigger] reported.strip.items[i]).key == bar.strip.items[i].key by {}
        assert(bar.tabs[index as int].wf());
    }
}

/// A copy of a tab and a tab in place of a window keep the tab bar in order.
pub proof fn lemma_new_tabs_keep_wf(bar: TabBarView, path: PathView, index: TabIndex)
    requires
        bar.wf(),
    ensures
        bar.clone_tab(index).after.wf(),
        bar.new_window(path).after.wf(),
{
    if index < bar.len() {
        lemma_add_tab_keeps_wf(bar, bar.tabs[index as int].current, (index + 1) as usize);
    }
    lemma_add_tab_keeps_wf(bar, path, bar.len() as usize);
}

/// No key is given twice: a new tab gets a key that no tab of the strip has,
/// and no operation lowers the key that the next new tab gets.
pub proof fn lemma_keys_are_not_reused(bar: TabBarView, path: PathView, index: TabIndex)
    requires
        bar.wf(),
        bar.add_tab(path, index).result is Ok,
    ensures
        bar.add_tab(path, index).after.strip.items[index as int].key == bar.next_key,
        forall|i: int| 0 <= i < bar.len() ==> (#[trigger] bar.strip.items[i]).key != bar.next_key,
        bar.add_tab(path, index).after.next_key > bar.next_key,
        bar.remove_tab(index).after.next_key == bar.next_key,
        bar.switch_tab(index).after.next_key == bar.next_key,
        bar.navigated(path).after.next_key == bar.next_key,
        bar.navigate_back().after.next_key == bar.next_key,
        bar.navigate_forward().after.next_key == bar.next_key,
        bar.clone_tab(index).after.next_key >= bar.next_key,
        bar.new_window(path).after.next_key >= bar.next_key,
{
}

/// The only tab of a tab bar cannot be closed: the request goes through and
/// changes nothing.
pub proof fn lemma_sole_tab_stays(bar: TabBarView)
    requires
        bar.wf(),
        bar.len() == 1,
    ensures
        bar.remove_tab(0).after == bar,
        bar.remove_tab(0).result == Ok::<RemovalView, TabError>(RemovalView::Kept),
{
}

/// A tab bar that shows a tab goes on showing one, whatever tab is asked to
/// close.
pub proof fn lemma_a_tab_remains(bar: TabBarView, index: TabIndex)
    requires
        bar.wf(),
        bar.len() >= 1,
    ensures
        bar.remove_tab(index).after.len() >= 1,
{
}

/// A request to close a tab that the strip does not show is turned down with
/// `NotFound` and changes nothing.
pub proof fn lemma_missing_tab_is_not_found(bar: TabBarView, index: TabIndex)
    requires
        index >= bar.len(),
    ensures
        bar.remove_tab(index).after == bar,
        bar.remove_tab(index).result == Err::<RemovalView, TabError>(TabError::NotFound),
{
}

/// Closing the selected tab of a tab bar with more tabs than one. The first
/// request selects the heir of the tab, which is the tab to its left, or for
/// the leftmost tab the one to its right, and closes nothing. If the heir
/// has a place, the request asked again closes the tab, and the heir is
/// still the selected tab: it stands where the tab to the left of the
/// closed one stood, or at the left end where the closed tab was the
/// leftmost.
pub proof fn lemma_closing_the_selected_tab(bar: TabBarView, index: TabIndex)
    requires
        bar.wf(),
        bar.len() >= 2,
        bar.strip.selected == Some(index),
    ensures
        bar.remove_tab(index).after == bar.with_selected(heir(index)),
        bar.remove_tab(index).after.strip.selected == Some(heir(index)),
        heir(index) < bar.len(),
        bar.tabs[heir(index) as int].current is Some ==> bar.remove_tab(index).result is Ok,
        ({
            let again = bar.remove_tab(index).after.remove_tab(index);
            let place = if index == 0 {
                0usize
            } else {
                heir(index)
            };
            &&& again.result == Ok::<RemovalView, TabError>(RemovalView::Removed)
            &&& again.after.len() == bar.len() - 1
            &&& again.after.strip.selected == Some(place)
            &&& again.after.strip.items[place as int] == bar.strip.items[heir(index) as int]
            &&& again.after.tabs[place as int] == bar.tabs[heir(index) as int]
        }),
{
}

/// A report from the host reaches the selected tab and no other: its
/// history takes the report, and every other tab keeps its own.
pub proof fn lemma_report_reaches_selected_tab(bar: TabBarView, path: PathView, index: TabIndex)
    requires
        bar.wf(),
        bar.strip.selected == Some(index),
    ensures
        bar.navigated(path).result is Ok,
        bar.navigated(path).after.strip.selected == Some(index),
        bar.navigated(path).after.tabs[index as int] == bar.tabs[index as int].navigated(path),
        forall|i: int|
            0 <= i < bar.len() && i != index ==> #[trigger] bar.navigated(path).after.tabs[i]
                == bar.tabs[i],
{
}

proof fn lemma_reports_reach_selected_tab(bar: TabBarView, paths: Seq<PathView>, index: TabIndex)
    requires
        bar.wf(),
        bar.strip.selected == Some(index),
    ensures
        bar.navigated_all(paths).wf(),
        bar.navigated_all(paths).strip.selected == Some(index),
        bar.navigated_all(paths).tabs[index as int] == bar.tabs[index as int].navigated_all(paths),
    decreases paths.len(),
{
    if paths.len() > 0 {
        lemma_reports_reach_selected_tab(bar, paths.drop_last(), index);
        lemma_navigation_keeps_wf(bar.navigated_all(paths.drop_last()), paths.last());
    }
}

proof fn lemma_steps_back_reach_selected_tab(bar: TabBarView, steps: nat, index: TabIndex)
    requires
        bar.wf(),
        bar.strip.selected == Some(index),
        steps <= bar.tabs[index as int].backward.len(),
    ensures
        bar.navigate_back_times(steps).wf(),
        bar.navigate_back_times(steps).strip.selected == Some(index),
        ({
            let tab = bar.tabs[index as int];
            let after = bar.navigate_back_times(steps).tabs[index as int];
            &&& after == tab.navigate_back_times(steps)
            &&& after.backward.len() == tab.backward.len() - steps
        }),
    decreases steps,
{
    if steps > 0 {
        lemma_steps_back_reach_selected_tab(bar, (steps - 1) as nat, index);
        lemma_navigation_keeps_wf(bar.navigate_back_times((steps - 1) as nat), None);
    }
}

/// After the host has reported a walk through `paths`, each step back
/// arrives at the place reported one earlier: `steps` steps back, for any
/// `steps` below the length of the walk, leave the selected tab at the path
/// reported `steps` before the last, and so as many steps back as there were
/// reports but one leave it at the first. Until then every step back goes
/// through.
pub proof fn lemma_steps_back_retrace_reports(
    bar: TabBarView,
    paths: Seq<PathView>,
    steps: nat,
    index: TabIndex,
)
    requires
        bar.wf(),
        bar.strip.selected == Some(index),
        is_walk(paths),
        steps < paths.len(),
    ensures
        ({
            let after = bar.navigated_all(paths).navigate_back_times(steps);
            &&& after.tabs[index as int].current == paths[paths.len() - 1 - steps]
            &&& steps + 1 < paths.len() ==> after.navigate_back().result is Ok
        }),
{
    let reported = bar.navigated_all(paths);
    lemma_reports_reach_selected_tab(bar, paths, index);
    let tab = bar.tabs[index as int];
    lemma_walk_leaves_trail(bar, paths, index);
    lemma_steps_back_reach_selected_tab(reported, steps, index);
    lemma_back_retraces_walk(tab, paths, steps);
}

proof fn lemma_walk_leaves_trail(bar: TabBarView, paths: Seq<PathView>, index: TabIndex)
    requires
        bar.wf(),
        bar.strip.selected == Some(index),
        is_walk(paths),
    ensures
        bar.tabs[index as int].navigated_all(paths).backward.len() + 1 >= paths.len(),
    decreases paths.len(),
{
    if paths.len() > 1 {
        lemma_walk_leaves_trail(bar, paths.drop_last(), index);
        let before = bar.tabs[index as int].navigated_all(paths.drop_last());
        lemma_last_report(bar.tabs[index as int], paths.drop_last());
        assert(paths.drop_last().last() == paths[paths.len() - 2]);
        assert(before.diverges(paths.last()));
    }
}

proof fn lemma_last_report(tab: TabView, paths: Seq<PathView>)
    requires
        paths.len() > 0,
    ensures
        tab.navigated_all(paths).current == paths.last(),
{
}

/// A step back of the selected tab can always be taken back: afterwards the
/// tab can step forward, and the step forward restores the tab bar as it
/// was.
pub proof fn lemma_step_back_then_forward(bar: TabBarView, index: TabIndex)
    requires
        bar.wf(),
        bar.strip.selected == Some(index),
        bar.tabs[index as int].can_go_backward(),
    ensures
        bar.navigate_back().after.tabs[index as int].can_go_forward(),
        bar.navigate_back().after.navigate_forward().after == bar,
{
    lemma_back_then_forward(bar.tabs[index as int]);
    let there = bar.navigate_back().after;
    assert(there.navigate_forward().after.tabs =~= bar.tabs);
}

/// A report of the place that the selected tab is at already changes no
/// history, and the same report twice leaves the tab bar as the report once.
pub proof fn lemma_report_is_idempotent(bar: TabBarView, path: PathView, index: TabIndex)
    requires
        bar.wf(),
        bar.strip.selected == Some(index),
    ensures
        same_path(bar.tabs[index as int].current, path) ==> {
            &&& bar.navigated(path).after.tabs[index as int].backward == bar.tabs[index as int].backward
            &&& bar.navigated(path).after.tabs[index as int].forward == bar.tabs[index as int].forward
        },
        bar.navigated(path).after.navigated(path).after == bar.navigated(path).after,
{
    let once = bar.navigated(path).after;
    let twice = once.navigated(path).after;
    assert(twice.tabs =~= once.tabs);
    assert(twice.strip.items =~= once.strip.items);
}

/// A step back followed by a report of another place opens a new branch:
/// the selected tab has nowhere left to go forward to.
pub proof fn lemma_step_back_then_diverge(bar: TabBarView, path: PathView, index: TabIndex)
    requires
        bar.wf(),
        bar.strip.selected == Some(index),
        bar.tabs[index as int].can_go_backward(),
        !same_path(bar.navigate_back().after.tabs[index as int].current, path),
    ensures
        bar.navigate_back().after.navigated(path).after.tabs[index as int].forward.len() == 0,
        bar.navigate_back().after.navigated(path).after.tabs[index as int].current == path,
{
    lemma_back_then_diverge(bar.tabs[index as int], path);
}

/// A click with no tab under the pointer does nothing: the tab bar stays as
/// it is, and nothing is left to do.
pub proof fn lemma_click_without_hover_does_nothing(
    bar: TabBarView,
    message: u32,
    wparam: usize,
    lparam: isize,
    rects: Seq<Rect>,
)
    requires
        bar.strip.focused is None,
        message == WM_LBUTTONDOWN || message == WM_MBUTTONDOWN,
    ensures
        bar.window_procedure(message, wparam, lparam, rects).after == bar,
        bar.window_procedure(message, wparam, lparam, rects).result == Ok::<TaskView, TabError>(
            TaskView::Nothing,
        ),
{
}

/// The flags of a request to browse, and 0 for any other command.
pub open spec fn browse_flags(command: HostCommandView) -> u32 {
    match command {
        HostCommandView::Browse { flags, .. } => flags,
        _ => 0,
    }
}

/// The host is told to write no history after a step back or forward, and
/// only then. Whatever the tab bar asks of the host on a step is a request
/// to browse with the flag that suppresses the writing of history; what it
/// asks when a tab is gone to, when the selection moves off a tab that is to
/// close, and when a tab stands in for a window, is a request to browse
/// without it.
pub proof fn lemma_only_steps_suppress_history(bar: TabBarView, path: PathView, index: TabIndex)
    ensures
        bar.navigate_back().result matches Ok(command) ==> command is Browse && browse_flags(command)
            == BROWSE_AFTER_STEP,
        bar.navigate_forward().result matches Ok(command) ==> command is Browse && browse_flags(
            command,
        ) == BROWSE_AFTER_STEP,
        bar.switch_tab(index).result matches Ok(command) ==> command is Browse && browse_flags(
            command,
        ) == BROWSE_TO_TAB,
        bar.switch_to_current_tab().result matches Ok(command) ==> command is Browse
            && browse_flags(command) == BROWSE_TO_TAB,
        bar.remove_tab(index).result matches Ok(RemovalView::Switched(command)) ==> command
            is Browse && browse_flags(command) == BROWSE_TO_TAB,
        bar.new_window(path).result matches Ok(commands) ==> commands[0] is Browse && browse_flags(
            commands[0],
        ) == BROWSE_TO_TAB,
        BROWSE_AFTER_STEP & SBSP_WRITENOHISTORY != 0,
        BROWSE_TO_TAB & SBSP_WRITENOHISTORY == 0,
{
    lemma_request_flags();
}

} // verus!
