//! One tab and its history.

use vstd::prelude::*;

use crate::host::TabError;
use crate::idl::{Idl, IdlView};

verus! {

/// Where a tab is: an identifier list, or nothing.
pub type TabPath = Option<Idl>;

/// The mathematical value of a [`TabPath`].
pub type PathView = Option<IdlView>;

/// Whether two paths name the same place: both absent, or both present with
/// the same bytes.
pub open spec fn same_path(a: PathView, b: PathView) -> bool {
    match (a, b) {
        (None, None) => true,
        (Some(x), Some(y)) => x.id == y.id,
        _ => false,
    }
}

/// The mathematical value of a [`Tab`]: a current path and two stacks, the
/// most recent entry of each last.
pub struct TabView {
    pub current: PathView,
    pub backward: Seq<PathView>,
    pub forward: Seq<PathView>,
}

impl TabView {
    /// A tab that has just been opened at `path`.
    pub open spec fn fresh(path: PathView) -> TabView {
        TabView { current: path, backward: Seq::empty(), forward: Seq::empty() }
    }

    /// What every tab satisfies: the places to go back to are all present, an
    /// absent place to go forward to can only be the first, and a tab that is
    /// nowhere has nowhere to go forward to.
    pub open spec fn wf(self) -> bool {
        &&& forall|i: int| 0 <= i < self.backward.len() ==> (#[trigger] self.backward[i]) is Some
        &&& forall|i: int| 0 < i < self.forward.len() ==> (#[trigger] self.forward[i]) is Some
        &&& self.current is None ==> self.forward.len() == 0
    }

    /// Whether a report that the host is at `path` opens a new branch of the
    /// history: the tab was somewhere, and that was another place.
    pub open spec fn diverges(self, path: PathView) -> bool {
        self.current is Some && !same_path(self.current, path)
    }

    /// The tab after the host has reported that it is at `path`.
    pub open spec fn navigated(self, path: PathView) -> TabView {
        if self.diverges(path) {
            TabView {
                current: path,
                backward: self.backward.push(self.current),
                forward: Seq::empty(),
            }
        } else {
            TabView { current: path, ..self }
        }
    }

    pub open spec fn can_go_backward(self) -> bool {
        self.backward.len() > 0
    }

    pub open spec fn can_go_forward(self) -> bool {
        self.forward.len() > 0
    }

    /// The tab after one step back.
    pub open spec fn navigate_back(self) -> TabView
        recommends
            self.can_go_backward(),
    {
        TabView {
            current: self.backward.last(),
            backward: self.backward.drop_last(),
            forward: self.forward.push(self.current),
        }
    }

    /// The tab after one step forward.
    pub open spec fn navigate_forward(self) -> TabView
        recommends
            self.can_go_forward(),
    {
        TabView {
            current: self.forward.last(),
            backward: self.backward.push(self.current),
            forward: self.forward.drop_last(),
        }
    }

    /// The tab after the host has reported each of `paths` in turn.
    pub open spec fn navigated_all(self, paths: Seq<PathView>) -> TabView
        decreases paths.len(),
    {
        if paths.len() == 0 {
            self
        } else {
            self.navigated_all(paths.drop_last()).navigated(paths.last())
        }
    }

    /// The tab after `steps` steps back.
    pub open spec fn navigate_back_times(self, steps: nat) -> TabView
        decreases steps,
    {
        if steps == 0 {
            self
        } else {
            self.navigate_back_times((steps - 1) as nat).navigate_back()
        }
    }
}

/// A walk: every path is a place, and none is the place just before it.
pub open spec fn is_walk(paths: Seq<PathView>) -> bool {
    &&& forall|i: int| 0 <= i < paths.len() ==> (#[trigger] paths[i]) is Some
    &&& forall|i: int| 0 < i < paths.len() ==> !same_path(paths[i - 1], #[trigger] paths[i])
}

proof fn lemma_walk_recorded(tab: TabView, paths: Seq<PathView>)
    requires
        paths.len() > 0,
        is_walk(paths),
    ensures
        tab.navigated_all(paths).current == paths.last(),
        tab.navigated_all(paths).backward == tab.navigated(paths[0]).backward + paths.drop_last(),
    decreases paths.len(),
{
    let before = paths.drop_last();
    if before.len() == 0 {
        assert(tab.navigated_all(before) == tab);
        assert(tab.navigated(paths[0]).backward + before =~= tab.navigated(paths[0]).backward);
    } else {
        lemma_walk_recorded(tab, before);
        assert(before.last() == paths[paths.len() - 2]);
        assert(tab.navigated(paths[0]).backward + before.drop_last().push(before.last())
            =~= tab.navigated(paths[0]).backward + before);
    }
}

proof fn lemma_back_along(tab: TabView, base: Seq<PathView>, paths: Seq<PathView>, steps: nat)
    requires
        paths.len() > 0,
        steps < paths.len(),
        tab.current == paths.last(),
        tab.backward == base + paths.drop_last(),
    ensures
        tab.navigate_back_times(steps).current == paths[paths.len() - 1 - steps],
        tab.navigate_back_times(steps).backward == base + paths.take(paths.len() - 1 - steps),
    decreases steps,
{
    if steps == 0 {
        assert(paths.take(paths.len() - 1) =~= paths.drop_last());
    } else {
        lemma_back_along(tab, base, paths, (steps - 1) as nat);
        let before = tab.navigate_back_times((steps - 1) as nat);
        let left = paths.len() - steps;
        assert(before.backward == base + paths.take(left));
        assert(before.backward.last() == paths[left - 1]);
        assert(before.backward.drop_last() =~= base + paths.take(left - 1));
    }
}

/// However a tab got where it is, after a walk through `paths` each step
/// back arrives at the place reported one earlier: `steps` steps back, for
/// any `steps` below the length of the walk, end at the path reported
/// `steps` before the last, and so as many steps back as there were reports
/// but one end at the first.
pub proof fn lemma_back_retraces_walk(tab: TabView, paths: Seq<PathView>, steps: nat)
    requires
        is_walk(paths),
        steps < paths.len(),
    ensures
        tab.navigated_all(paths).navigate_back_times(steps).current == paths[paths.len() - 1 - steps],
        steps + 1 < paths.len() ==> tab.navigated_all(paths).navigate_back_times(
            steps,
        ).can_go_backward(),
{
    lemma_walk_recorded(tab, paths);
    lemma_back_along(tab.navigated_all(paths), tab.navigated(paths[0]).backward, paths, steps);
}

/// A step back can always be taken back: afterwards there is somewhere to go
/// forward to, and the step forward restores the tab as it was, the place
/// it was at and both stacks.
pub proof fn lemma_back_then_forward(tab: TabView)
    requires
        tab.can_go_backward(),
    ensures
        tab.navigate_back().can_go_forward(),
        tab.navigate_back().navigate_forward() == tab,
{
    let back = tab.navigate_back();
    assert(back.forward.drop_last() =~= tab.forward);
    assert(back.backward.push(back.current) =~= tab.backward);
}

/// The mirror image: a step forward followed by a step back restores the tab.
pub proof fn lemma_forward_then_back(tab: TabView)
    requires
        tab.can_go_forward(),
    ensures
        tab.navigate_forward().can_go_backward(),
        tab.navigate_forward().navigate_back() == tab,
{
    let forward = tab.navigate_forward();
    assert(forward.backward.drop_last() =~= tab.backward);
    assert(forward.forward.push(forward.current) =~= tab.forward);
}

/// A report of the place the tab is at already leaves both stacks alone.
pub proof fn lemma_navigated_same_place(tab: TabView, path: PathView)
    requires
        same_path(tab.current, path),
    ensures
        tab.navigated(path).backward == tab.backward,
        tab.navigated(path).forward == tab.forward,
        tab.navigated(path).current == path,
{
}

/// Reporting a place twice is the same as reporting it once, wherever the
/// tab was before.
pub proof fn lemma_navigated_idempotent(tab: TabView, path: PathView)
    ensures
        tab.navigated(path).navigated(path) == tab.navigated(path),
{
}

/// Going back and then elsewhere opens a new branch: nothing is left to go
/// forward to, and the places to go back to are those from before the step
/// back.
pub proof fn lemma_back_then_diverge(tab: TabView, path: PathView)
    requires
        tab.wf(),
        tab.can_go_backward(),
        !same_path(tab.navigate_back().current, path),
    ensures
        tab.navigate_back().navigated(path).forward.len() == 0,
        tab.navigate_back().navigated(path).backward == tab.backward,
        tab.navigate_back().navigated(path).current == path,
{
    let back = tab.navigate_back();
    assert(back.current is Some);
    assert(back.backward.push(back.current) =~= tab.backward);
}

/// Every operation keeps a tab well formed.
pub proof fn lemma_history_stays_wf(tab: TabView, path: PathView)
    requires
        tab.wf(),
    ensures
        TabView::fresh(path).wf(),
        tab.navigated(path).wf(),
        tab.can_go_backward() ==> tab.navigate_back().wf(),
        tab.can_go_forward() ==> tab.navigate_forward().wf(),
{
}

/// One tab: where it is, and where it can go back and forward to.
#[derive(Debug)]
pub struct Tab {
    current_path: TabPath,
    forward_paths: Vec<TabPath>,
    backward_paths: Vec<TabPath>,
}

impl View for Tab {
    type V = TabView;

    closed spec fn view(&self) -> TabView {
        TabView {
            current: self.current_path.deep_view(),
            backward: self.backward_paths.deep_view(),
            forward: self.forward_paths.deep_view(),
        }
    }
}

/// A copy of `path` with the same value.
pub fn clone_path(path: &TabPath) -> (copy: TabPath)
    ensures
        copy.deep_view() == path.deep_view(),
{
    match path {
        Some(idl) => Some(idl.clone()),
        None => None,
    }
}

/// Whether `a` and `b` name the same place.
pub fn paths_equal(a: &TabPath, b: &TabPath) -> (equal: bool)
    ensures
        equal == same_path(a.deep_view(), b.deep_view()),
{
    match (a, b) {
        (None, None) => true,
        (Some(x), Some(y)) => x == y,
        _ => false,
    }
}

fn clone_paths(paths: &Vec<TabPath>) -> (copy: Vec<TabPath>)
    ensures
        copy.deep_view() == paths.deep_view(),
{
    let mut copy: Vec<TabPath> = Vec::new();
    let mut i: usize = 0;
    while i < paths.len()
        invariant
            i <= paths.len(),
            copy.len() == i,
            forall|j: int| 0 <= j < i ==> (#[trigger] copy[j]).deep_view() == paths[j].deep_view(),
        decreases paths.len() - i,
    {
        copy.push(clone_path(&paths[i]));
        i += 1;
    }
    assert(copy.deep_view() =~= paths.deep_view());
    copy
}

impl Clone for Tab {
    fn clone(&self) -> (copy: Self)
        ensures
            copy@ == self@,
    {
        Tab {
            current_path: clone_path(&self.current_path),
            forward_paths: clone_paths(&self.forward_paths),
            backward_paths: clone_paths(&self.backward_paths),
        }
    }
}

impl Tab {
    /// Opens a tab at `path`, with no history.
    pub fn new(path: TabPath) -> (tab: Tab)
        ensures
            tab@ == TabView::fresh(path.deep_view()),
            tab@.wf(),
    {
        let tab = Tab { current_path: path, forward_paths: Vec::new(), backward_paths: Vec::new() };
        assert(tab.forward_paths.deep_view() =~= Seq::empty());
        assert(tab.backward_paths.deep_view() =~= Seq::empty());
        tab
    }

    /// Where the tab is.
    pub fn current_path(&self) -> (path: &TabPath)
        ensures
            path.deep_view() == self@.current,
    {
        &self.current_path
    }

    /// The places to go back to, the nearest last.
    pub fn backward_paths(&self) -> (paths: &Vec<TabPath>)
        ensures
            paths.deep_view() == self@.backward,
    {
        &self.backward_paths
    }

    /// The places to go forward to, the nearest last.
    pub fn forward_paths(&self) -> (paths: &Vec<TabPath>)
        ensures
            paths.deep_view() == self@.forward,
    {
        &self.forward_paths
    }

    pub fn can_go_backward(&self) -> (can: bool)
        ensures
            can == self@.can_go_backward(),
    {
        self.backward_paths.len() > 0
    }

    pub fn can_go_forward(&self) -> (can: bool)
        ensures
            can == self@.can_go_forward(),
    {
        self.forward_paths.len() > 0
    }

    /// Records that the host is now at `path`. Coming from another place, the
    /// tab remembers that place as the one to go back to and forgets where it
    /// could go forward to; told the place it is at already, or coming from
    /// nowhere, it keeps both stacks.
    pub fn navigated(&mut self, path: TabPath)
        requires
            old(self)@.wf(),
        ensures
            final(self)@ == old(self)@.navigated(path.deep_view()),
            final(self)@.wf(),
    {
        if self.current_path.is_some() && !paths_equal(&self.current_path, &path) {
            let mut previous: TabPath = path;
            std::mem::swap(&mut self.current_path, &mut previous);
            self.forward_paths.clear();
            self.backward_paths.push(previous);
            assert(self.forward_paths.deep_view() =~= Seq::empty());
            assert(self.backward_paths.deep_view() =~= old(self)@.backward.push(old(self)@.current));
        } else {
            self.current_path = path;
        }
    }

    /// Steps back: the place left becomes the nearest to go forward to.
    /// Returns the place arrived at; with nowhere to go back to, nothing
    /// changes and the error is `NoHistory`.
    pub fn navigate_back(&mut self) -> (arrived: Result<TabPath, TabError>)
        requires
            old(self)@.wf(),
        ensures
            final(self)@.wf(),
            match arrived {
                Ok(path) => {
                    &&& old(self)@.can_go_backward()
                    &&& final(self)@ == old(self)@.navigate_back()
                    &&& path.deep_view() == final(self)@.current
                },
                Err(e) => {
                    &&& !old(self)@.can_go_backward()
                    &&& e == TabError::NoHistory
                    &&& final(self)@ == old(self)@
                },
            },
    {
        match self.backward_paths.pop() {
            None => Err(TabError::NoHistory),
            Some(next) => {
                let arrived = clone_path(&next);
                let mut previous: TabPath = next;
                std::mem::swap(&mut self.current_path, &mut previous);
                self.forward_paths.push(previous);
                assert(self.backward_paths.deep_view() =~= old(self)@.backward.drop_last());
                assert(self.forward_paths.deep_view() =~= old(self)@.forward.push(old(self)@.current));
                Ok(arrived)
            },
        }
    }

    /// Steps forward: the place left becomes the nearest to go back to.
    /// Returns the place arrived at; with nowhere to go forward to, nothing
    /// changes and the error is `NoHistory`.
    pub fn navigate_forward(&mut self) -> (arrived: Result<TabPath, TabError>)
        requires
            old(self)@.wf(),
        ensures
            final(self)@.wf(),
            match arrived {
                Ok(path) => {
                    &&& old(self)@.can_go_forward()
                    &&& final(self)@ == old(self)@.navigate_forward()
                    &&& path.deep_view() == final(self)@.current
                },
                Err(e) => {
                    &&& !old(self)@.can_go_forward()
                    &&& e == TabError::NoHistory
                    &&& final(self)@ == old(self)@
                },
            },
    {
        match self.forward_paths.pop() {
            None => Err(TabError::NoHistory),
            Some(next) => {
                let arrived = clone_path(&next);
                let mut previous: TabPath = next;
                std::mem::swap(&mut self.current_path, &mut previous);
                self.backward_paths.push(previous);
                assert(self.forward_paths.deep_view() =~= old(self)@.forward.drop_last());
                assert(self.backward_paths.deep_view() =~= old(self)@.backward.push(old(self)@.current));
                Ok(arrived)
            },
        }
    }
}

} // verus!
