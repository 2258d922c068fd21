//! The messages by which the host's intercepted entry points reach the tab
//! bar, as they arrive at the host's top window.

use vstd::prelude::*;

use crate::host::{
    lemma_request_flags, HostCommand, HostCommandView, Reply, SBSP_NAVIGATEBACK,
    SBSP_NAVIGATEFORWARD, SBSP_WRITENOHISTORY,
};
use crate::tabs::tab_bar::{TabBar, TabBarView};

verus! {

/// What a message to the host's top window is, as far as the tab bar is
/// concerned.
#[derive(Clone, Copy, Debug, PartialEq, Eq, Structural)]
pub enum HostSignal {
    /// The host is about to open a window; `lparam` holds the place.
    NewWindow,
    /// The host was asked to browse; `wparam` points at the flags of the
    /// request.
    BrowseObject,
    /// Anything else: it goes on to the procedure installed before.
    Other,
}

/// Which way a request to browse asks to go, by its flags.
#[derive(Clone, Copy, Debug, PartialEq, Eq, Structural)]
pub enum Direction {
    Back,
    Forward,
    Elsewhere,
}

/// Which way `flags` ask to go. A request that asks both ways goes back.
pub open spec fn direction(flags: u32) -> Direction {
    if flags & SBSP_NAVIGATEBACK != 0 {
        Direction::Back
    } else if flags & SBSP_NAVIGATEFORWARD != 0 {
        Direction::Forward
    } else {
        Direction::Elsewhere
    }
}

/// What the tab bar does with a request to browse that was relayed to the
/// host's window.
pub struct Relayed {
    /// The tab bar afterwards.
    pub after: TabBarView,
    /// What the tab bar asks of the host in its turn, if anything.
    pub request: Option<HostCommandView>,
    /// The answer to the relayed request.
    pub reply: Reply,
}

/// A request to go back or forward is taken up by the tab bar: the selected
/// tab steps that way, and the answer is 1, which says that the request was
/// seen to, whether or not the tab could step. Any other request is answered
/// 0 and left to the host.
pub open spec fn relayed(bar: TabBarView, flags: u32) -> Relayed {
    match direction(flags) {
        Direction::Back => Relayed {
            after: bar.navigate_back().after,
            request: match bar.navigate_back().result {
                Ok(command) => Some(command),
                Err(_) => None,
            },
            reply: Reply::Handled(1),
        },
        Direction::Forward => Relayed {
            after: bar.navigate_forward().after,
            request: match bar.navigate_forward().result {
                Ok(command) => Some(command),
                Err(_) => None,
            },
            reply: Reply::Handled(1),
        },
        Direction::Elsewhere => Relayed { after: bar, request: None, reply: Reply::Handled(0) },
    }
}

/// The procedure that stands before that of the host's top window. It knows
/// the two messages by which the intercepted entry points of the host reach
/// the tab bar.
#[derive(Debug)]
pub struct ExplorerSubclass {
    explorer_handle: isize,
    show_window_message_id: u32,
    browse_object_message_id: u32,
}

/// The mathematical value of an [`ExplorerSubclass`].
pub struct ExplorerSubclassView {
    pub explorer_handle: isize,
    pub show_window_message_id: u32,
    pub browse_object_message_id: u32,
}

impl ExplorerSubclassView {
    /// What `message` is. Should both messages have got the same number, it
    /// is taken for the opening of a window.
    pub open spec fn signal(self, message: u32) -> HostSignal {
        if message == self.show_window_message_id {
            HostSignal::NewWindow
        } else if message == self.browse_object_message_id {
            HostSignal::BrowseObject
        } else {
            HostSignal::Other
        }
    }
}

impl View for ExplorerSubclass {
    type V = ExplorerSubclassView;

    closed spec fn view(&self) -> ExplorerSubclassView {
        ExplorerSubclassView {
            explorer_handle: self.explorer_handle,
            show_window_message_id: self.show_window_message_id,
            browse_object_message_id: self.browse_object_message_id,
        }
    }
}

impl ExplorerSubclass {
    /// The procedure for the window `explorer_handle`, given the numbers
    /// under which the two messages were registered.
    pub fn new(
        explorer_handle: isize,
        show_window_message_id: u32,
        browse_object_message_id: u32,
    ) -> (subclass: Self)
        ensures
            subclass@ == (ExplorerSubclassView {
                explorer_handle,
                show_window_message_id,
                browse_object_message_id,
            }),
    {
        ExplorerSubclass { explorer_handle, show_window_message_id, browse_object_message_id }
    }

    /// The host's top window.
    pub fn explorer_handle(&self) -> (handle: isize)
        ensures
            handle == self@.explorer_handle,
    {
        self.explorer_handle
    }

    /// Says what `message` is.
    pub fn window_procedure(&self, message: u32) -> (signal: HostSignal)
        ensures
            signal == self@.signal(message),
    {
        if message == self.show_window_message_id {
            HostSignal::NewWindow
        } else if message == self.browse_object_message_id {
            HostSignal::BrowseObject
        } else {
            HostSignal::Other
        }
    }

    /// The answer to the host that was about to open a window: 1, the
    /// window is not to be opened, where the tab was opened in its place and
    /// the host followed; 0 where not.
    pub fn new_window_reply(performed: bool) -> (reply: Reply)
        ensures
            reply == Reply::Handled(
                if performed {
                    1isize
                } else {
                    0isize
                },
            ),
    {
        if performed {
            Reply::Handled(1)
        } else {
            Reply::Handled(0)
        }
    }

    /// Takes a request to browse with `flags` that was relayed to the host's
    /// window. Returns what the tab bar asks of the host in its turn, if
    /// anything, and the answer to the relayed request.
    pub fn browse_object(tab_bar: &mut TabBar, flags: u32) -> (taken: (Option<HostCommand>, Reply))
        requires
            old(tab_bar).wf(),
        ensures
            final(tab_bar).wf(),
            final(tab_bar)@ == relayed(old(tab_bar)@, flags).after,
            taken.0.deep_view() == relayed(old(tab_bar)@, flags).request,
            taken.1 == relayed(old(tab_bar)@, flags).reply,
    {
        if flags & SBSP_NAVIGATEBACK != 0 {
            let request = match tab_bar.navigate_back() {
                Ok(command) => Some(command),
                Err(_) => None,
            };
            return (request, Reply::Handled(1));
        }
        if flags & SBSP_NAVIGATEFORWARD != 0 {
            let request = match tab_bar.navigate_forward() {
                Ok(command) => Some(command),
                Err(_) => None,
            };
            return (request, Reply::Handled(1));
        }
        (None, Reply::Handled(0))
    }
}

/// What the tab bar asks of the host when it steps back or forward leaves
/// both direction flags clear, so that the request, relayed in its turn, is
/// left to the host and not taken for another step; and it tells the host to
/// write no history of its own.
pub proof fn lemma_own_request_is_left_to_host(bar: TabBarView, flags: u32)
    ensures
        relayed(bar, flags).request matches Some(HostCommandView::Browse { flags: own, .. })
            ==> direction(own) == Direction::Elsewhere && own & SBSP_WRITENOHISTORY != 0,
{
    lemma_request_flags();
}

} // verus!
