//! What the tab bar and the host say to each other: the errors, the answers
//! to messages, the commands for the host, and the numbers of the messages
//! and flags that pass between them.

use vstd::prelude::*;

use crate::idl::{Idl, IdlView};

verus! {

/// Why an operation on the tab bar did not go through.
#[derive(Clone, Copy, Debug, PartialEq, Eq, Structural)]
pub enum TabError {
    /// No tab, index, key or location of that kind is there.
    NotFound,
    /// The history stack asked for is empty.
    NoHistory,
    /// The strip turned a request down.
    OperationFailed,
    /// The host can no longer be reached.
    HostUnavailable,
}

/// The result code of a call that failed, with nothing more to be said.
pub const E_FAIL: i32 = -0x7FFFBFFB;

impl TabError {
    /// The result code under which the host sees the error: `E_FAIL`,
    /// whatever its kind.
    pub fn hresult(&self) -> (code: i32)
        ensures
            code == E_FAIL,
    {
        E_FAIL
    }
}

/// What a window procedure answers to a message.
#[derive(Clone, Copy, Debug, PartialEq, Eq, Structural)]
pub enum Reply {
    /// The message stops here, with this result.
    Handled(isize),
    /// The message goes on, with this `lparam`, to the procedure that was
    /// installed before.
    Forward(isize),
}

/// The message that asks a window to paint itself.
pub const WM_PAINT: u32 = 0x000F;

/// The message that carries a command picked from a menu.
pub const WM_COMMAND: u32 = 0x0111;

/// The pointer moved over the window.
pub const WM_MOUSEMOVE: u32 = 0x0200;

/// The primary button went down.
pub const WM_LBUTTONDOWN: u32 = 0x0201;

/// The secondary button came up.
pub const WM_RBUTTONUP: u32 = 0x0205;

/// The middle button went down.
pub const WM_MBUTTONDOWN: u32 = 0x0207;

/// The pointer left the window.
pub const WM_MOUSELEAVE: u32 = 0x02A3;

/// In the `wparam` of a button message: the control key is held.
pub const MK_CONTROL: usize = 0x0008;

/// In the flags of a request to browse: show the place in the same browser.
pub const SBSP_SAMEBROWSER: u32 = 0x0001;

/// In the flags of a request to browse: the host is not to write the move
/// into its history. The tab bar sets it in the request that follows a step
/// back or forward: the tab has written that step into its own history, and
/// the host's report of having arrived is to add nothing to it.
pub const SBSP_WRITENOHISTORY: u32 = 0x0800_0000;

/// The flags of an ordinary request of the tab bar, which takes the host to
/// the place of a tab: the same browser, and nothing said of history.
pub const BROWSE_TO_TAB: u32 = SBSP_SAMEBROWSER;

/// The flags of the request that follows a step back or forward: the same
/// browser, and no history written.
pub const BROWSE_AFTER_STEP: u32 = SBSP_SAMEBROWSER | SBSP_WRITENOHISTORY;

/// In the flags of a request to browse: go back one place.
pub const SBSP_NAVIGATEBACK: u32 = 0x4000;

/// In the flags of a request to browse: go forward one place.
pub const SBSP_NAVIGATEFORWARD: u32 = 0x8000;

/// The message that enables or disables a button of a toolbar.
pub const TB_ENABLEBUTTON: u32 = 0x0401;

/// Something for the caller to do to the host. The tab bar decides; it does
/// not reach the host itself.
#[derive(Debug)]
pub enum HostCommand {
    /// Ask the browser to show `path`, with these flags.
    Browse { path: Idl, flags: u32 },
    /// Send `TB_ENABLEBUTTON` to the toolbar `handle`, for this button and
    /// with this `lparam`.
    EnableButton { handle: isize, button: usize, lparam: isize },
    /// Bring the window `handle` to the foreground.
    SetForeground { handle: isize },
}

/// The mathematical value of a [`HostCommand`].
pub enum HostCommandView {
    Browse { path: IdlView, flags: u32 },
    EnableButton { handle: isize, button: usize, lparam: isize },
    SetForeground { handle: isize },
}

impl View for HostCommand {
    type V = HostCommandView;

    open spec fn view(&self) -> HostCommandView {
        match self {
            HostCommand::Browse { path, flags } => HostCommandView::Browse {
                path: path@,
                flags: *flags,
            },
            HostCommand::EnableButton { handle, button, lparam } => HostCommandView::EnableButton {
                handle: *handle,
                button: *button,
                lparam: *lparam,
            },
            HostCommand::SetForeground { handle } => HostCommandView::SetForeground {
                handle: *handle,
            },
        }
    }
}

impl DeepView for HostCommand {
    type V = HostCommandView;

    open spec fn deep_view(&self) -> HostCommandView {
        self@
    }
}

/// The mathematical value of what an operation hands back: that of the
/// value where it went through, the error where it did not.
pub open spec fn result_view<T: DeepView>(result: Result<T, TabError>) -> Result<T::V, TabError> {
    match result {
        Ok(value) => Ok(value.deep_view()),
        Err(e) => Err(e),
    }
}

/// What tells the two kinds of request apart: the request after a step back
/// or forward has the flag that suppresses the writing of history, and the
/// ordinary request has not. Both ask for the same browser, and neither asks
/// the host to go back or forward by its own history.
pub proof fn lemma_request_flags()
    ensures
        BROWSE_AFTER_STEP & SBSP_WRITENOHISTORY != 0,
        BROWSE_TO_TAB & SBSP_WRITENOHISTORY == 0,
        BROWSE_AFTER_STEP & SBSP_SAMEBROWSER != 0,
        BROWSE_TO_TAB & SBSP_SAMEBROWSER != 0,
        BROWSE_AFTER_STEP & SBSP_NAVIGATEBACK == 0,
        BROWSE_AFTER_STEP & SBSP_NAVIGATEFORWARD == 0,
        BROWSE_TO_TAB & SBSP_NAVIGATEBACK == 0,
        BROWSE_TO_TAB & SBSP_NAVIGATEFORWARD == 0,
        BROWSE_AFTER_STEP != BROWSE_TO_TAB,
{
    assert((0x1u32 | 0x0800_0000u32) & 0x0800_0000u32 != 0) by (bit_vector);
    assert(0x1u32 & 0x0800_0000u32 == 0) by (bit_vector);
    assert((0x1u32 | 0x0800_0000u32) & 0x1u32 != 0) by (bit_vector);
    assert(0x1u32 & 0x1u32 != 0) by (bit_vector);
    assert((0x1u32 | 0x0800_0000u32) & 0x4000u32 == 0) by (bit_vector);
    assert((0x1u32 | 0x0800_0000u32) & 0x8000u32 == 0) by (bit_vector);
    assert(0x1u32 & 0x4000u32 == 0) by (bit_vector);
    assert(0x1u32 & 0x8000u32 == 0) by (bit_vector);
    assert((0x1u32 | 0x0800_0000u32) != 0x1u32) by (bit_vector);
}

} // verus!
