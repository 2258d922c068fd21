//! The back and forward buttons of the host, which the tab bar takes over.

use vstd::prelude::*;

use crate::host::{HostCommand, HostCommandView, Reply, TB_ENABLEBUTTON};

verus! {

/// The bit that marks the `lparam` of a `TB_ENABLEBUTTON` message as sent by
/// the tab bar. The host's own messages carry a plain 0 or 1.
pub const OWN_MARK: isize = 0x10000;

/// The travel toolbar of the host: its back and forward buttons. The tab bar
/// alone says which of them are enabled.
#[derive(Debug)]
pub struct TravelBarControl {
    handle: isize,
}

impl View for TravelBarControl {
    type V = isize;

    closed spec fn view(&self) -> isize {
        self.handle
    }
}

/// The `lparam` that tells the toolbar to enable or disable a button, marked
/// as the tab bar's own.
pub open spec fn marked(active: bool) -> isize {
    if active {
        (OWN_MARK + 1) as isize
    } else {
        OWN_MARK
    }
}

/// What becomes of a message to the toolbar. A `TB_ENABLEBUTTON` without the
/// mark stops here as if it had been done; one with the mark goes on without
/// it; any other message goes on as it is.
pub open spec fn filtered(message: u32, lparam: isize) -> Reply {
    if message == TB_ENABLEBUTTON {
        if lparam & OWN_MARK == 0 {
            Reply::Handled(1)
        } else {
            Reply::Forward(lparam & !OWN_MARK)
        }
    } else {
        Reply::Forward(lparam)
    }
}

impl TravelBarControl {
    /// The control of the toolbar whose window is `handle`.
    pub fn new(handle: isize) -> (control: Self)
        ensures
            control@ == handle,
    {
        TravelBarControl { handle }
    }

    /// The toolbar's window.
    pub fn handle(&self) -> (handle: isize)
        ensures
            handle == self@,
    {
        self.handle
    }

    /// The procedure that stands before the toolbar's own.
    pub fn subclass_proc(message: u32, lparam: isize) -> (reply: Reply)
        ensures
            reply == filtered(message, lparam),
    {
        if message == TB_ENABLEBUTTON {
            if lparam & OWN_MARK == 0 {
                Reply::Handled(1)
            } else {
                Reply::Forward(lparam & !OWN_MARK)
            }
        } else {
            Reply::Forward(lparam)
        }
    }

    /// The message that enables or disables the button `index`.
    pub fn set_button_active(&self, index: usize, active: bool) -> (command: HostCommand)
        ensures
            command@ == (HostCommandView::EnableButton {
                handle: self@,
                button: index,
                lparam: marked(active),
            }),
    {
        let lparam: isize = if active {
            OWN_MARK + 1
        } else {
            OWN_MARK
        };
        HostCommand::EnableButton { handle: self.handle, button: index, lparam }
    }
}

/// What the tab bar sends reaches the toolbar, and arrives there as the plain
/// 1 or 0 that the toolbar understands.
pub proof fn lemma_own_message_passes(active: bool)
    ensures
        filtered(TB_ENABLEBUTTON, marked(active)) == Reply::Forward(
            if active {
                1isize
            } else {
                0isize
            },
        ),
{
    assert(0x10001isize & 0x10000isize != 0) by (bit_vector);
    assert(0x10000isize & 0x10000isize != 0) by (bit_vector);
    assert(0x10001isize & !0x10000isize == 1) by (bit_vector);
    assert(0x10000isize & !0x10000isize == 0) by (bit_vector);
}

/// What the host sends of its own accord, a plain 1 or 0, does not reach the
/// toolbar.
pub proof fn lemma_host_message_stops(lparam: isize)
    requires
        lparam == 0 || lparam == 1,
    ensures
        filtered(TB_ENABLEBUTTON, lparam) == Reply::Handled(1),
{
    assert(0isize & 0x10000isize == 0) by (bit_vector);
    assert(1isize & 0x10000isize == 0) by (bit_vector);
}

} // verus!
