//! The interception of two entry points of the host: the call that browses
//! to a place, and the call that opens a new window. The patching of the
//! entry points themselves is the caller's; what stands here is the state
//! that says whether an entry point is patched, and what becomes of a call
//! that was caught.

use vstd::prelude::*;

use crate::host::TabError;

verus! {

/// The result code of a call that went through.
pub const S_OK: i32 = 0;

/// Whether an entry point is patched.
#[derive(Clone, Copy, Debug, PartialEq, Eq, Structural)]
pub enum Hook {
    /// Nobody has tried yet.
    Absent,
    /// The patch is in place.
    Installed,
    /// The patch could not be put in place; nobody tries again.
    Failed,
}

/// What is to be done to an entry point.
#[derive(Clone, Copy, Debug, PartialEq, Eq, Structural)]
pub enum Install {
    /// Nothing.
    Nothing,
    /// Register the message and patch the entry point.
    Create,
    /// Switch the patch, which is in place, on again.
    Enable,
}

/// What becomes of a call that was caught.
#[derive(Clone, Copy, Debug, PartialEq, Eq, Structural)]
pub enum Passage {
    /// It goes on to the host's own code.
    CallThrough,
    /// It returns at once, with this result code.
    Return(i32),
}

/// The state of the two patches. A process has one.
#[derive(Clone, Copy, Debug, PartialEq, Eq, Structural)]
pub struct Detours {
    /// The patch of the call that browses.
    pub browse_object: Hook,
    /// The message by which a caught call to browse is relayed.
    pub message_id_browse_object: u32,
    /// The patch of the call that opens a window.
    pub show_window: Hook,
    /// The window to which a caught call to open a window is relayed.
    pub show_window_explorer_handle: Option<isize>,
    /// The message by which it is relayed.
    pub show_window_message_id: u32,
}

impl Detours {
    /// The state of a process in which nothing has been patched.
    pub fn new() -> (detours: Detours)
        ensures
            detours == (Detours {
                browse_object: Hook::Absent,
                message_id_browse_object: 0,
                show_window: Hook::Absent,
                show_window_explorer_handle: None,
                show_window_message_id: 0,
            }),
    {
        Detours {
            browse_object: Hook::Absent,
            message_id_browse_object: 0,
            show_window: Hook::Absent,
            show_window_explorer_handle: None,
            show_window_message_id: 0,
        }
    }

    /// What asking for the patch of the call that browses leads to.
    pub open spec fn browse_object_step(self) -> Install {
        if self.browse_object == Hook::Absent {
            Install::Create
        } else {
            Install::Nothing
        }
    }

    /// What asking for the patch of the call that opens a window leads to.
    pub open spec fn show_window_step(self) -> Install {
        match self.show_window {
            Hook::Absent => Install::Create,
            Hook::Installed => Install::Enable,
            Hook::Failed => Install::Nothing,
        }
    }

    /// The state after a report on the patching of the call that browses.
    /// Once the patch has been tried, its state stays what it is.
    pub open spec fn with_browse_object(self, message_id: u32, installed: bool) -> Detours {
        if self.browse_object == Hook::Absent {
            Detours {
                browse_object: if installed {
                    Hook::Installed
                } else {
                    Hook::Failed
                },
                message_id_browse_object: message_id,
                ..self
            }
        } else {
            self
        }
    }

    /// The state after a report on the patching of the call that opens a
    /// window, or on switching the patch on again.
    pub open spec fn with_show_window(self, message_id: u32, installed: bool) -> Detours {
        match self.show_window {
            Hook::Absent => Detours {
                show_window: if installed {
                    Hook::Installed
                } else {
                    Hook::Failed
                },
                show_window_message_id: message_id,
                ..self
            },
            Hook::Installed => Detours {
                show_window: if installed {
                    Hook::Installed
                } else {
                    Hook::Failed
                },
                ..self
            },
            Hook::Failed => self,
        }
    }

    /// Records how the patching of the call that browses went:
    /// `message_id` is the number of the registered message, `installed`
    /// whether the patch is in place.
    pub fn browse_object_hooked(&mut self, message_id: u32, installed: bool)
        ensures
            *final(self) == old(self).with_browse_object(message_id, installed),
    {
        if self.browse_object == Hook::Absent {
            self.message_id_browse_object = message_id;
            self.browse_object = if installed {
                Hook::Installed
            } else {
                Hook::Failed
            };
        }
    }

    /// Records how the patching of the call that opens a window went, or
    /// how switching the patch on again went.
    pub fn show_window_hooked(&mut self, message_id: u32, installed: bool)
        ensures
            *final(self) == old(self).with_show_window(message_id, installed),
    {
        match self.show_window {
            Hook::Absent => {
                self.show_window_message_id = message_id;
                self.show_window = if installed {
                    Hook::Installed
                } else {
                    Hook::Failed
                };
            },
            Hook::Installed => {
                if !installed {
                    self.show_window = Hook::Failed;
                }
            },
            Hook::Failed => {},
        }
    }

    /// Where a caught call to open a window is relayed: the window and the
    /// message. Without a window the error is `HostUnavailable`.
    pub fn show_window_target(&self) -> (target: Result<(isize, u32), TabError>)
        ensures
            target == match self.show_window_explorer_handle {
                Some(handle) => Ok::<(isize, u32), TabError>((handle, self.show_window_message_id)),
                None => Err::<(isize, u32), TabError>(TabError::HostUnavailable),
            },
    {
        match self.show_window_explorer_handle {
            Some(handle) => Ok((handle, self.show_window_message_id)),
            None => Err(TabError::HostUnavailable),
        }
    }
}

/// Asks for the patch of the call that browses. It is put in place once in
/// the life of a process: asked again, after success or failure, this leads
/// to nothing.
pub fn hook_browse_object(detours: &Detours) -> (step: Install)
    ensures
        step == detours.browse_object_step(),
{
    if detours.browse_object == Hook::Absent {
        Install::Create
    } else {
        Install::Nothing
    }
}

/// Asks for the patch of the call that opens a window, on behalf of the
/// window `explorer_handle`, to which caught calls are relayed from now on.
/// The patch is put in place once in the life of a process; asked again, it
/// is switched on again.
pub fn hook_show_window(detours: &mut Detours, explorer_handle: isize) -> (step: Install)
    ensures
        *final(detours) == (Detours {
            show_window_explorer_handle: Some(explorer_handle),
            ..*old(detours)
        }),
        step == old(detours).show_window_step(),
{
    detours.show_window_explorer_handle = Some(explorer_handle);
    match detours.show_window {
        Hook::Absent => Install::Create,
        Hook::Installed => Install::Enable,
        Hook::Failed => Install::Nothing,
    }
}

/// What becomes of a caught call to browse. `relayed` is what the host's
/// window answered when the call was relayed to it, or nothing where the
/// window could not be found. The relay lets the tab bar see the call;
/// whatever the answer, the call goes on to the host's own code. A call to
/// browse is never stopped: only a call to open a window is.
pub fn browse_object_detour(relayed: Option<isize>) -> (passage: Passage)
    ensures
        passage == Passage::CallThrough,
{
    Passage::CallThrough
}

/// What becomes of a caught call to open a window. `relayed` is what the
/// host's window answered when the call was relayed to it. Answered 0, the
/// call goes on to the host's own code and the window is opened; with any
/// other answer a tab stands in for the window and the call returns `S_OK`.
pub fn show_window_detour(relayed: isize) -> (passage: Passage)
    ensures
        passage == if relayed == 0 {
            Passage::CallThrough
        } else {
            Passage::Return(S_OK)
        },
{
    if relayed == 0 {
        Passage::CallThrough
    } else {
        Passage::Return(S_OK)
    }
}

/// An entry point is patched at most once: whatever came of the patching of
/// the call that browses, asking for it again leads to nothing, and a
/// second report on it changes nothing.
pub proof fn lemma_browse_object_hooked_once(
    detours: Detours,
    message_id: u32,
    installed: bool,
    other_id: u32,
    other_installed: bool,
)
    ensures
        detours.with_browse_object(message_id, installed).browse_object_step() == Install::Nothing,
        detours.with_browse_object(message_id, installed).with_browse_object(
            other_id,
            other_installed,
        ) == detours.with_browse_object(message_id, installed),
{
}

/// The call that opens a window is patched at most once too: after a
/// report on it the patch is never created again, and the message that was
/// registered for it stays.
pub proof fn lemma_show_window_hooked_once(
    detours: Detours,
    message_id: u32,
    installed: bool,
    other_id: u32,
    other_installed: bool,
)
    ensures
        detours.with_show_window(message_id, installed).show_window_step() != Install::Create,
        detours.with_show_window(message_id, installed).with_show_window(
            other_id,
            other_installed,
        ).show_window_message_id == detours.with_show_window(
            message_id,
            installed,
        ).show_window_message_id,
{
}

} // verus!
