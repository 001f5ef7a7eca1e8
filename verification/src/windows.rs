//! The adapter for an input method that is driven by window messages.

use vstd::prelude::*;
use crate::ime::ImeManager;

verus! {

/// A control message for the input method window of the foreground window.
#[derive(Clone, Copy, PartialEq, Eq, Debug)]
pub enum ImeControl {
    /// Opens the input method (`true`) or closes it.
    SetOpenStatus(bool),
}

/// The number of the message that controls an input method window.
pub const WM_IME_CONTROL: u32 = 0x0283;

/// The sub-command that asks whether the input method is open.
pub const IMC_GETOPENSTATUS: usize = 0x0005;

/// The sub-command that opens or closes the input method.
pub const IMC_SETOPENSTATUS: usize = 0x0006;

/// A message as it is sent to the input method window, synchronously.
#[derive(Clone, Copy, PartialEq, Eq, Debug)]
pub struct WindowMessage {
    /// The message number.
    pub message: u32,
    /// The sub-command.
    pub wparam: usize,
    /// The payload of the sub-command.
    pub lparam: isize,
}

/// The message that asks for the open status, where the foreground window
/// has an input method window; without one nothing is asked.
pub open spec fn status_query_for(window_found: bool) -> Option<WindowMessage> {
    if window_found {
        Some(WindowMessage { message: WM_IME_CONTROL, wparam: IMC_GETOPENSTATUS, lparam: 0 })
    } else {
        None
    }
}

/// The message that carries a command, where there is a command and the
/// foreground window has an input method window; without one nothing is sent.
pub open spec fn message_for(command: Option<ImeControl>, window_found: bool) -> Option<
    WindowMessage,
> {
    match command {
        Some(ImeControl::SetOpenStatus(open)) if window_found => Some(
            WindowMessage {
                message: WM_IME_CONTROL,
                wparam: IMC_SETOPENSTATUS,
                lparam: open_status_payload(open) as isize,
            },
        ),
        _ => None,
    }
}

/// The message to send for the status query. `window_found` says whether the
/// foreground window and its input method window were both resolved.
pub fn status_query(window_found: bool) -> (message: Option<WindowMessage>)
    ensures
        message == status_query_for(window_found),
{
    if window_found {
        Some(WindowMessage { message: WM_IME_CONTROL, wparam: IMC_GETOPENSTATUS, lparam: 0 })
    } else {
        None
    }
}

/// The message to send for what the adapter decided. `window_found` says
/// whether the foreground window and its input method window were both
/// resolved just now.
pub fn control_message(command: Option<ImeControl>, window_found: bool) -> (message: Option<
    WindowMessage,
>)
    ensures
        message == message_for(command, window_found),
{
    match command {
        Some(control) => if window_found {
            Some(
                WindowMessage {
                    message: WM_IME_CONTROL,
                    wparam: IMC_SETOPENSTATUS,
                    lparam: control.payload(),
                },
            )
        } else {
            None
        },
        None => None,
    }
}

/// The integer that a control message carries for an open status.
pub open spec fn open_status_payload(open: bool) -> int {
    if open { 1 } else { 0 }
}

/// Whether the answer to a status query says that the input method is open.
pub open spec fn reply_is_open(reply: isize) -> bool {
    reply != 0
}

impl ImeControl {
    /// The integer payload of the message: 1 to open, 0 to close.
    pub fn payload(&self) -> (value: isize)
        ensures
            value == match *self {
                ImeControl::SetOpenStatus(open) => open_status_payload(open),
            },
    {
        match self {
            ImeControl::SetOpenStatus(true) => 1,
            ImeControl::SetOpenStatus(false) => 0,
        }
    }
}

/// The adapter keeps nothing between calls: the window is resolved afresh for
/// every message.
#[derive(Clone, Copy, PartialEq, Eq, Debug)]
pub struct WindowsImeManager {}

impl WindowsImeManager {
    /// The adapter; there is only one.
    pub fn new() -> (manager: Self)
        ensures
            manager == (WindowsImeManager {  }),
    {
        WindowsImeManager {  }
    }

    /// Where the foreground window has no input method window, a restore
    /// sends nothing, whatever the status; and only a restore to `Some(true)`
    /// sends anything where it has one.
    pub proof fn lemma_restore_needs_window(
        self,
        status: Option<bool>,
        post: Self,
        command: Option<ImeControl>,
        window_found: bool,
    )
        requires
            self.enabled(status, post, command),
        ensures
            !window_found ==> message_for(command, window_found) is None,
            message_for(command, window_found) is Some <==> window_found && status == Some(true),
            message_for(command, window_found) matches Some(m) ==> m.lparam == 1,
    {
    }

    /// Where the foreground window has no input method window, there is no
    /// status query, and the suppression without a reading reports "off" and
    /// sends nothing.
    pub proof fn lemma_suppress_needs_window(
        self,
        post: Self,
        was_active: bool,
        command: Option<ImeControl>,
    )
        requires
            self.disabled(None, post, was_active, command),
        ensures
            status_query_for(false) is None,
            !was_active,
            message_for(command, false) is None,
            command is None,
    {
    }
}

impl ImeManager for WindowsImeManager {
    /// The answer of the input method window to a status query; there is no
    /// reading where the foreground window has no such window.
    type Reading = isize;

    type Command = ImeControl;

    /// Whether the input method of the foreground window is open.
    type Native = bool;

    open spec fn reads_status(&self) -> bool {
        true
    }

    open spec fn reading_of(&self, native: bool) -> Option<isize> {
        Some(if native { 1isize } else { 0isize })
    }

    open spec fn is_active(native: bool) -> bool {
        native
    }

    open spec fn carry_out(command: Option<ImeControl>, native: bool) -> bool {
        match command {
            Some(ImeControl::SetOpenStatus(open)) => open,
            None => native,
        }
    }

    open spec fn disabled(
        &self,
        reading: Option<isize>,
        post: Self,
        was_active: bool,
        command: Option<ImeControl>,
    ) -> bool {
        match reading {
            Some(reply) => was_active == reply_is_open(reply) && command == Some(
                ImeControl::SetOpenStatus(false),
            ),
            None => !was_active && command is None,
        }
    }

    open spec fn enabled(&self, status: Option<bool>, post: Self, command: Option<ImeControl>) -> bool {
        command == if status == Some(true) {
            Some(ImeControl::SetOpenStatus(true))
        } else {
            None
        }
    }

    fn wants_reading(&self) -> (wanted: bool) {
        true
    }

    fn disable_and_get_status(&mut self, reading: Option<isize>) -> (out: (bool, Option<ImeControl>)) {
        match reading {
            Some(reply) => (reply != 0, Some(ImeControl::SetOpenStatus(false))),
            None => (false, None),
        }
    }

    fn enable_with_status(&mut self, status: Option<bool>) -> (command: Option<ImeControl>) {
        match status {
            Some(true) => Some(ImeControl::SetOpenStatus(true)),
            _ => None,
        }
    }

    proof fn lemma_idle_restore(&self, status: Option<bool>, post: Self, command: Option<ImeControl>) {
    }

    proof fn lemma_round_trip(
        &self,
        native: bool,
        mid: Self,
        was_active: bool,
        suppress: Option<ImeControl>,
        post: Self,
        restore: Option<ImeControl>,
    ) {
    }

    proof fn lemma_unread_is_inactive(&self, post: Self, was_active: bool, command: Option<ImeControl>) {
    }
}

} // verus!
