//! The capability that every platform adapter offers: suppress composition and
//! report whether it was active, and restore it later.

use vstd::prelude::*;
use crate::linux::BusRequest;
use crate::linux::LinuxImeManager;
use crate::macos::InputSource;
use crate::macos::MacosImeManager;
use crate::macos::SelectInputSource;
use crate::windows::ImeControl;
use crate::windows::WindowsImeManager;

verus! {

/// An adapter for one native input subsystem.
///
/// An adapter never talks to the subsystem itself. Its caller asks the
/// subsystem for the current state where `wants_reading` says so, hands the
/// answer in as a reading, and sends the command that comes back.
pub trait ImeManager: Sized {
    /// What the native subsystem answers when asked for its current state.
    type Reading;

    /// A request that changes the native subsystem's state.
    type Command;

    /// The state of the native subsystem, as far as the adapter's commands
    /// reach it. It serves to say what the commands are for; no adapter holds
    /// one.
    type Native;

    /// Whether the adapter asks the native subsystem at all before it
    /// suppresses composition.
    spec fn reads_status(&self) -> bool;

    /// How `disable_and_get_status` takes the adapter from `self` to `post`
    /// on a reading, with the status it reports and the command it issues.
    spec fn disabled(
        &self,
        reading: Option<Self::Reading>,
        post: Self,
        was_active: bool,
        command: Option<Self::Command>,
    ) -> bool;

    /// How `enable_with_status` takes the adapter from `self` to `post`, with
    /// the command it issues.
    spec fn enabled(&self, status: Option<bool>, post: Self, command: Option<Self::Command>) -> bool;

    /// What a native subsystem in this state answers the adapter, truthfully;
    /// no reading where the adapter does not ask.
    spec fn reading_of(&self, native: Self::Native) -> Option<Self::Reading>;

    /// Whether composition is active in a state of the native subsystem.
    spec fn is_active(native: Self::Native) -> bool;

    /// The state of the native subsystem after a command was carried out.
    spec fn carry_out(command: Option<Self::Command>, native: Self::Native) -> Self::Native;

    /// Whether the native subsystem is to be asked for its state before the
    /// next `disable_and_get_status`.
    fn wants_reading(&self) -> (wanted: bool)
        ensures
            wanted == self.reads_status(),
    ;

    /// Suppresses composition. `reading` is the native subsystem's answer, or
    /// `None` where it gave none. Returns whether composition was active and
    /// the command that forces it off, if any is to be sent.
    fn disable_and_get_status(&mut self, reading: Option<Self::Reading>) -> (out: (
        bool,
        Option<Self::Command>,
    ))
        ensures
            old(self).disabled(reading, *final(self), out.0, out.1),
    ;

    /// Restores composition where `status` is `Some(true)`. Returns the command
    /// to send, if any.
    fn enable_with_status(&mut self, status: Option<bool>) -> (command: Option<Self::Command>)
        ensures
            old(self).enabled(status, *final(self), command),
    ;

    /// A restore to anything but `Some(true)` sends nothing and keeps the
    /// adapter as it was.
    proof fn lemma_idle_restore(&self, status: Option<bool>, post: Self, command: Option<Self::Command>)
        requires
            self.enabled(status, post, command),
            status != Some(true),
        ensures
            command is None,
            post == *self,
    ;

    /// Suppressing and then restoring with the reported status leaves
    /// composition as active as it was, where the native subsystem answers
    /// truthfully and nothing else changes it in between.
    proof fn lemma_round_trip(
        &self,
        native: Self::Native,
        mid: Self,
        was_active: bool,
        suppress: Option<Self::Command>,
        post: Self,
        restore: Option<Self::Command>,
    )
        requires
            self.disabled(self.reading_of(native), mid, was_active, suppress),
            mid.enabled(Some(was_active), post, restore),
        ensures
            Self::is_active(Self::carry_out(restore, Self::carry_out(suppress, native)))
                == Self::is_active(native),
    ;

    /// An adapter that does not ask the native subsystem, or got no answer,
    /// reports that composition was not active.
    proof fn lemma_unread_is_inactive(
        &self,
        post: Self,
        was_active: bool,
        command: Option<Self::Command>,
    )
        requires
            self.disabled(None, post, was_active, command),
        ensures
            !was_active,
    ;
}

/// The operating systems an adapter exists for, and the rest.
#[derive(Clone, Copy, PartialEq, Eq, Debug)]
pub enum Platform {
    Linux,
    Macos,
    Windows,
    Unsupported,
}

/// The adapter of the platform that was chosen at start-up.
#[derive(Debug)]
pub enum PlatformImeManager {
    Linux(LinuxImeManager),
    Macos(MacosImeManager),
    Windows(WindowsImeManager),
}

/// Whether an adapter exists for a platform.
pub open spec fn is_supported(platform: Platform) -> bool {
    platform != Platform::Unsupported
}

/// Whether an adapter exists for a platform.
pub fn platform_is_supported(platform: Platform) -> (supported: bool)
    ensures
        supported == is_supported(platform),
{
    match platform {
        Platform::Unsupported => false,
        _ => true,
    }
}

/// Creates the adapter of a platform, in its initial state. There is none for
/// an unsupported platform: a caller has to stop there.
pub fn new_ime_manager(platform: Platform) -> (manager: PlatformImeManager)
    requires
        is_supported(platform),
    ensures
        match manager {
            PlatformImeManager::Linux(m) => platform == Platform::Linux && m.is_initial(),
            PlatformImeManager::Macos(m) => platform == Platform::Macos && m.is_initial(),
            PlatformImeManager::Windows(_) => platform == Platform::Windows,
        },
{
    match platform {
        Platform::Linux => PlatformImeManager::Linux(LinuxImeManager::new()),
        Platform::Macos => PlatformImeManager::Macos(MacosImeManager::new()),
        _ => PlatformImeManager::Windows(WindowsImeManager::new()),
    }
}

/// A reading of any of the native subsystems.
#[derive(Clone, Debug, PartialEq, Eq)]
pub enum NativeReading {
    /// The answer of a bus service to the status request.
    BusReply(bool),
    /// The current input source.
    InputSource(InputSource),
    /// The answer of the input method window to the status query.
    OpenStatus(isize),
}

/// A command for any of the native subsystems.
#[derive(Clone, Debug, PartialEq, Eq)]
pub enum NativeCommand {
    Bus(BusRequest),
    Select(SelectInputSource),
    Window(ImeControl),
}

/// A state of any of the native subsystems.
pub enum NativeState {
    /// Whether the bus service's input method is active.
    Bus(bool),
    /// The current input source.
    InputSource(InputSource),
    /// Whether the input method of the foreground window is open.
    ImeWindow(bool),
}

/// The bus answer in a reading; none in a reading of another kind.
pub open spec fn bus_reply(reading: Option<NativeReading>) -> Option<bool> {
    match reading {
        Some(NativeReading::BusReply(active)) => Some(active),
        _ => None,
    }
}

/// The input source in a reading; none in a reading of another kind.
pub open spec fn input_source(reading: Option<NativeReading>) -> Option<InputSource> {
    match reading {
        Some(NativeReading::InputSource(source)) => Some(source),
        _ => None,
    }
}

/// The window's answer in a reading; none in a reading of another kind.
pub open spec fn open_status(reading: Option<NativeReading>) -> Option<isize> {
    match reading {
        Some(NativeReading::OpenStatus(reply)) => Some(reply),
        _ => None,
    }
}

/// The bus request in a command.
pub open spec fn bus_request(command: Option<NativeCommand>) -> Option<BusRequest> {
    match command {
        Some(NativeCommand::Bus(request)) => Some(request),
        _ => None,
    }
}

/// The selection in a command.
pub open spec fn selection(command: Option<NativeCommand>) -> Option<SelectInputSource> {
    match command {
        Some(NativeCommand::Select(select)) => Some(select),
        _ => None,
    }
}

/// The window message in a command.
pub open spec fn window_message(command: Option<NativeCommand>) -> Option<ImeControl> {
    match command {
        Some(NativeCommand::Window(control)) => Some(control),
        _ => None,
    }
}

/// Whether a command is one for the bus adapter, or no command.
pub open spec fn is_for_bus(command: Option<NativeCommand>) -> bool {
    command is None || command->0 is Bus
}

/// Whether a command is one for the input source adapter, or no command.
pub open spec fn is_for_input_sources(command: Option<NativeCommand>) -> bool {
    command is None || command->0 is Select
}

/// Whether a command is one for the window message adapter, or no command.
pub open spec fn is_for_window(command: Option<NativeCommand>) -> bool {
    command is None || command->0 is Window
}

/// The chosen adapter does what the adapter inside does, on the readings of
/// its own kind; a reading of another kind counts as no reading. It issues
/// commands of its own kind only and never turns into another adapter.
impl ImeManager for PlatformImeManager {
    type Reading = NativeReading;

    type Command = NativeCommand;

    type Native = NativeState;

    open spec fn reads_status(&self) -> bool {
        match *self {
            PlatformImeManager::Linux(m) => m.reads_status(),
            PlatformImeManager::Macos(m) => m.reads_status(),
            PlatformImeManager::Windows(m) => m.reads_status(),
        }
    }

    open spec fn disabled(
        &self,
        reading: Option<NativeReading>,
        post: Self,
        was_active: bool,
        command: Option<NativeCommand>,
    ) -> bool {
        match (*self, post) {
            (PlatformImeManager::Linux(m), PlatformImeManager::Linux(p)) => is_for_bus(command)
                && m.disabled(bus_reply(reading), p, was_active, bus_request(command)),
            (PlatformImeManager::Macos(m), PlatformImeManager::Macos(p)) => is_for_input_sources(
                command,
            ) && m.disabled(input_source(reading), p, was_active, selection(command)),
            (PlatformImeManager::Windows(m), PlatformImeManager::Windows(p)) => is_for_window(
                command,
            ) && m.disabled(open_status(reading), p, was_active, window_message(command)),
            _ => false,
        }
    }

    open spec fn enabled(&self, status: Option<bool>, post: Self, command: Option<NativeCommand>) -> bool {
        match (*self, post) {
            (PlatformImeManager::Linux(m), PlatformImeManager::Linux(p)) => is_for_bus(command)
                && m.enabled(status, p, bus_request(command)),
            (PlatformImeManager::Macos(m), PlatformImeManager::Macos(p)) => is_for_input_sources(
                command,
            ) && m.enabled(status, p, selection(command)),
            (PlatformImeManager::Windows(m), PlatformImeManager::Windows(p)) => is_for_window(
                command,
            ) && m.enabled(status, p, window_message(command)),
            _ => false,
        }
    }

    open spec fn reading_of(&self, native: NativeState) -> Option<NativeReading> {
        match (*self, native) {
            (PlatformImeManager::Linux(m), NativeState::Bus(active)) => match m.reading_of(active) {
                Some(reply) => Some(NativeReading::BusReply(reply)),
                None => None,
            },
            (PlatformImeManager::Macos(m), NativeState::InputSource(source)) => match m.reading_of(
                source,
            ) {
                Some(current) => Some(NativeReading::InputSource(current)),
                None => None,
            },
            (PlatformImeManager::Windows(m), NativeState::ImeWindow(open)) => match m.reading_of(
                open,
            ) {
                Some(reply) => Some(NativeReading::OpenStatus(reply)),
                None => None,
            },
            _ => None,
        }
    }

    open spec fn is_active(native: NativeState) -> bool {
        match native {
            NativeState::Bus(active) => LinuxImeManager::is_active(active),
            NativeState::InputSource(source) => MacosImeManager::is_active(source),
            NativeState::ImeWindow(open) => WindowsImeManager::is_active(open),
        }
    }

    open spec fn carry_out(command: Option<NativeCommand>, native: NativeState) -> NativeState {
        match (command, native) {
            (Some(NativeCommand::Bus(request)), NativeState::Bus(active)) => NativeState::Bus(
                LinuxImeManager::carry_out(Some(request), active),
            ),
            (
                Some(NativeCommand::Select(select)),
                NativeState::InputSource(source),
            ) => NativeState::InputSource(MacosImeManager::carry_out(Some(select), source)),
            (Some(NativeCommand::Window(control)), NativeState::ImeWindow(open)) => {
                NativeState::ImeWindow(WindowsImeManager::carry_out(Some(control), open))
            },
            _ => native,
        }
    }

    fn wants_reading(&self) -> (wanted: bool) {
        match self {
            PlatformImeManager::Linux(m) => m.wants_reading(),
            PlatformImeManager::Macos(m) => m.wants_reading(),
            PlatformImeManager::Windows(m) => m.wants_reading(),
        }
    }

    fn disable_and_get_status(&mut self, reading: Option<NativeReading>) -> (out: (
        bool,
        Option<NativeCommand>,
    )) {
        match self {
            PlatformImeManager::Linux(m) => {
                let reply = match reading {
                    Some(NativeReading::BusReply(active)) => Some(active),
                    _ => None,
                };
                let (was_active, request) = m.disable_and_get_status(reply);
                match request {
                    Some(r) => (was_active, Some(NativeCommand::Bus(r))),
                    None => (was_active, None),
                }
            },
            PlatformImeManager::Macos(m) => {
                let source = match reading {
                    Some(NativeReading::InputSource(source)) => Some(source),
                    _ => None,
                };
                let (was_active, select) = m.disable_and_get_status(source);
                match select {
                    Some(s) => (was_active, Some(NativeCommand::Select(s))),
                    None => (was_active, None),
                }
            },
            PlatformImeManager::Windows(m) => {
                let reply = match reading {
                    Some(NativeReading::OpenStatus(reply)) => Some(reply),
                    _ => None,
                };
                let (was_active, control) = m.disable_and_get_status(reply);
                match control {
                    Some(c) => (was_active, Some(NativeCommand::Window(c))),
                    None => (was_active, None),
                }
            },
        }
    }

    fn enable_with_status(&mut self, status: Option<bool>) -> (command: Option<NativeCommand>) {
        match self {
            PlatformImeManager::Linux(m) => match m.enable_with_status(status) {
                Some(r) => Some(NativeCommand::Bus(r)),
                None => None,
            },
            PlatformImeManager::Macos(m) => match m.enable_with_status(status) {
                Some(s) => Some(NativeCommand::Select(s)),
                None => None,
            },
            PlatformImeManager::Windows(m) => match m.enable_with_status(status) {
                Some(c) => Some(NativeCommand::Window(c)),
                None => None,
            },
        }
    }

    proof fn lemma_idle_restore(&self, status: Option<bool>, post: Self, command: Option<NativeCommand>) {
        match (*self, post) {
            (PlatformImeManager::Linux(m), PlatformImeManager::Linux(p)) => {
                m.lemma_idle_restore(status, p, bus_request(command));
            },
            (PlatformImeManager::Macos(m), PlatformImeManager::Macos(p)) => {
                m.lemma_idle_restore(status, p, selection(command));
            },
            (PlatformImeManager::Windows(m), PlatformImeManager::Windows(p)) => {
                m.lemma_idle_restore(status, p, window_message(command));
            },
            _ => {},
        }
    }

    proof fn lemma_round_trip(
        &self,
        native: NativeState,
        mid: Self,
        was_active: bool,
        suppress: Option<NativeCommand>,
        post: Self,
        restore: Option<NativeCommand>,
    ) {
        match (*self, native, mid, post) {
            (
                PlatformImeManager::Linux(m),
                NativeState::Bus(active),
                PlatformImeManager::Linux(m1),
                PlatformImeManager::Linux(m2),
            ) => {
                m.lemma_round_trip(
                    active,
                    m1,
                    was_active,
                    bus_request(suppress),
                    m2,
                    bus_request(restore),
                );
            },
            (
                PlatformImeManager::Macos(m),
                NativeState::InputSource(source),
                PlatformImeManager::Macos(m1),
                PlatformImeManager::Macos(m2),
            ) => {
                m.lemma_round_trip(
                    source,
                    m1,
                    was_active,
                    selection(suppress),
                    m2,
                    selection(restore),
                );
            },
            (
                PlatformImeManager::Windows(m),
                NativeState::ImeWindow(open),
                PlatformImeManager::Windows(m1),
                PlatformImeManager::Windows(m2),
            ) => {
                m.lemma_round_trip(
                    open,
                    m1,
                    was_active,
                    window_message(suppress),
                    m2,
                    window_message(restore),
                );
            },
            _ => {},
        }
    }

    proof fn lemma_unread_is_inactive(
        &self,
        post: Self,
        was_active: bool,
        command: Option<NativeCommand>,
    ) {
    }
}

} // verus!
