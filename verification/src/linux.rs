//! The adapter for input method services on the session message bus.

use vstd::prelude::*;
use crate::ime::ImeManager;

verus! {

/// The service that answered when the adapter was set up.
#[derive(Clone, Copy, PartialEq, Eq, Debug)]
pub enum ImeService {
    IBus,
    Fcitx5,
    /// No session bus, or no service on it.
    Unavailable,
}

/// Where the set-up stands: the probe to make next, or its outcome.
#[derive(Clone, Copy, PartialEq, Eq, Debug)]
pub enum ProbeStage {
    /// Connect to the session bus.
    Session,
    /// Ask for the input context of IBus.
    IBus,
    /// Ask for the input context of Fcitx5.
    Fcitx5,
    /// Nothing is left to probe.
    Settled(ImeService),
}

/// A method of the chosen service's input context.
#[derive(Clone, Copy, PartialEq, Eq, Debug)]
pub enum BusRequest {
    /// Reads whether the input method is active. No arguments.
    IsActive,
    /// Takes the focus from the input context. No arguments.
    FocusOut,
    /// Gives the focus to the input context. No arguments.
    FocusIn,
    /// Selects an input method; sent with the empty name and the root object
    /// path, which leaves none selected.
    SetInputMethod,
}

/// The bus name, object path and interface of a service's input context.
#[derive(Clone, Copy, Debug, PartialEq, Eq)]
pub struct BusAddress {
    pub destination: &'static str,
    pub path: &'static str,
    pub interface: &'static str,
}

/// The arguments of a request that selects an input method.
#[derive(Clone, Copy, Debug, PartialEq, Eq)]
pub struct InputMethodArguments {
    /// The name of the input method; empty for none.
    pub name: &'static str,
    /// The object path that goes with it.
    pub path: &'static str,
}

/// A session bus as the probes see it: what answers on it.
pub ghost struct BusModel {
    pub session: bool,
    pub ibus: bool,
    pub fcitx5: bool,
}

/// The stage after a probe succeeded or failed. IBus is asked before Fcitx5,
/// and an outcome never changes.
pub open spec fn advance(stage: ProbeStage, ok: bool) -> ProbeStage {
    match stage {
        ProbeStage::Session => if ok {
            ProbeStage::IBus
        } else {
            ProbeStage::Settled(ImeService::Unavailable)
        },
        ProbeStage::IBus => if ok {
            ProbeStage::Settled(ImeService::IBus)
        } else {
            ProbeStage::Fcitx5
        },
        ProbeStage::Fcitx5 => if ok {
            ProbeStage::Settled(ImeService::Fcitx5)
        } else {
            ProbeStage::Settled(ImeService::Unavailable)
        },
        ProbeStage::Settled(service) => ProbeStage::Settled(service),
    }
}

/// The service in use at a stage: none before the probing has settled.
pub open spec fn service_at(stage: ProbeStage) -> ImeService {
    match stage {
        ProbeStage::Settled(service) => service,
        _ => ImeService::Unavailable,
    }
}

/// Whether the probe of a stage succeeds on a bus.
pub open spec fn answers(bus: BusModel, stage: ProbeStage) -> bool {
    match stage {
        ProbeStage::Session => bus.session,
        ProbeStage::IBus => bus.ibus,
        ProbeStage::Fcitx5 => bus.fcitx5,
        ProbeStage::Settled(_) => false,
    }
}

/// The stage after the probe of a stage was made on a bus.
pub open spec fn probe_once(bus: BusModel, stage: ProbeStage) -> ProbeStage {
    advance(stage, answers(bus, stage))
}

/// The stage after three probes on a bus, from the start.
pub open spec fn probe_all(bus: BusModel) -> ProbeStage {
    probe_once(bus, probe_once(bus, probe_once(bus, ProbeStage::Session)))
}

/// The method that forces a service's input method off.
pub open spec fn suppress_request(service: ImeService) -> Option<BusRequest> {
    match service {
        ImeService::IBus => Some(BusRequest::FocusOut),
        ImeService::Fcitx5 => Some(BusRequest::SetInputMethod),
        ImeService::Unavailable => None,
    }
}

/// The method that switches a service's input method on again: the input
/// context gets the focus back. For Fcitx5 this is a general re-activation,
/// not the selection of the input method that had been in use, which the
/// adapter does not know; it is never the request that clears the input
/// method.
pub open spec fn restore_request(service: ImeService) -> Option<BusRequest> {
    match service {
        ImeService::IBus => Some(BusRequest::FocusIn),
        ImeService::Fcitx5 => Some(BusRequest::FocusIn),
        ImeService::Unavailable => None,
    }
}

/// Whether a service's input method is active after a request, as far as the
/// request decides it: selecting the empty input method leaves none active.
pub open spec fn effect(request: Option<BusRequest>, active: bool) -> bool {
    match request {
        Some(BusRequest::FocusOut) => false,
        Some(BusRequest::FocusIn) => true,
        Some(BusRequest::SetInputMethod) => false,
        Some(BusRequest::IsActive) => active,
        None => active,
    }
}

/// The stage after a probe succeeded (`ok`) or failed.
pub fn advance_probe(stage: ProbeStage, ok: bool) -> (next: ProbeStage)
    ensures
        next == advance(stage, ok),
{
    match stage {
        ProbeStage::Session => if ok {
            ProbeStage::IBus
        } else {
            ProbeStage::Settled(ImeService::Unavailable)
        },
        ProbeStage::IBus => if ok {
            ProbeStage::Settled(ImeService::IBus)
        } else {
            ProbeStage::Fcitx5
        },
        ProbeStage::Fcitx5 => if ok {
            ProbeStage::Settled(ImeService::Fcitx5)
        } else {
            ProbeStage::Settled(ImeService::Unavailable)
        },
        ProbeStage::Settled(service) => ProbeStage::Settled(service),
    }
}

/// Where the input context of a service is found on the bus.
pub fn bus_address(service: ImeService) -> (address: Option<BusAddress>)
    ensures
        match service {
            ImeService::IBus => address matches Some(a) && a.destination@ == "org.freedesktop.IBus"@
                && a.path@ == "/org/freedesktop/IBus/InputContexts"@ && a.interface@
                == "org.freedesktop.IBus.InputContext"@,
            ImeService::Fcitx5 => address matches Some(a) && a.destination@ == "org.fcitx.Fcitx5"@
                && a.path@ == "/org/fcitx/Fcitx5/InputContext1"@ && a.interface@
                == "org.fcitx.Fcitx5.InputContext1"@,
            ImeService::Unavailable => address is None,
        },
{
    match service {
        ImeService::IBus => Some(
            BusAddress {
                destination: "org.freedesktop.IBus",
                path: "/org/freedesktop/IBus/InputContexts",
                interface: "org.freedesktop.IBus.InputContext",
            },
        ),
        ImeService::Fcitx5 => Some(
            BusAddress {
                destination: "org.fcitx.Fcitx5",
                path: "/org/fcitx/Fcitx5/InputContext1",
                interface: "org.fcitx.Fcitx5.InputContext1",
            },
        ),
        ImeService::Unavailable => None,
    }
}

impl BusRequest {
    /// The member name of the method on the bus.
    pub fn member(&self) -> (name: &'static str)
        ensures
            name@ == match *self {
                BusRequest::IsActive => "IsActive"@,
                BusRequest::FocusOut => "FocusOut"@,
                BusRequest::FocusIn => "FocusIn"@,
                BusRequest::SetInputMethod => "SetInputMethod"@,
            },
    {
        match self {
            BusRequest::IsActive => "IsActive",
            BusRequest::FocusOut => "FocusOut",
            BusRequest::FocusIn => "FocusIn",
            BusRequest::SetInputMethod => "SetInputMethod",
        }
    }

    /// What the method is sent with: selecting an input method takes the
    /// pair of the empty name and the root object path, the others take
    /// nothing.
    pub fn arguments(&self) -> (arguments: Option<InputMethodArguments>)
        ensures
            match *self {
                BusRequest::SetInputMethod => arguments matches Some(a) && a.name@ == ""@ && a.path@
                    == "/"@,
                _ => arguments is None,
            },
    {
        match self {
            BusRequest::SetInputMethod => Some(InputMethodArguments { name: "", path: "/" }),
            _ => None,
        }
    }
}

/// The adapter: the probing stage, and the status that the last suppression
/// found, until a restore uses it up.
#[derive(Clone, Copy, PartialEq, Eq, Debug)]
pub struct LinuxImeManager {
    stage: ProbeStage,
    previous_ime_status: Option<bool>,
}

impl LinuxImeManager {
    /// The probing stage.
    pub closed spec fn stage_spec(&self) -> ProbeStage {
        self.stage
    }

    /// The status kept for the next restore.
    pub closed spec fn retained(&self) -> Option<bool> {
        self.previous_ime_status
    }

    /// The service in use.
    pub open spec fn service_spec(&self) -> ImeService {
        service_at(self.stage_spec())
    }

    /// Nothing probed, nothing kept.
    pub open spec fn is_initial(&self) -> bool {
        self.stage_spec() == ProbeStage::Session && self.retained() is None
    }

    /// An adapter that has not probed anything yet.
    pub fn new() -> (manager: Self)
        ensures
            manager.is_initial(),
    {
        LinuxImeManager { stage: ProbeStage::Session, previous_ime_status: None }
    }

    /// The probe to make next, or the outcome.
    pub fn stage(&self) -> (stage: ProbeStage)
        ensures
            stage == self.stage_spec(),
    {
        self.stage
    }

    /// The service in use: none until the probing has settled.
    pub fn service(&self) -> (service: ImeService)
        ensures
            service == self.service_spec(),
    {
        match self.stage {
            ProbeStage::Settled(service) => service,
            _ => ImeService::Unavailable,
        }
    }

    /// The status kept for the next restore.
    pub fn previous_ime_status(&self) -> (status: Option<bool>)
        ensures
            status == self.retained(),
    {
        self.previous_ime_status
    }

    /// Takes in whether the probe of the current stage succeeded. Once the
    /// probing has settled this changes nothing.
    pub fn record_probe(&mut self, ok: bool)
        ensures
            final(self).stage_spec() == advance(old(self).stage_spec(), ok),
            final(self).retained() == old(self).retained(),
    {
        self.stage = advance_probe(self.stage, ok);
    }

    /// The request that reads the status before a suppression: none without a
    /// service.
    pub fn status_request(&self) -> (request: Option<BusRequest>)
        ensures
            request == if self.service_spec() == ImeService::Unavailable {
                None
            } else {
                Some(BusRequest::IsActive)
            },
    {
        match self.service() {
            ImeService::Unavailable => None,
            _ => Some(BusRequest::IsActive),
        }
    }

    /// Probing settles within three probes, whatever the bus answers.
    pub proof fn lemma_probing_settles(bus: BusModel)
        ensures
            probe_all(bus) is Settled,
            probe_all(bus) == ProbeStage::Settled(service_at(probe_all(bus))),
    {
    }

    /// Where the session bus and IBus answer, IBus is chosen, whether or not
    /// Fcitx5 would answer too.
    pub proof fn lemma_ibus_has_priority(bus: BusModel)
        requires
            bus.session,
            bus.ibus,
        ensures
            probe_all(bus) == ProbeStage::Settled(ImeService::IBus),
    {
    }

    /// Fcitx5 is chosen exactly where the session bus and Fcitx5 answer and
    /// IBus does not.
    pub proof fn lemma_fcitx5_is_second(bus: BusModel)
        ensures
            probe_all(bus) == ProbeStage::Settled(ImeService::Fcitx5) <==> bus.session && !bus.ibus
                && bus.fcitx5,
    {
    }

    /// Where there is no session bus, or neither service answers, no service
    /// is chosen.
    pub proof fn lemma_nothing_answers(bus: BusModel)
        requires
            !bus.session || (!bus.ibus && !bus.fcitx5),
        ensures
            probe_all(bus) == ProbeStage::Settled(ImeService::Unavailable),
    {
    }

    /// The choice of a service is final: no later probe, suppression or
    /// restore changes it.
    pub proof fn lemma_selection_is_final(
        self,
        ok: bool,
        reading: Option<bool>,
        status: Option<bool>,
        after_disable: Self,
        was_active: bool,
        suppress: Option<BusRequest>,
        after_enable: Self,
        restore: Option<BusRequest>,
    )
        requires
            self.stage_spec() is Settled,
            self.disabled(reading, after_disable, was_active, suppress),
            self.enabled(status, after_enable, restore),
        ensures
            advance(self.stage_spec(), ok) == self.stage_spec(),
            after_disable.stage_spec() == self.stage_spec(),
            after_enable.stage_spec() == self.stage_spec(),
    {
    }

    /// With a service, the restore request switches the input method on and
    /// is never the request that suppressed it.
    pub proof fn lemma_restore_reactivates(service: ImeService, active: bool)
        requires
            service != ImeService::Unavailable,
        ensures
            restore_request(service) is Some,
            restore_request(service) != suppress_request(service),
            effect(restore_request(service), active),
            !effect(suppress_request(service), active),
    {
    }

    /// Without a service every call sends nothing, and a suppression reports
    /// that the input method was not active.
    pub proof fn lemma_unavailable_is_silent(
        self,
        reading: Option<bool>,
        status: Option<bool>,
        after_disable: Self,
        was_active: bool,
        suppress: Option<BusRequest>,
        after_enable: Self,
        restore: Option<BusRequest>,
    )
        requires
            self.service_spec() == ImeService::Unavailable,
            self.disabled(reading, after_disable, was_active, suppress),
            self.enabled(status, after_enable, restore),
        ensures
            !self.reads_status(),
            !was_active,
            suppress is None,
            restore is None,
            after_disable.service_spec() == ImeService::Unavailable,
            after_enable.service_spec() == ImeService::Unavailable,
    {
    }

    /// A restore on an adapter that keeps no status, as one has before its
    /// first suppression, sends nothing.
    pub proof fn lemma_restore_needs_suppression(
        self,
        status: Option<bool>,
        post: Self,
        restore: Option<BusRequest>,
    )
        requires
            self.retained() is None,
            self.enabled(status, post, restore),
        ensures
            restore is None,
            post.retained() is None,
    {
    }
}

impl ImeManager for LinuxImeManager {
    /// The answer to the status request; there is no reading where the call
    /// failed or was not made.
    type Reading = bool;

    type Command = BusRequest;

    /// Whether the service's input method is active.
    type Native = bool;

    open spec fn reads_status(&self) -> bool {
        self.service_spec() != ImeService::Unavailable
    }

    open spec fn reading_of(&self, native: bool) -> Option<bool> {
        if self.reads_status() {
            Some(native)
        } else {
            None
        }
    }

    open spec fn is_active(native: bool) -> bool {
        native
    }

    open spec fn carry_out(command: Option<BusRequest>, native: bool) -> bool {
        effect(command, native)
    }


    open spec fn disabled(
        &self,
        reading: Option<bool>,
        post: Self,
        was_active: bool,
        command: Option<BusRequest>,
    ) -> bool {
        &&& was_active == (self.reads_status() && reading == Some(true))
        &&& command == suppress_request(self.service_spec())
        &&& post.stage_spec() == self.stage_spec()
        &&& post.retained() == Some(was_active)
    }

    open spec fn enabled(&self, status: Option<bool>, post: Self, command: Option<BusRequest>) -> bool {
        &&& post.stage_spec() == self.stage_spec()
        &&& if status == Some(true) {
            &&& post.retained() is None
            &&& command == if self.retained() == Some(true) {
                restore_request(self.service_spec())
            } else {
                None
            }
        } else {
            &&& post.retained() == self.retained()
            &&& command is None
        }
    }

    fn wants_reading(&self) -> (wanted: bool) {
        match self.service() {
            ImeService::Unavailable => false,
            _ => true,
        }
    }

    fn disable_and_get_status(&mut self, reading: Option<bool>) -> (out: (bool, Option<BusRequest>)) {
        let (was_ime_enabled, command) = match self.service() {
            ImeService::IBus => (
                match reading {
                    Some(active) => active,
                    None => false,
                },
                Some(BusRequest::FocusOut),
            ),
            ImeService::Fcitx5 => (
                match reading {
                    Some(active) => active,
                    None => false,
                },
                Some(BusRequest::SetInputMethod),
            ),
            ImeService::Unavailable => (false, None),
        };
        self.previous_ime_status = Some(was_ime_enabled);
        (was_ime_enabled, command)
    }

    fn enable_with_status(&mut self, status: Option<bool>) -> (command: Option<BusRequest>) {
        match status {
            Some(true) => {
                let kept = self.previous_ime_status;
                self.previous_ime_status = None;
                match kept {
                    Some(true) => match self.service() {
                        ImeService::IBus => Some(BusRequest::FocusIn),
                        ImeService::Fcitx5 => Some(BusRequest::FocusIn),
                        ImeService::Unavailable => None,
                    },
                    _ => None,
                }
            },
            _ => None,
        }
    }

    proof fn lemma_idle_restore(&self, status: Option<bool>, post: Self, command: Option<BusRequest>) {
    }

    proof fn lemma_round_trip(
        &self,
        native: bool,
        mid: Self,
        was_active: bool,
        suppress: Option<BusRequest>,
        post: Self,
        restore: Option<BusRequest>,
    ) {
    }

    proof fn lemma_unread_is_inactive(&self, post: Self, was_active: bool, command: Option<BusRequest>) {
    }
}

} // verus!
