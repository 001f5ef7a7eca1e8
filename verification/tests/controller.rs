use ime_sync::controller::{ImeSync, Mode};
use ime_sync::ime::{new_ime_manager, NativeCommand, NativeReading, Platform, PlatformImeManager};
use ime_sync::linux::{BusRequest, LinuxImeManager};
use ime_sync::macos::{InputSource, MacosImeManager, SelectInputSource};
use ime_sync::windows::{ImeControl, WindowsImeManager};

fn ibus_manager() -> LinuxImeManager {
    let mut manager = LinuxImeManager::new();
    manager.record_probe(true);
    manager.record_probe(true);
    manager
}

/// A bus service that counts the requests that change it.
struct Backend {
    active: bool,
    suppress_calls: usize,
    restore_calls: usize,
}

impl Backend {
    fn perform(&mut self, command: Option<BusRequest>) {
        match command {
            Some(BusRequest::FocusOut) => {
                self.suppress_calls += 1;
                self.active = false;
            }
            Some(BusRequest::FocusIn) => {
                self.restore_calls += 1;
                self.active = true;
            }
            Some(other) => panic!("unexpected request {:?}", other),
            None => (),
        }
    }
}

fn notify(sync: &mut ImeSync<LinuxImeManager>, backend: &mut Backend, mode: Mode) {
    let reading = if sync.wants_reading(mode) { Some(backend.active) } else { None };
    let command = sync.update_ime_state(mode, reading);
    backend.perform(command);
}

#[test]
fn leaving_and_entering_insertion_suppresses_and_restores_once() {
    let mut backend = Backend { active: true, suppress_calls: 0, restore_calls: 0 };
    let mut sync = ImeSync::new(ibus_manager());
    assert_eq!(sync.stash(), None);

    notify(&mut sync, &mut backend, Mode::Normal);
    assert_eq!(backend.suppress_calls, 1);
    assert_eq!(backend.restore_calls, 0);
    assert_eq!(sync.stash(), Some(true));
    assert!(!backend.active);

    notify(&mut sync, &mut backend, Mode::Insert);
    assert_eq!(backend.suppress_calls, 1);
    assert_eq!(backend.restore_calls, 1);
    assert_eq!(sync.stash(), None);
    assert!(backend.active);

    notify(&mut sync, &mut backend, Mode::Insert);
    assert_eq!(backend.suppress_calls, 1);
    assert_eq!(backend.restore_calls, 1);
    assert_eq!(sync.stash(), None);
}

#[test]
fn an_inactive_input_method_is_not_restored() {
    let mut backend = Backend { active: false, suppress_calls: 0, restore_calls: 0 };
    let mut sync = ImeSync::new(ibus_manager());
    notify(&mut sync, &mut backend, Mode::Select);
    assert_eq!(sync.stash(), Some(false));
    notify(&mut sync, &mut backend, Mode::Insert);
    assert_eq!(backend.restore_calls, 0);
    assert_eq!(sync.stash(), None);
    assert!(!backend.active);
}

#[test]
fn entering_insertion_first_sends_nothing() {
    let mut sync = ImeSync::new(WindowsImeManager::new());
    assert_eq!(sync.update_ime_state(Mode::Insert, None), None);
    assert_eq!(sync.update_ime_state(Mode::Insert, Some(1)), None);
    assert_eq!(sync.stash(), None);
}

#[test]
fn a_reading_is_wanted_only_ahead_of_a_suppression() {
    let sync = ImeSync::new(WindowsImeManager::new());
    assert!(sync.wants_reading(Mode::Normal));
    assert!(sync.wants_reading(Mode::Select));
    assert!(!sync.wants_reading(Mode::Insert));
    let unprobed = ImeSync::new(LinuxImeManager::new());
    assert!(!unprobed.wants_reading(Mode::Normal));
    assert!(!unprobed.wants_reading(Mode::Insert));
    assert_eq!(unprobed.manager().previous_ime_status(), None);
}

#[test]
fn the_window_adapter_goes_through_the_controller() {
    let mut sync = ImeSync::new(WindowsImeManager::new());
    assert_eq!(
        sync.update_ime_state(Mode::Normal, Some(1)),
        Some(ImeControl::SetOpenStatus(false))
    );
    assert_eq!(sync.stash(), Some(true));
    assert_eq!(
        sync.update_ime_state(Mode::Insert, None),
        Some(ImeControl::SetOpenStatus(true))
    );
    assert_eq!(sync.update_ime_state(Mode::Insert, None), None);
}

#[test]
fn the_input_source_adapter_goes_through_the_controller() {
    let mut sync = ImeSync::new(MacosImeManager::new());
    let source = InputSource { id: Some("com.apple.inputmethod.Kotoeri".to_string()), selectable: Some(true) };
    assert_eq!(
        sync.update_ime_state(Mode::Normal, Some(source)),
        Some(SelectInputSource { id: "com.apple.keylayout.US".to_string() })
    );
    assert_eq!(sync.stash(), Some(true));
    assert_eq!(
        sync.update_ime_state(Mode::Insert, None),
        Some(SelectInputSource { id: "com.apple.inputmethod.Kotoeri".to_string() })
    );
    assert_eq!(sync.stash(), None);
}

#[test]
fn repeated_selection_changes_outside_insertion_stash_the_latest_reading() {
    let mut backend = Backend { active: true, suppress_calls: 0, restore_calls: 0 };
    let mut sync = ImeSync::new(ibus_manager());
    notify(&mut sync, &mut backend, Mode::Normal);
    notify(&mut sync, &mut backend, Mode::Normal);
    assert_eq!(backend.suppress_calls, 2);
    assert_eq!(sync.stash(), Some(false));
    notify(&mut sync, &mut backend, Mode::Insert);
    assert_eq!(backend.restore_calls, 0);
}

#[test]
fn the_factory_gives_each_platform_its_adapter_in_its_initial_state() {
    match new_ime_manager(Platform::Linux) {
        PlatformImeManager::Linux(m) => assert_eq!(m, LinuxImeManager::new()),
        other => panic!("{:?}", other),
    }
    match new_ime_manager(Platform::Macos) {
        PlatformImeManager::Macos(m) => assert!(!m.has_previous_input_source()),
        other => panic!("{:?}", other),
    }
    match new_ime_manager(Platform::Windows) {
        PlatformImeManager::Windows(m) => assert_eq!(m, WindowsImeManager::new()),
        other => panic!("{:?}", other),
    }
}

#[test]
fn only_the_three_platforms_are_supported() {
    assert!(ime_sync::ime::platform_is_supported(Platform::Linux));
    assert!(ime_sync::ime::platform_is_supported(Platform::Macos));
    assert!(ime_sync::ime::platform_is_supported(Platform::Windows));
    assert!(!ime_sync::ime::platform_is_supported(Platform::Unsupported));
}

#[test]
fn the_chosen_adapter_answers_as_the_adapter_inside() {
    let mut sync = ImeSync::new(new_ime_manager(Platform::Windows));
    assert!(sync.wants_reading(Mode::Normal));
    assert_eq!(
        sync.update_ime_state(Mode::Normal, Some(NativeReading::OpenStatus(1))),
        Some(NativeCommand::Window(ImeControl::SetOpenStatus(false)))
    );
    assert_eq!(sync.stash(), Some(true));
    assert_eq!(
        sync.update_ime_state(Mode::Insert, None),
        Some(NativeCommand::Window(ImeControl::SetOpenStatus(true)))
    );
}

#[test]
fn a_reading_of_another_kind_counts_as_no_reading() {
    let mut sync = ImeSync::new(new_ime_manager(Platform::Windows));
    assert_eq!(sync.update_ime_state(Mode::Normal, Some(NativeReading::BusReply(true))), None);
    assert_eq!(sync.stash(), Some(false));
    let mut linux = PlatformImeManager::Linux(ibus_manager());
    let out = ime_sync::ime::ImeManager::disable_and_get_status(
        &mut linux,
        Some(NativeReading::OpenStatus(1)),
    );
    assert_eq!(out, (false, Some(NativeCommand::Bus(BusRequest::FocusOut))));
}

#[test]
fn the_chosen_input_source_adapter_restores_the_source() {
    let mut manager = new_ime_manager(Platform::Macos);
    let source = InputSource { id: Some("com.apple.inputmethod.Kotoeri".to_string()), selectable: None };
    let out = ime_sync::ime::ImeManager::disable_and_get_status(
        &mut manager,
        Some(NativeReading::InputSource(source)),
    );
    assert_eq!(
        out,
        (true, Some(NativeCommand::Select(SelectInputSource { id: "com.apple.keylayout.US".to_string() })))
    );
    assert_eq!(
        ime_sync::ime::ImeManager::enable_with_status(&mut manager, Some(true)),
        Some(NativeCommand::Select(SelectInputSource { id: "com.apple.inputmethod.Kotoeri".to_string() }))
    );
}
