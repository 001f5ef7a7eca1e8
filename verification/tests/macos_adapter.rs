use ime_sync::ime::ImeManager;
use ime_sync::macos::{us_keyboard_layout, InputSource, MacosImeManager, SelectInputSource};

const PINYIN: &str = "com.apple.inputmethod.SCIM.ITABC";

/// An input source registry that records the selections made on it.
struct FakeSources {
    current: Option<InputSource>,
    selections: Vec<String>,
}

impl FakeSources {
    fn with(id: &str, selectable: Option<bool>) -> Self {
        FakeSources {
            current: Some(InputSource { id: Some(id.to_string()), selectable }),
            selections: Vec::new(),
        }
    }

    fn select(&mut self, command: Option<SelectInputSource>) {
        if let Some(select) = command {
            self.selections.push(select.id.clone());
            self.current = Some(InputSource { id: Some(select.id), selectable: Some(true) });
        }
    }

    fn current_id(&self) -> Option<String> {
        self.current.as_ref().and_then(|s| s.id.clone())
    }
}

fn disable(manager: &mut MacosImeManager, sources: &mut FakeSources) -> bool {
    assert!(manager.wants_reading());
    let (was_active, command) = manager.disable_and_get_status(sources.current.clone());
    sources.select(command);
    was_active
}

#[test]
fn the_fallback_layout_is_the_us_keyboard() {
    assert_eq!(us_keyboard_layout(), "com.apple.keylayout.US");
}

#[test]
fn an_input_method_is_switched_to_the_fallback() {
    let mut sources = FakeSources::with(PINYIN, Some(true));
    let mut manager = MacosImeManager::new();
    assert!(!manager.has_previous_input_source());
    assert!(disable(&mut manager, &mut sources));
    assert_eq!(sources.selections, vec!["com.apple.keylayout.US".to_string()]);
    assert!(manager.has_previous_input_source());
}

#[test]
fn the_fallback_itself_is_left_alone() {
    let mut sources = FakeSources::with("com.apple.keylayout.US", Some(true));
    let mut manager = MacosImeManager::new();
    assert!(!disable(&mut manager, &mut sources));
    assert!(sources.selections.is_empty());
    assert!(!manager.has_previous_input_source());
}

#[test]
fn an_unreadable_source_counts_as_off() {
    let mut manager = MacosImeManager::new();
    assert_eq!(manager.disable_and_get_status(None), (false, None));
    let unnamed = InputSource { id: None, selectable: Some(true) };
    assert_eq!(manager.disable_and_get_status(Some(unnamed)), (false, None));
    assert!(!manager.has_previous_input_source());
}

#[test]
fn an_unselectable_source_counts_as_off() {
    let mut sources = FakeSources::with(PINYIN, Some(false));
    let mut manager = MacosImeManager::new();
    assert!(!disable(&mut manager, &mut sources));
    assert!(sources.selections.is_empty());
}

#[test]
fn a_source_of_unknown_selectability_counts_as_selectable() {
    let mut sources = FakeSources::with(PINYIN, None);
    let mut manager = MacosImeManager::new();
    assert!(disable(&mut manager, &mut sources));
    assert_eq!(sources.selections.len(), 1);
}

#[test]
fn restore_selects_the_very_source_that_was_current() {
    let mut sources = FakeSources::with(PINYIN, Some(true));
    let mut manager = MacosImeManager::new();
    let was = disable(&mut manager, &mut sources);
    assert_eq!(sources.current_id(), Some("com.apple.keylayout.US".to_string()));
    sources.select(manager.enable_with_status(Some(was)));
    assert_eq!(sources.current_id(), Some(PINYIN.to_string()));
    assert!(!manager.has_previous_input_source());
}

#[test]
fn round_trip_on_the_fallback_selects_nothing() {
    let mut sources = FakeSources::with("com.apple.keylayout.US", Some(true));
    let mut manager = MacosImeManager::new();
    let was = disable(&mut manager, &mut sources);
    sources.select(manager.enable_with_status(Some(was)));
    assert!(sources.selections.is_empty());
    assert_eq!(sources.current_id(), Some("com.apple.keylayout.US".to_string()));
}

#[test]
fn restore_to_none_or_false_selects_nothing() {
    let mut sources = FakeSources::with(PINYIN, Some(true));
    let mut manager = MacosImeManager::new();
    assert!(disable(&mut manager, &mut sources));
    assert_eq!(manager.enable_with_status(None), None);
    assert_eq!(manager.enable_with_status(Some(false)), None);
    assert!(manager.has_previous_input_source());
    assert_eq!(sources.selections.len(), 1);
}

#[test]
fn restore_without_suppression_selects_nothing() {
    let mut manager = MacosImeManager::new();
    assert_eq!(manager.enable_with_status(Some(true)), None);
}

#[test]
fn the_kept_source_is_used_once() {
    let mut sources = FakeSources::with(PINYIN, Some(true));
    let mut manager = MacosImeManager::new();
    assert!(disable(&mut manager, &mut sources));
    assert_eq!(
        manager.enable_with_status(Some(true)),
        Some(SelectInputSource { id: PINYIN.to_string() })
    );
    assert_eq!(manager.enable_with_status(Some(true)), None);
}
