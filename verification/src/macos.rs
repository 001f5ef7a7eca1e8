//! The adapter for a system where the input method is one of the selectable
//! input sources.

use vstd::prelude::*;
use crate::ime::ImeManager;

verus! {

/// What the system tells of the current input source. A property is `None`
/// where the system does not give it.
#[derive(Clone, Debug, PartialEq, Eq)]
pub struct InputSource {
    /// The identifier of the source.
    pub id: Option<String>,
    /// Whether the user can select the source.
    pub selectable: Option<bool>,
}

/// A request to make the input source with this identifier the current one.
#[derive(Clone, Debug, PartialEq, Eq)]
pub struct SelectInputSource {
    pub id: String,
}

/// The identifier of the plain keyboard layout that stands for "input method
/// off".
pub open spec fn fallback_id() -> Seq<char> {
    "com.apple.keylayout.US"@
}

/// The identifier of the input method that a reading shows as active, if it
/// shows one: the source is read, is not known to be unselectable, and is not
/// the fallback layout.
pub open spec fn active_source(reading: Option<InputSource>) -> Option<Seq<char>> {
    match reading {
        Some(source) => match source.id {
            Some(id) => if source.selectable != Some(false) && id@ != fallback_id() {
                Some(id@)
            } else {
                None
            },
            None => None,
        },
        None => None,
    }
}

/// The identifier that a request selects, if there is a request.
pub open spec fn target(command: Option<SelectInputSource>) -> Option<Seq<char>> {
    match command {
        Some(select) => Some(select.id@),
        None => None,
    }
}

/// The current input source after a request was carried out.
pub open spec fn effect(command: Option<SelectInputSource>, current: Seq<char>) -> Seq<char> {
    match command {
        Some(select) => select.id@,
        None => current,
    }
}

/// The identifier of the fallback layout.
pub fn us_keyboard_layout() -> (id: String)
    ensures
        id@ == fallback_id(),
{
    "com.apple.keylayout.US".to_owned()
}

/// The adapter: the input source that the last suppression switched away
/// from, until a restore uses it up.
#[derive(Clone, Debug, PartialEq, Eq)]
pub struct MacosImeManager {
    previous_input_source_id: Option<String>,
}

impl MacosImeManager {
    /// The identifier kept for the next restore.
    pub closed spec fn retained(&self) -> Option<Seq<char>> {
        match self.previous_input_source_id {
            Some(id) => Some(id@),
            None => None,
        }
    }

    /// Nothing kept.
    pub open spec fn is_initial(&self) -> bool {
        self.retained() is None
    }

    /// An adapter that keeps no input source.
    pub fn new() -> (manager: Self)
        ensures
            manager.is_initial(),
    {
        MacosImeManager { previous_input_source_id: None }
    }

    /// Whether an input source is kept for the next restore.
    pub fn has_previous_input_source(&self) -> (kept: bool)
        ensures
            kept == self.retained() is Some,
    {
        self.previous_input_source_id.is_some()
    }

    /// Where the current input source is the fallback layout, a suppression
    /// reports that the input method was not active and selects nothing.
    pub proof fn lemma_fallback_is_left_alone(
        self,
        source: InputSource,
        post: Self,
        was_active: bool,
        command: Option<SelectInputSource>,
    )
        requires
            source.id matches Some(id) && id@ == fallback_id(),
            self.disabled(Some(source), post, was_active, command),
        ensures
            !was_active,
            command is None,
            post.retained() == self.retained(),
    {
    }

    /// A restore on an adapter that keeps no input source, as one has before
    /// its first suppression, selects nothing.
    pub proof fn lemma_restore_needs_suppression(
        self,
        status: Option<bool>,
        post: Self,
        restore: Option<SelectInputSource>,
    )
        requires
            self.retained() is None,
            self.enabled(status, post, restore),
        ensures
            restore is None,
            post.retained() is None,
    {
    }

    /// Suppressing and then restoring with the reported status brings back the
    /// very input source that was current, where the system reports it
    /// truthfully and nothing else selects another.
    pub proof fn lemma_restore_is_exact(
        self,
        source: InputSource,
        mid: Self,
        was_active: bool,
        suppress: Option<SelectInputSource>,
        post: Self,
        restore: Option<SelectInputSource>,
    )
        requires
            source.id is Some,
            self.disabled(Some(source), mid, was_active, suppress),
            mid.enabled(Some(was_active), post, restore),
        ensures
            effect(restore, effect(suppress, source.id->0@)) == source.id->0@,
            was_active ==> post.retained() is None,
    {
    }
}

impl ImeManager for MacosImeManager {
    /// The current input source; there is no reading where the system gives
    /// none.
    type Reading = InputSource;

    type Command = SelectInputSource;

    /// The current input source.
    type Native = InputSource;

    open spec fn reads_status(&self) -> bool {
        true
    }

    open spec fn reading_of(&self, native: InputSource) -> Option<InputSource> {
        Some(native)
    }

    open spec fn is_active(native: InputSource) -> bool {
        active_source(Some(native)) is Some
    }

    /// A source that was selected by request is the current one; whether the
    /// user could select it is then not known.
    open spec fn carry_out(command: Option<SelectInputSource>, native: InputSource) -> InputSource {
        match command {
            Some(select) => InputSource { id: Some(select.id), selectable: None },
            None => native,
        }
    }

    open spec fn disabled(
        &self,
        reading: Option<InputSource>,
        post: Self,
        was_active: bool,
        command: Option<SelectInputSource>,
    ) -> bool {
        match active_source(reading) {
            Some(id) => was_active && post.retained() == Some(id) && target(command) == Some(
                fallback_id(),
            ),
            None => !was_active && post.retained() == self.retained() && command is None,
        }
    }

    open spec fn enabled(
        &self,
        status: Option<bool>,
        post: Self,
        command: Option<SelectInputSource>,
    ) -> bool {
        if status == Some(true) {
            post.retained() is None && target(command) == self.retained()
        } else {
            post == *self && command is None
        }
    }

    fn wants_reading(&self) -> (wanted: bool) {
        true
    }

    fn disable_and_get_status(&mut self, reading: Option<InputSource>) -> (out: (
        bool,
        Option<SelectInputSource>,
    )) {
        match reading {
            Some(source) => {
                let unselectable = match source.selectable {
                    Some(false) => true,
                    _ => false,
                };
                match source.id {
                    Some(id) => {
                        let fallback = us_keyboard_layout();
                        if !unselectable && id != fallback {
                            self.previous_input_source_id = Some(id);
                            (true, Some(SelectInputSource { id: fallback }))
                        } else {
                            (false, None)
                        }
                    },
                    None => (false, None),
                }
            },
            None => (false, None),
        }
    }

    fn enable_with_status(&mut self, status: Option<bool>) -> (command: Option<SelectInputSource>) {
        match status {
            Some(true) => match self.previous_input_source_id.take() {
                Some(id) => Some(SelectInputSource { id }),
                None => None,
            },
            _ => None,
        }
    }

    proof fn lemma_idle_restore(
        &self,
        status: Option<bool>,
        post: Self,
        command: Option<SelectInputSource>,
    ) {
    }

    proof fn lemma_round_trip(
        &self,
        native: InputSource,
        mid: Self,
        was_active: bool,
        suppress: Option<SelectInputSource>,
        post: Self,
        restore: Option<SelectInputSource>,
    ) {
    }

    proof fn lemma_unread_is_inactive(
        &self,
        post: Self,
        was_active: bool,
        command: Option<SelectInputSource>,
    ) {
    }
}

} // verus!
