//! Decides, on every change of the editor's mode or selection, whether the
//! input method is to be suppressed or restored, and remembers what the
//! suppression found.

use vstd::prelude::*;
use crate::ime::ImeManager;

verus! {

/// The editor's mode, as far as it matters here.
#[derive(Clone, Copy, PartialEq, Eq, Debug)]
pub enum Mode {
    Normal,
    Select,
    Insert,
}

/// Whether typed keys become text in a mode.
pub open spec fn is_inserting(mode: Mode) -> bool {
    mode == Mode::Insert
}

/// An adapter together with the one status that is waiting for a restore.
pub struct ImeSync<M: ImeManager> {
    manager: M,
    stash: Option<bool>,
}

impl<M: ImeManager> ImeSync<M> {
    /// The adapter.
    pub closed spec fn manager_spec(&self) -> M {
        self.manager
    }

    /// The status that the last suppression found, until a restore takes it.
    pub closed spec fn stash_spec(&self) -> Option<bool> {
        self.stash
    }

    /// How one synchronization takes the controller from `self` to `post` in a
    /// mode, with the command it issues. Outside insertion the adapter
    /// suppresses and its answer is stashed; in insertion the adapter restores
    /// with the stash, which is then empty.
    pub open spec fn synchronized(
        &self,
        mode: Mode,
        reading: Option<M::Reading>,
        post: Self,
        command: Option<M::Command>,
    ) -> bool {
        if is_inserting(mode) {
            &&& post.stash_spec() is None
            &&& self.manager_spec().enabled(self.stash_spec(), post.manager_spec(), command)
        } else {
            &&& post.stash_spec() matches Some(was_active)
            &&& self.manager_spec().disabled(reading, post.manager_spec(), was_active, command)
        }
    }

    /// A controller around an adapter, with nothing stashed.
    pub fn new(manager: M) -> (sync: Self)
        ensures
            sync.manager_spec() == manager,
            sync.stash_spec() is None,
    {
        ImeSync { manager, stash: None }
    }

    /// The adapter.
    pub fn manager(&self) -> (manager: &M)
        ensures
            *manager == self.manager_spec(),
    {
        &self.manager
    }

    /// The stashed status.
    pub fn stash(&self) -> (stash: Option<bool>)
        ensures
            stash == self.stash_spec(),
    {
        self.stash
    }

    /// Whether the native subsystem is to be asked for its state before
    /// `update_ime_state` is called in this mode: only ahead of a suppression,
    /// and only where the adapter asks at all.
    pub fn wants_reading(&self, mode: Mode) -> (wanted: bool)
        ensures
            wanted == (!is_inserting(mode) && self.manager_spec().reads_status()),
    {
        match mode {
            Mode::Insert => false,
            _ => self.manager.wants_reading(),
        }
    }

    /// Brings the input method in line with the editor's mode. `reading` is
    /// the native subsystem's answer where `wants_reading` asked for one, and
    /// is not looked at in insertion. Returns the command to send, if any.
    pub fn update_ime_state(&mut self, mode: Mode, reading: Option<M::Reading>) -> (command: Option<
        M::Command,
    >)
        ensures
            old(self).synchronized(mode, reading, *final(self), command),
    {
        match mode {
            Mode::Insert => {
                let status = self.stash;
                self.stash = None;
                self.manager.enable_with_status(status)
            },
            _ => {
                let (was_active, command) = self.manager.disable_and_get_status(reading);
                self.stash = Some(was_active);
                command
            },
        }
    }

    /// Entering insertion with nothing stashed, or with a stash that says the
    /// input method was off, sends nothing and leaves the adapter as it was.
    pub proof fn lemma_restore_without_stash(
        self,
        reading: Option<M::Reading>,
        post: Self,
        command: Option<M::Command>,
    )
        requires
            self.stash_spec() != Some(true),
            self.synchronized(Mode::Insert, reading, post, command),
        ensures
            command is None,
            post.manager_spec() == self.manager_spec(),
            post.stash_spec() is None,
    {
        self.manager_spec().lemma_idle_restore(self.stash_spec(), post.manager_spec(), command);
    }

    /// After a suppression and the restore that follows it, a further restore
    /// sends nothing: the stash is used once.
    pub proof fn lemma_stash_is_used_once(
        self,
        mode: Mode,
        reading: Option<M::Reading>,
        suppressed: Self,
        suppress: Option<M::Command>,
        restored: Self,
        restore: Option<M::Command>,
        again: Self,
        repeat: Option<M::Command>,
    )
        requires
            !is_inserting(mode),
            self.synchronized(mode, reading, suppressed, suppress),
            suppressed.synchronized(Mode::Insert, None, restored, restore),
            restored.synchronized(Mode::Insert, None, again, repeat),
        ensures
            repeat is None,
            again.manager_spec() == restored.manager_spec(),
    {
        restored.lemma_restore_without_stash(None, again, repeat);
    }

    /// Leaving insertion and entering it again leaves composition as active
    /// as it was, where the native subsystem answers truthfully and nothing
    /// else changes it in between; nothing stays stashed.
    pub proof fn lemma_mode_round_trip(
        self,
        mode: Mode,
        native: M::Native,
        suppressed: Self,
        suppress: Option<M::Command>,
        restored: Self,
        restore: Option<M::Command>,
    )
        requires
            !is_inserting(mode),
            self.synchronized(mode, self.manager_spec().reading_of(native), suppressed, suppress),
            suppressed.synchronized(Mode::Insert, None, restored, restore),
        ensures
            M::is_active(M::carry_out(restore, M::carry_out(suppress, native))) == M::is_active(
                native,
            ),
            restored.stash_spec() is None,
    {
        self.manager_spec().lemma_round_trip(
            native,
            suppressed.manager_spec(),
            suppressed.stash_spec()->0,
            suppress,
            restored.manager_spec(),
            restore,
        );
    }

    /// Without an answer from the native subsystem a suppression stashes that
    /// the input method was off.
    pub proof fn lemma_unread_stashes_off(
        self,
        mode: Mode,
        post: Self,
        command: Option<M::Command>,
    )
        requires
            !is_inserting(mode),
            self.synchronized(mode, None, post, command),
        ensures
            post.stash_spec() == Some(false),
    {
        self.manager_spec().lemma_unread_is_inactive(
            post.manager_spec(),
            post.stash_spec()->0,
            command,
        );
    }
}

} // verus!
