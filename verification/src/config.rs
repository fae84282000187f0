//! The configuration store: the length of the voting window of each kind.

use crate::types::{Error, VoteKind, DEFAULT_VOTING_WINDOW};
use vstd::prelude::*;

verus! {

/// What a [`ConfigStore`] holds.
pub struct ConfigView {
    pub qualification_window: u32,
    pub verification_window: u32,
}

impl ConfigView {
    /// Both windows at their default length.
    pub open spec fn defaults() -> ConfigView {
        ConfigView {
            qualification_window: DEFAULT_VOTING_WINDOW,
            verification_window: DEFAULT_VOTING_WINDOW,
        }
    }

    pub open spec fn window(self, kind: VoteKind) -> u32 {
        match kind {
            VoteKind::Qualification => self.qualification_window,
            VoteKind::Verification => self.verification_window,
        }
    }

    /// Both windows are positive.
    pub open spec fn wf(self) -> bool {
        self.qualification_window > 0 && self.verification_window > 0
    }

    /// The configuration after an attempt to set the window of `kind`.
    pub open spec fn set_window(self, kind: VoteKind, window: u32) -> ConfigView {
        if window == 0 {
            self
        } else {
            match kind {
                VoteKind::Qualification => ConfigView { qualification_window: window, ..self },
                VoteKind::Verification => ConfigView { verification_window: window, ..self },
            }
        }
    }
}

/// The voting windows, in units of logical time.
#[derive(Clone, Debug, PartialEq, Eq)]
pub struct ConfigStore {
    qualification_window: u32,
    verification_window: u32,
}

impl View for ConfigStore {
    type V = ConfigView;

    closed spec fn view(&self) -> ConfigView {
        ConfigView {
            qualification_window: self.qualification_window,
            verification_window: self.verification_window,
        }
    }
}

impl ConfigStore {
    pub open spec fn wf(&self) -> bool {
        self@.wf()
    }

    /// A store in which nothing was configured: both windows have the
    /// default length.
    pub fn new() -> (c: ConfigStore)
        ensures
            c.wf(),
            c@ == ConfigView::defaults(),
    {
        ConfigStore {
            qualification_window: DEFAULT_VOTING_WINDOW,
            verification_window: DEFAULT_VOTING_WINDOW,
        }
    }

    /// A store with the given windows, if both are positive.
    pub fn with_windows(qualification_window: u32, verification_window: u32) -> (c: Option<
        ConfigStore,
    >)
        ensures
            c is Some <==> qualification_window > 0 && verification_window > 0,
            c matches Some(c) ==> c.wf() && c@ == (ConfigView {
                qualification_window,
                verification_window,
            }),
    {
        if qualification_window > 0 && verification_window > 0 {
            Some(ConfigStore { qualification_window, verification_window })
        } else {
            None
        }
    }

    /// The window of `kind`.
    pub fn window(&self, kind: VoteKind) -> (w: u32)
        ensures
            w == self@.window(kind),
    {
        match kind {
            VoteKind::Qualification => self.qualification_window,
            VoteKind::Verification => self.verification_window,
        }
    }

    /// Replaces the window of `kind`. Fails with `VotingWindowNotValid`, and
    /// keeps the stored window, if `window` is 0.
    pub fn set_window(&mut self, kind: VoteKind, window: u32) -> (r: Result<(), Error>)
        requires
            old(self).wf(),
        ensures
            final(self).wf(),
            r == (if window == 0 {
                Err::<(), Error>(Error::VotingWindowNotValid)
            } else {
                Ok(())
            }),
            final(self)@ == old(self)@.set_window(kind, window),
    {
        if window == 0 {
            return Err(Error::VotingWindowNotValid);
        }
        match kind {
            VoteKind::Qualification => {
                self.qualification_window = window;
            },
            VoteKind::Verification => {
                self.verification_window = window;
            },
        }
        Ok(())
    }
}

} // verus!
