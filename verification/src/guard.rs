use vstd::prelude::*;

verus! {

/// What the holder of a [`Guard`] does when it lets the guard go.
#[derive(Clone, Copy, Debug, PartialEq, Eq)]
pub enum Release {
    /// Flush the buffered spans and shut the exporter pipeline down.
    Shutdown,
    /// Do nothing: the pipeline was shut down before.
    Nothing,
}

/// Stands for an exporter pipeline that was installed and must be shut down
/// once, when tracing ends. Whoever lets go of the guard without releasing
/// it leaves the buffered spans unsent.
#[derive(Debug)]
pub struct Guard {
    live: bool,
}

impl Guard {
    /// Whether the pipeline has yet to be shut down.
    pub closed spec fn is_live(self) -> bool {
        self.live
    }

    /// The guard after a release: never live.
    pub closed spec fn released(self) -> Guard {
        Guard { live: false }
    }

    /// What a release of this guard asks for: a shutdown if the guard is
    /// live, and nothing otherwise.
    pub open spec fn release_action(self) -> Release {
        if self.is_live() {
            Release::Shutdown
        } else {
            Release::Nothing
        }
    }

    /// How many of `releases` releases in a row, beginning with this guard,
    /// ask for a shutdown.
    pub open spec fn shutdowns(self, releases: nat) -> nat
        decreases releases,
    {
        if releases == 0 {
            0
        } else {
            let first: nat = if self.release_action() == Release::Shutdown {
                1
            } else {
                0
            };
            first + self.released().shutdowns((releases - 1) as nat)
        }
    }

    /// The guard of a pipeline that was just installed.
    pub fn new() -> (guard: Guard)
        ensures
            guard.is_live(),
    {
        Guard { live: true }
    }

    /// Whether the pipeline has yet to be shut down.
    pub fn live(&self) -> (live: bool)
        ensures
            live == self.is_live(),
    {
        self.live
    }

    /// Releases the guard and says what is to be done about the pipeline.
    pub fn release(&mut self) -> (action: Release)
        ensures
            action == old(self).release_action(),
            *final(self) == old(self).released(),
            !final(self).is_live(),
    {
        let action = if self.live {
            Release::Shutdown
        } else {
            Release::Nothing
        };
        self.live = false;
        action
    }

    /// Releasing is idempotent: a released guard is not live, and a second
    /// release changes nothing and asks for nothing.
    pub proof fn lemma_release_is_idempotent(self)
        ensures
            !self.released().is_live(),
            self.released().released() == self.released(),
            self.released().release_action() == Release::Nothing,
    {
    }

    /// However often a live guard is released, the pipeline is shut down
    /// exactly once; a guard that is not live never asks for a shutdown.
    pub proof fn lemma_shuts_down_once(self, releases: nat)
        ensures
            self.shutdowns(releases) == if self.is_live() && releases > 0 {
                1nat
            } else {
                0nat
            },
        decreases releases,
    {
        if releases > 0 {
            self.released().lemma_shuts_down_once((releases - 1) as nat);
        }
    }
}

} // verus!
