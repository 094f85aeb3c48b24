//! The single-flight update lifecycle.
//!
//! Two slots model the display subprocess: `running` holds the command of
//! the process in flight, `pending` the one coalesced command queued behind
//! it. A request while a process runs replaces the pending command — only
//! the latest request survives — and a process exit promotes the pending
//! command into the running slot.

use vstd::prelude::*;
use crate::command::CommandLine;

verus! {

/// What a request did to the slots.
#[derive(Clone, Copy, Debug, PartialEq, Eq, Structural)]
pub enum UpdateAction {
    /// The command went straight into the running slot; the caller must
    /// launch it.
    Launched,
    /// A process is running, so the command was queued. `discarded` reports
    /// that an older pending command was thrown away for it.
    Queued { discarded: bool },
}

/// The running and pending update slots.
pub struct UpdateSlots {
    pub running: Option<CommandLine>,
    pub pending: Option<CommandLine>,
}

/// The slots after a new command is requested: into the running slot when
/// that is free, otherwise replacing whatever was pending.
pub open spec fn spec_request(s: UpdateSlots, cmd: CommandLine) -> UpdateSlots {
    if s.running is None {
        UpdateSlots { running: Some(cmd), ..s }
    } else {
        UpdateSlots { pending: Some(cmd), ..s }
    }
}

/// The slots after the running process exits: the pending command, if any,
/// takes its place.
pub open spec fn spec_exit(s: UpdateSlots) -> UpdateSlots {
    UpdateSlots { running: s.pending, pending: None }
}

impl UpdateSlots {
    /// A command is only ever pending behind a running one.
    pub open spec fn wf(&self) -> bool {
        self.pending is Some ==> self.running is Some
    }

    /// Both slots empty: nothing runs, nothing waits.
    pub fn new() -> (r: UpdateSlots)
        ensures
            r.running is None,
            r.pending is None,
            r.wf(),
    {
        UpdateSlots { running: None, pending: None }
    }

    /// Accept a new update command. When nothing is running it occupies the
    /// running slot and must be launched by the caller; otherwise it
    /// becomes the sole pending command, displacing an older one.
    pub fn request_update(&mut self, cmd: CommandLine) -> (r: UpdateAction)
        requires
            old(self).wf(),
        ensures
            *final(self) == spec_request(*old(self), cmd),
            r == (if old(self).running is None {
                UpdateAction::Launched
            } else {
                UpdateAction::Queued { discarded: old(self).pending is Some }
            }),
            final(self).wf(),
    {
        if self.running.is_none() {
            self.running = Some(cmd);
            UpdateAction::Launched
        } else {
            let discarded = self.pending.is_some();
            self.pending = Some(cmd);
            UpdateAction::Queued { discarded }
        }
    }

    /// Note that the running process exited: the pending command, if there
    /// is one, moves into the running slot and must be launched by the
    /// caller.
    pub fn on_process_exit(&mut self) -> (launch: bool)
        ensures
            *final(self) == spec_exit(*old(self)),
            launch == (old(self).pending is Some),
            final(self).wf(),
    {
        let next = self.pending.take();
        let launch = next.is_some();
        self.running = next;
        launch
    }

    /// The command in the running slot, to hand to the process spawner.
    pub fn running_command(&self) -> (r: Option<&CommandLine>)
        ensures
            match r {
                Some(c) => self.running == Some(*c),
                None => self.running is None,
            },
    {
        self.running.as_ref()
    }
}

/// Coalescing: when an update is requested while one is running and a
/// second is requested before the first finishes, only the latest command
/// survives — on the running process's exit it, and not the first-requested
/// one, is launched.
pub proof fn lemma_coalescing(s0: UpdateSlots, a: CommandLine, b: CommandLine)
    requires
        s0.running is Some,
    ensures
        spec_exit(spec_request(spec_request(s0, a), b)).running == Some(b),
        spec_exit(spec_request(spec_request(s0, a), b)).pending is None,
{
}

} // verus!
