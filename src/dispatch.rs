//! The connect-or-launch protocol as a state machine. The caller performs
//! each action (open the channel, write, activate a window, start a
//! process) and reports what came of it as the next event; every decision
//! is taken here.
use vstd::prelude::*;
use crate::codec::{command_stream, encode_commands, views};
use crate::config::opt_view;
use crate::launch::{launch_plan, player_program, LaunchPlan};

verus! {

/// Where a dispatch stands.
#[derive(Clone, Copy)]
pub enum Phase {
    /// The channel at the configured address is being opened.
    Probing,
    /// The commands are being written to the open channel. `owner` is the
    /// identity of the process serving it, when that could be read.
    Writing { owner: Option<u32> },
    /// The player window of the owning process is being brought forward.
    Activating,
    /// A new player instance is being started.
    Launching,
    /// The dispatch is over; `ok` tells whether it succeeded.
    Done { ok: bool },
}

/// What came of the last action.
pub enum Event {
    /// The channel opened; `owner` is the identity of the process serving it,
    /// or `None` when that query failed.
    ChannelOpened { owner: Option<u32> },
    /// The channel could not be opened.
    ChannelUnavailable,
    /// The command stream was written and flushed.
    Written,
    /// Writing or flushing the command stream failed.
    WriteFailed,
    /// The activation was attempted (its failures are of no consequence).
    Activated,
    /// The new instance was started.
    Launched,
    /// The new instance could not be started.
    LaunchFailed,
}

/// What the caller is to do next.
pub enum Action {
    /// Write `stream` to the open channel, then flush it once.
    Write { stream: String },
    /// Bring the player window of process `pid` to the foreground, as far as
    /// that succeeds.
    Activate { pid: u32 },
    /// Start a new player instance as `plan` says, then give it a moment to
    /// open its channel.
    Launch { plan: LaunchPlan },
    /// Stop; `ok` tells whether the dispatch succeeded.
    Finish { ok: bool },
}

/// An identity that can be used to find the owner's window: one was read,
/// and it is not zero.
pub open spec fn valid_owner(owner: Option<u32>) -> bool {
    owner matches Some(p) && p != 0
}

/// After delivery, the owner's window is activated when its identity is
/// valid; otherwise the dispatch has succeeded.
pub open spec fn after_delivery(owner: Option<u32>, phase: Phase, action: Action) -> bool {
    if valid_owner(owner) {
        phase == Phase::Activating && action == (Action::Activate { pid: owner->0 })
    } else {
        phase == (Phase::Done { ok: true }) && action == (Action::Finish { ok: true })
    }
}

/// The dispatch ends, successfully or not.
pub open spec fn finishes(ok: bool, phase: Phase, action: Action) -> bool {
    phase == (Phase::Done { ok }) && action == (Action::Finish { ok })
}

/// One invocation's dispatch: the channel address, the load mode, the
/// resolved references in argument order, the executable override, and the
/// phase reached.
pub struct Dispatch {
    pub socket_path: String,
    pub loadfile_flag: String,
    pub files: Vec<String>,
    pub player_override: Option<String>,
    pub phase: Phase,
}

impl Dispatch {
    /// A new instance is started for these references at this address.
    pub open spec fn launches(&self, phase: Phase, action: Action) -> bool {
        &&& phase == Phase::Launching
        &&& (action matches Action::Launch { plan } && plan.describes(
            views(self.files@),
            self.socket_path@,
            player_program(opt_view(self.player_override)),
        ))
    }

    /// The same request as `other`.
    pub open spec fn same_request(&self, other: &Dispatch) -> bool {
        &&& self.socket_path == other.socket_path
        &&& self.loadfile_flag == other.loadfile_flag
        &&& self.files == other.files
        &&& self.player_override == other.player_override
    }

    /// A dispatch that first opens the channel at `socket_path`.
    pub fn new(
        socket_path: String,
        loadfile_flag: String,
        files: Vec<String>,
        player_override: Option<String>,
    ) -> (r: Dispatch)
        ensures
            r.socket_path == socket_path,
            r.loadfile_flag == loadfile_flag,
            r.files == files,
            r.player_override == player_override,
            r.phase == Phase::Probing,
    {
        Dispatch { socket_path, loadfile_flag, files, player_override, phase: Phase::Probing }
    }

    fn launch(&mut self) -> (action: Action)
        ensures
            final(self).same_request(old(self)),
            old(self).launches(final(self).phase, action),
    {
        let player = match &self.player_override {
            Some(p) => Some(p.clone()),
            None => None,
        };
        let plan = launch_plan(&self.files, self.socket_path.as_str(), player);
        self.phase = Phase::Launching;
        Action::Launch { plan }
    }

    fn deliver(&mut self, owner: Option<u32>) -> (action: Action)
        ensures
            final(self).same_request(old(self)),
            after_delivery(owner, final(self).phase, action),
    {
        match owner {
            Some(pid) => if pid != 0 {
                self.phase = Phase::Activating;
                Action::Activate { pid }
            } else {
                self.finish(true)
            },
            None => self.finish(true),
        }
    }

    fn finish(&mut self, ok: bool) -> (action: Action)
        ensures
            final(self).same_request(old(self)),
            finishes(ok, final(self).phase, action),
    {
        self.phase = Phase::Done { ok };
        Action::Finish { ok }
    }

    /// Takes the outcome of the last action and decides the next one.
    ///
    /// An absent channel leads to a launch. An open channel gets the command
    /// stream when there are references, and nothing written when there are
    /// none; then the owner's window is activated when its identity is
    /// valid. A failed write falls back to a launch; a failed launch ends
    /// the dispatch as failed, as does an event the phase does not expect.
    pub fn step(&mut self, event: Event) -> (action: Action)
        ensures
            final(self).same_request(old(self)),
            match (old(self).phase, event) {
                (Phase::Probing, Event::ChannelUnavailable) => old(self).launches(
                    final(self).phase,
                    action,
                ),
                (Phase::Probing, Event::ChannelOpened { owner }) => if old(self).files@.len() > 0 {
                    &&& final(self).phase == (Phase::Writing { owner })
                    &&& (action matches Action::Write { stream } && stream@ == command_stream(
                        views(old(self).files@),
                        old(self).loadfile_flag@,
                    ))
                } else {
                    after_delivery(owner, final(self).phase, action)
                },
                (Phase::Writing { owner }, Event::Written) => after_delivery(
                    owner,
                    final(self).phase,
                    action,
                ),
                (Phase::Writing { owner: _ }, Event::WriteFailed) => old(self).launches(
                    final(self).phase,
                    action,
                ),
                (Phase::Activating, Event::Activated) => finishes(true, final(self).phase, action),
                (Phase::Launching, Event::Launched) => finishes(true, final(self).phase, action),
                _ => finishes(false, final(self).phase, action),
            },
    {
        let phase = self.phase;
        match phase {
            Phase::Probing => match event {
                Event::ChannelUnavailable => self.launch(),
                Event::ChannelOpened { owner } => {
                    if self.files.len() > 0 {
                        let stream = encode_commands(&self.files, self.loadfile_flag.as_str());
                        self.phase = Phase::Writing { owner };
                        Action::Write { stream }
                    } else {
                        self.deliver(owner)
                    }
                },
                _ => self.finish(false),
            },
            Phase::Writing { owner } => match event {
                Event::Written => self.deliver(owner),
                Event::WriteFailed => self.launch(),
                _ => self.finish(false),
            },
            Phase::Activating => match event {
                Event::Activated => self.finish(true),
                _ => self.finish(false),
            },
            Phase::Launching => match event {
                Event::Launched => self.finish(true),
                _ => self.finish(false),
            },
            Phase::Done { ok: _ } => self.finish(false),
        }
    }
}

} // verus!
