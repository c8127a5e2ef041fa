//! The per-device supervisor: a state machine over connection phases.
//!
//! The machine owns no I/O.  An outer loop performs each effect the
//! machine asks for — opening the port, sending lines, awaiting responses,
//! sleeping, persisting the configuration, running a telemetry pass — and
//! feeds the outcome back as the next event.  Every decision the loop
//! makes (what to send, when to retry, when a session is lost) is taken
//! here, under contract.
//!
//! Phases follow the connection lifecycle: disconnected, opening the
//! port, identifying the device, reading the tracking mode while syncing,
//! then the steady state, which alternates waiting briefly for a caller
//! action with one telemetry pass.  Any failure returns to disconnected;
//! a failed connection attempt backs off for a second and is retried
//! without bound.

use vstd::prelude::*;

use crate::commands::{command_lines, spec_cmd_lines, spec_query_line, DeviceCmd, Query};
use crate::config::PowerSupplyConfig;
use crate::dispatch::{
    dispatch_action, lemma_action_cmds_wf, multi_on_behaviour, spec_action_cmds, spec_action_saves,
    spec_apply_action, spec_behaviour, PowerSupplyAction,
};
use crate::error::OpenError;
use crate::responses::{check_identity, parse_tracking, spec_parse_tracking, spec_third_field};
use crate::state::{Channel, DeviceState};
use crate::status::LimitEventStatus;
use crate::telemetry::{parse_poll, spec_parse_poll, spec_poll_views};
use crate::text::{copy_range, spec_trim};

verus! {

/// Where the supervisor stands in the connection lifecycle.
#[derive(Clone, Copy, PartialEq, Eq, Structural, Debug)]
pub enum Phase {
    Disconnected,
    Opening,
    Identifying { elapsed_ms: u32 },
    SyncTracking,
    Ready,
    Polling,
}

/// What the outer loop reports back to the machine.
#[derive(Debug)]
pub enum SupervisorEvent {
    /// In `Disconnected`: begin the next connection attempt.
    Tick,
    /// The port was found and opened.
    OpenSucceeded,
    /// No port matched, or the matched port would not open.
    OpenFailed(OpenError),
    /// A response line arrived (while identifying or syncing).
    Line(Vec<u8>),
    /// No line arrived within the awaited window (while identifying).
    Silence,
    /// A caller action arrived (while ready).
    ActionRequest(PowerSupplyAction),
    /// No action arrived within the waiting window (while ready).
    ActionTimeout,
    /// A telemetry pass completed: the tracking response line, then each
    /// channel's response lines.
    PollResponses(Vec<u8>, Vec<Vec<Vec<u8>>>),
    /// A read or write on the port failed.
    LinkError,
}

/// What the machine asks the outer loop to do, in order.
#[derive(PartialEq, Debug)]
pub enum SupervisorEffect {
    /// Enumerate ports, match one, open it; report back.
    TryOpen,
    /// Write this line (the codec adds the terminator).
    Send(Vec<u8>),
    /// Await one response line, up to this many milliseconds (0: no limit).
    AwaitLine(u32),
    /// Sleep this many milliseconds.
    Sleep(u32),
    /// Have the configuration collaborator persist the configuration.
    SaveConfig,
    /// Run one telemetry pass and report its response lines.
    Poll,
}

/// One device's supervisor: its phase, the configuration it drives the
/// device from, the published device state, and how often a connection
/// attempt has failed.
pub struct Supervisor {
    pub phase: Phase,
    pub config: PowerSupplyConfig,
    pub state: DeviceState,
    pub retries: u64,
    pub last_error: Option<OpenError>,
}

/// A retry count one higher, saturating at the machine limit.
pub open spec fn spec_bump(r: u64) -> u64 {
    if r < u64::MAX {
        (r + 1) as u64
    } else {
        r
    }
}

/// Starting a connection attempt: the device shows as disconnected and
/// the port is tried.
pub open spec fn spec_begin_attempt(s: Supervisor) -> Supervisor {
    Supervisor { phase: Phase::Opening, state: DeviceState { connected: false, ..s.state }, ..s }
}

/// A failed connection attempt: back to disconnected with the error
/// recorded and the retry count bumped.
pub open spec fn spec_open_failed(s: Supervisor, e: OpenError) -> Supervisor {
    Supervisor {
        phase: Phase::Disconnected,
        retries: spec_bump(s.retries),
        last_error: Some(e),
        ..s
    }
}

/// The failed-attempt shape without pinning the recorded error value.
pub open spec fn spec_failed_shape(pre: Supervisor, post: Supervisor) -> bool {
    &&& post.phase == Phase::Disconnected
    &&& post.retries == spec_bump(pre.retries)
    &&& post.config == pre.config
    &&& post.state == pre.state
}

/// Losing an established session: disconnected at once, nothing slept and
/// no retry counted — the next tick reopens immediately.
pub open spec fn spec_session_lost(pre: Supervisor, post: Supervisor, e: OpenError) -> bool {
    &&& post.phase == Phase::Disconnected
    &&& post.retries == pre.retries
    &&& post.config == pre.config
    &&& post.last_error == Some(e)
    &&& !post.state.connected
    &&& post.state.channels == pre.state.channels
    &&& post.state.voltage_tracking == pre.state.voltage_tracking
}

/// One full failed cycle: a tick begins an attempt and the attempt fails.
pub open spec fn spec_retry_cycle(s: Supervisor, e: OpenError) -> Supervisor {
    spec_open_failed(spec_begin_attempt(s), e)
}

/// `n` failed cycles in a row.
pub open spec fn spec_retry_cycles(s: Supervisor, e: OpenError, n: nat) -> Supervisor
    decreases n,
{
    if n == 0 {
        s
    } else {
        spec_retry_cycle(spec_retry_cycles(s, e, (n - 1) as nat), e)
    }
}

/// Reconnect liveness: while every attempt fails, the supervisor stays in
/// its disconnected-retry cycle forever — after any number of failed
/// cycles it is again ready to try, the retry count has grown by exactly
/// that number, and nothing else was given up: configuration and channel
/// snapshots are untouched.  (The count saturates only at the width of
/// the counter.)
pub proof fn lemma_reconnect_retries_unbounded(s: Supervisor, e: OpenError, n: nat)
    requires
        s.phase == Phase::Disconnected,
        s.retries + n <= u64::MAX,
    ensures
        spec_retry_cycles(s, e, n).phase == Phase::Disconnected,
        spec_retry_cycles(s, e, n).retries == s.retries + n,
        spec_retry_cycles(s, e, n).config == s.config,
        spec_retry_cycles(s, e, n).state.channels == s.state.channels,
        n > 0 ==> !spec_retry_cycles(s, e, n).state.connected,
    decreases n,
{
    if n > 0 {
        lemma_reconnect_retries_unbounded(s, e, (n - 1) as nat);
    }
}

/// The identify request and its 100 ms answer window.
pub open spec fn spec_identify_effects(eff: Seq<SupervisorEffect>) -> bool {
    &&& eff.len() == 2
    &&& (eff[0] matches SupervisorEffect::Send(l) && l@ == spec_query_line(Query::Identify))
    &&& eff[1] == SupervisorEffect::AwaitLine(100u32)
}

/// Every effect is a `Send`, carrying exactly these lines in order.
pub open spec fn spec_all_sends(eff: Seq<SupervisorEffect>, lines: Seq<Seq<u8>>) -> bool {
    &&& eff.len() == lines.len()
    &&& forall|i: int|
        0 <= i < eff.len() ==> ((#[trigger] eff[i]) matches SupervisorEffect::Send(l) && l@
            == lines[i])
}

/// The wire lines of a command sequence, concatenated in order.
pub open spec fn spec_wire_lines(cmds: Seq<DeviceCmd>) -> Seq<Seq<u8>>
    decreases cmds.len(),
{
    if cmds.len() == 0 {
        Seq::<Seq<u8>>::empty()
    } else {
        spec_wire_lines(cmds.drop_last()) + spec_cmd_lines(cmds.last())
    }
}

/// The multi-on setup commands pushed while syncing: one per channel.
pub open spec fn spec_sync_cmds(c: crate::config::PowerSupplyConfigView) -> Seq<DeviceCmd> {
    seq![
        DeviceCmd::MultiOnSetup { ch: 0, behaviour: spec_behaviour(c.channels[0].multi_on) },
        DeviceCmd::MultiOnSetup { ch: 1, behaviour: spec_behaviour(c.channels[1].multi_on) },
        DeviceCmd::MultiOnSetup { ch: 2, behaviour: spec_behaviour(c.channels[2].multi_on) },
        DeviceCmd::MultiOnSetup { ch: 3, behaviour: spec_behaviour(c.channels[3].multi_on) },
    ]
}

/// The channel snapshots with every sticky status cleared.
pub open spec fn spec_cleared_channels(cs: Seq<Channel>) -> Seq<Channel> {
    Seq::new(cs.len(), |i: int| Channel { status: LimitEventStatus { bits: 0 }, ..cs[i] })
}

/// An event the machine can be given: a caller action must be
/// well-formed.
pub open spec fn spec_event_wf(ev: SupervisorEvent) -> bool {
    match ev {
        SupervisorEvent::ActionRequest(a) => a.wf(),
        _ => true,
    }
}

/// Everything `step` promises, case by case over phase and event.  Any
/// pairing not listed leaves the machine unchanged with no effects.
pub open spec fn spec_step_post(
    pre: Supervisor,
    ev: SupervisorEvent,
    post: Supervisor,
    eff: Seq<SupervisorEffect>,
) -> bool {
    match (pre.phase, ev) {
        (Phase::Disconnected, SupervisorEvent::Tick) => {
            &&& post == spec_begin_attempt(pre)
            &&& eff == seq![SupervisorEffect::TryOpen]
        },
        (Phase::Opening, SupervisorEvent::OpenSucceeded) => {
            &&& post == Supervisor { phase: Phase::Identifying { elapsed_ms: 0 }, ..pre }
            &&& spec_identify_effects(eff)
        },
        (Phase::Opening, SupervisorEvent::OpenFailed(e)) => {
            &&& post == spec_open_failed(pre, e)
            &&& eff == seq![SupervisorEffect::Sleep(1000u32)]
        },
        (Phase::Identifying { elapsed_ms }, SupervisorEvent::Silence) => {
            if elapsed_ms + 100 >= 5000 {
                &&& post == spec_open_failed(pre, OpenError::Timeout)
                &&& eff == seq![SupervisorEffect::Sleep(1000u32)]
            } else {
                &&& post == Supervisor {
                    phase: Phase::Identifying { elapsed_ms: (elapsed_ms + 100) as u32 },
                    ..pre
                }
                &&& spec_identify_effects(eff)
            }
        },
        (Phase::Identifying { .. }, SupervisorEvent::Line(l)) => {
            match spec_third_field(l@) {
                None => {
                    &&& post == spec_open_failed(pre, OpenError::ProtocolError)
                    &&& eff == seq![SupervisorEffect::Sleep(1000u32)]
                },
                Some(f) => {
                    if spec_trim(f) == pre.config@.id {
                        &&& post == Supervisor { phase: Phase::SyncTracking, ..pre }
                        &&& eff.len() == 2
                        &&& (eff[0] matches SupervisorEffect::Send(q) && q@ == spec_query_line(
                            Query::Tracking,
                        ))
                        &&& eff[1] == SupervisorEffect::AwaitLine(0u32)
                    } else {
                        &&& spec_failed_shape(pre, post)
                        &&& (post.last_error matches Some(e) && e matches OpenError::IdNotMatch(n)
                            && n.configured@ == pre.config@.id && n.device@ == spec_trim(f))
                        &&& eff == seq![
                            SupervisorEffect::Sleep(1000u32),
                            SupervisorEffect::Sleep(1000u32),
                        ]
                    }
                },
            }
        },
        (Phase::SyncTracking, SupervisorEvent::Line(l)) => {
            match spec_parse_tracking(l@) {
                Some(t) => {
                    &&& post.phase == Phase::Ready
                    &&& post.config == pre.config
                    &&& post.retries == pre.retries
                    &&& post.last_error == pre.last_error
                    &&& post.state.connected
                    &&& post.state.voltage_tracking == Some(t)
                    &&& post.state.channels == pre.state.channels
                    &&& spec_all_sends(eff, spec_wire_lines(spec_sync_cmds(pre.config@)))
                },
                None => {
                    &&& post == spec_open_failed(pre, OpenError::ProtocolError)
                    &&& eff == seq![SupervisorEffect::Sleep(1000u32)]
                },
            }
        },
        (Phase::Opening, SupervisorEvent::LinkError) => {
            &&& post == spec_open_failed(pre, OpenError::IOError)
            &&& eff == seq![SupervisorEffect::Sleep(1000u32)]
        },
        (Phase::Identifying { .. }, SupervisorEvent::LinkError) => {
            &&& post == spec_open_failed(pre, OpenError::IOError)
            &&& eff == seq![SupervisorEffect::Sleep(1000u32)]
        },
        (Phase::SyncTracking, SupervisorEvent::LinkError) => {
            &&& post == spec_open_failed(pre, OpenError::IOError)
            &&& eff == seq![SupervisorEffect::Sleep(1000u32)]
        },
        (Phase::Ready, SupervisorEvent::ActionRequest(a)) => {
            let lines = spec_wire_lines(spec_action_cmds(pre.config@, a));
            let saves = spec_action_saves(a);
            &&& post.config@ == spec_apply_action(pre.config@, a)
            &&& post.phase == Phase::Polling
            &&& post.retries == pre.retries
            &&& post.last_error == pre.last_error
            &&& post.state.connected == pre.state.connected
            &&& post.state.voltage_tracking == pre.state.voltage_tracking
            &&& post.state.channels@ == if a == PowerSupplyAction::TripReset {
                spec_cleared_channels(pre.state.channels@)
            } else {
                pre.state.channels@
            }
            &&& eff.len() == lines.len() + (if saves {
                2int
            } else {
                1int
            })
            &&& spec_all_sends(eff.subrange(0, lines.len() as int), lines)
            &&& (saves ==> eff[lines.len() as int] == SupervisorEffect::SaveConfig)
            &&& eff.last() == SupervisorEffect::Poll
        },
        (Phase::Ready, SupervisorEvent::ActionTimeout) => {
            &&& post == Supervisor { phase: Phase::Polling, ..pre }
            &&& eff == seq![SupervisorEffect::Poll]
        },
        (Phase::Ready, SupervisorEvent::LinkError) => {
            &&& spec_session_lost(pre, post, OpenError::IOError)
            &&& eff == Seq::<SupervisorEffect>::empty()
        },
        (Phase::Polling, SupervisorEvent::LinkError) => {
            &&& spec_session_lost(pre, post, OpenError::IOError)
            &&& eff == Seq::<SupervisorEffect>::empty()
        },
        (Phase::Polling, SupervisorEvent::PollResponses(tl, rs)) => {
            let parsed = spec_parse_tracking(tl@);
            match parsed {
                Some(t) => {
                    match spec_parse_poll(t, pre.state.channels@, spec_poll_views(rs@)) {
                        Some(cs) => {
                            &&& post.phase == Phase::Ready
                            &&& post.config == pre.config
                            &&& post.retries == pre.retries
                            &&& post.last_error == pre.last_error
                            &&& post.state.connected == pre.state.connected
                            &&& post.state.voltage_tracking == Some(t)
                            &&& post.state.channels@ == cs
                            &&& eff == Seq::<SupervisorEffect>::empty()
                        },
                        None => {
                            &&& spec_session_lost(pre, post, OpenError::ProtocolError)
                            &&& eff == Seq::<SupervisorEffect>::empty()
                        },
                    }
                },
                None => {
                    &&& spec_session_lost(pre, post, OpenError::ProtocolError)
                    &&& eff == Seq::<SupervisorEffect>::empty()
                },
            }
        },
        _ => {
            &&& post == pre
            &&& eff == Seq::<SupervisorEffect>::empty()
        },
    }
}

impl Supervisor {
    /// A sound configuration, a sound device state, and the safety
    /// invariant of the published flag: the device never shows as
    /// connected outside the steady state.
    pub open spec fn wf(self) -> bool {
        &&& self.config@.wf()
        &&& self.state.wf()
        &&& self.state.connected ==> (self.phase == Phase::Ready || self.phase == Phase::Polling)
    }

    /// A supervisor for one configured device, not yet connected.
    pub fn new(config: PowerSupplyConfig) -> (r: Supervisor)
        requires
            config@.wf(),
        ensures
            r.wf(),
            r.phase == Phase::Disconnected,
            r.retries == 0,
            r.last_error is None,
            r.config == config,
            !r.state.connected,
    {
        Supervisor {
            phase: Phase::Disconnected,
            config,
            state: DeviceState::new(),
            retries: 0,
            last_error: None,
        }
    }

    /// Advance the machine by one event; the returned effects are carried
    /// out by the outer loop, in order, before the next event is fed in.
    #[verifier::rlimit(80)]
    pub fn step(&mut self, event: SupervisorEvent) -> (effects: Vec<SupervisorEffect>)
        requires
            old(self).wf(),
            spec_event_wf(event),
        ensures
            final(self).wf(),
            spec_step_post(*old(self), event, *final(self), effects@),
    {
        let mut effects: Vec<SupervisorEffect> = Vec::new();
        match (self.phase, event) {
            (Phase::Disconnected, SupervisorEvent::Tick) => {
                self.phase = Phase::Opening;
                self.state.connected = false;
                effects.push(SupervisorEffect::TryOpen);
                proof {
                    assert(effects@ =~= seq![SupervisorEffect::TryOpen]);
                }
            },
            (Phase::Opening, SupervisorEvent::OpenSucceeded) => {
                self.phase = Phase::Identifying { elapsed_ms: 0 };
                self.push_identify(&mut effects);
            },
            (Phase::Opening, SupervisorEvent::OpenFailed(e)) => {
                self.fail_attempt(e);
                effects.push(SupervisorEffect::Sleep(1000));
                proof {
                    assert(effects@ =~= seq![SupervisorEffect::Sleep(1000u32)]);
                }
            },
            (Phase::Identifying { elapsed_ms }, SupervisorEvent::Silence) => {
                if elapsed_ms >= 4900 {
                    self.fail_attempt(OpenError::Timeout);
                    effects.push(SupervisorEffect::Sleep(1000));
                    proof {
                        assert(effects@ =~= seq![SupervisorEffect::Sleep(1000u32)]);
                    }
                } else {
                    self.phase = Phase::Identifying { elapsed_ms: elapsed_ms + 100 };
                    self.push_identify(&mut effects);
                }
            },
            (Phase::Identifying { .. }, SupervisorEvent::Line(l)) => {
                match check_identity(self.config.id.as_slice(), l.as_slice()) {
                    Ok(()) => {
                        self.phase = Phase::SyncTracking;
                        effects.push(
                            SupervisorEffect::Send(
                                crate::commands::query_line(&Query::Tracking),
                            ),
                        );
                        effects.push(SupervisorEffect::AwaitLine(0));
                    },
                    Err(e) => {
                        let two_sleeps = match &e {
                            OpenError::IdNotMatch(_) => true,
                            _ => false,
                        };
                        self.fail_attempt(e);
                        effects.push(SupervisorEffect::Sleep(1000));
                        if two_sleeps {
                            effects.push(SupervisorEffect::Sleep(1000));
                            proof {
                                assert(effects@ =~= seq![
                                    SupervisorEffect::Sleep(1000u32),
                                    SupervisorEffect::Sleep(1000u32),
                                ]);
                            }
                        } else {
                            proof {
                                assert(effects@ =~= seq![SupervisorEffect::Sleep(1000u32)]);
                            }
                        }
                    },
                }
            },
            (Phase::SyncTracking, SupervisorEvent::Line(l)) => {
                match parse_tracking(l.as_slice()) {
                    Some(t) => {
                        self.phase = Phase::Ready;
                        self.state.connected = true;
                        self.state.voltage_tracking = Some(t);
                        let mut cmds: Vec<DeviceCmd> = Vec::new();
                        cmds.push(
                            DeviceCmd::MultiOnSetup {
                                ch: 0,
                                behaviour: multi_on_behaviour(&self.config.channels[0].multi_on),
                            },
                        );
                        cmds.push(
                            DeviceCmd::MultiOnSetup {
                                ch: 1,
                                behaviour: multi_on_behaviour(&self.config.channels[1].multi_on),
                            },
                        );
                        cmds.push(
                            DeviceCmd::MultiOnSetup {
                                ch: 2,
                                behaviour: multi_on_behaviour(&self.config.channels[2].multi_on),
                            },
                        );
                        cmds.push(
                            DeviceCmd::MultiOnSetup {
                                ch: 3,
                                behaviour: multi_on_behaviour(&self.config.channels[3].multi_on),
                            },
                        );
                        proof {
                            assert(cmds@ =~= spec_sync_cmds(self.config@));
                        }
                        push_send_effects(&cmds, &mut effects);
                        proof {
                            assert(effects@.subrange(0, spec_wire_lines(cmds@).len() as int)
                                =~= effects@);
                        }
                    },
                    None => {
                        self.fail_attempt(OpenError::ProtocolError);
                        effects.push(SupervisorEffect::Sleep(1000));
                        proof {
                            assert(effects@ =~= seq![SupervisorEffect::Sleep(1000u32)]);
                        }
                    },
                }
            },
            (Phase::Opening, SupervisorEvent::LinkError) => {
                self.fail_attempt(OpenError::IOError);
                effects.push(SupervisorEffect::Sleep(1000));
                proof {
                    assert(effects@ =~= seq![SupervisorEffect::Sleep(1000u32)]);
                }
            },
            (Phase::Identifying { .. }, SupervisorEvent::LinkError) => {
                self.fail_attempt(OpenError::IOError);
                effects.push(SupervisorEffect::Sleep(1000));
                proof {
                    assert(effects@ =~= seq![SupervisorEffect::Sleep(1000u32)]);
                }
            },
            (Phase::SyncTracking, SupervisorEvent::LinkError) => {
                self.fail_attempt(OpenError::IOError);
                effects.push(SupervisorEffect::Sleep(1000));
                proof {
                    assert(effects@ =~= seq![SupervisorEffect::Sleep(1000u32)]);
                }
            },
            (Phase::Ready, SupervisorEvent::ActionRequest(a)) => {
                proof {
                    lemma_action_cmds_wf(self.config@, a);
                }
                let is_reset = matches!(a, PowerSupplyAction::TripReset);
                let (cmds, saves) = dispatch_action(&mut self.config, &a);
                if is_reset {
                    self.clear_sticky();
                } else {
                    proof {
                        assert(self.state.channels@ =~= old(self).state.channels@);
                    }
                }
                push_send_effects(&cmds, &mut effects);
                let ghost lines = spec_wire_lines(cmds@);
                if saves {
                    effects.push(SupervisorEffect::SaveConfig);
                }
                effects.push(SupervisorEffect::Poll);
                self.phase = Phase::Polling;
                proof {
                    assert(spec_all_sends(effects@.subrange(0, lines.len() as int), lines));
                }
            },
            (Phase::Ready, SupervisorEvent::ActionTimeout) => {
                self.phase = Phase::Polling;
                effects.push(SupervisorEffect::Poll);
                proof {
                    assert(effects@ =~= seq![SupervisorEffect::Poll]);
                }
            },
            (Phase::Ready, SupervisorEvent::LinkError) => {
                self.lose_session(OpenError::IOError);
            },
            (Phase::Polling, SupervisorEvent::LinkError) => {
                self.lose_session(OpenError::IOError);
            },
            (Phase::Polling, SupervisorEvent::PollResponses(tl, rs)) => {
                match parse_tracking(tl.as_slice()) {
                    Some(t) => {
                        match parse_poll(t, &self.state.channels, &rs) {
                            Some(cs) => {
                                self.phase = Phase::Ready;
                                self.state.voltage_tracking = Some(t);
                                self.state.channels = cs;
                            },
                            None => {
                                self.lose_session(OpenError::ProtocolError);
                            },
                        }
                    },
                    None => {
                        self.lose_session(OpenError::ProtocolError);
                    },
                }
            },
            _ => {},
        }
        effects
    }

    /// Record a failed connection attempt.
    fn fail_attempt(&mut self, e: OpenError)
        ensures
            *final(self) == spec_open_failed(*old(self), e),
    {
        self.phase = Phase::Disconnected;
        if self.retries < u64::MAX {
            self.retries = self.retries + 1;
        }
        self.last_error = Some(e);
    }

    /// Record the loss of an established session.
    fn lose_session(&mut self, e: OpenError)
        ensures
            spec_session_lost(*old(self), *final(self), e),
            final(self).config == old(self).config,
            final(self).state.channels == old(self).state.channels,
    {
        self.phase = Phase::Disconnected;
        self.state.connected = false;
        self.last_error = Some(e);
    }

    /// Emit the identify request and its answer window.
    fn push_identify(&self, effects: &mut Vec<SupervisorEffect>)
        requires
            old(effects)@.len() == 0,
        ensures
            spec_identify_effects(final(effects)@),
    {
        effects.push(SupervisorEffect::Send(crate::commands::query_line(&Query::Identify)));
        effects.push(SupervisorEffect::AwaitLine(100));
    }

    /// Clear every channel's sticky status.
    fn clear_sticky(&mut self)
        requires
            old(self).state.wf(),
        ensures
            final(self).state.channels@ == spec_cleared_channels(old(self).state.channels@),
            final(self).state.connected == old(self).state.connected,
            final(self).state.voltage_tracking == old(self).state.voltage_tracking,
            final(self).phase == old(self).phase,
            final(self).config == old(self).config,
            final(self).retries == old(self).retries,
            final(self).last_error == old(self).last_error,
    {
        let c0 = &mut self.state.channels[0];
        c0.status = LimitEventStatus::empty();
        let c1 = &mut self.state.channels[1];
        c1.status = LimitEventStatus::empty();
        let c2 = &mut self.state.channels[2];
        c2.status = LimitEventStatus::empty();
        let c3 = &mut self.state.channels[3];
        c3.status = LimitEventStatus::empty();
        proof {
            assert(self.state.channels@ =~= spec_cleared_channels(old(self).state.channels@));
        }
    }
}

/// How many wire lines `spec_wire_lines` yields for a prefix one longer.
proof fn lemma_wire_lines_snoc(cmds: Seq<DeviceCmd>, i: int)
    requires
        0 <= i < cmds.len(),
    ensures
        spec_wire_lines(cmds.take(i + 1)) == spec_wire_lines(cmds.take(i)) + spec_cmd_lines(
            cmds[i],
        ),
{
    assert(cmds.take(i + 1).drop_last() =~= cmds.take(i));
    assert(cmds.take(i + 1).last() == cmds[i]);
}

/// Turn each command's wire lines into `Send` effects, in order.
fn push_send_effects(cmds: &Vec<DeviceCmd>, out: &mut Vec<SupervisorEffect>)
    requires
        forall|i: int| 0 <= i < cmds@.len() ==> (#[trigger] cmds@[i]).wf(),
    ensures
        final(out)@.len() == old(out)@.len() + spec_wire_lines(cmds@).len(),
        forall|i: int| 0 <= i < old(out)@.len() ==> final(out)@[i] == old(out)@[i],
        forall|i: int|
            old(out)@.len() <= i < final(out)@.len() ==> ((#[trigger] final(out)@[i]) matches
                SupervisorEffect::Send(l) && l@ == spec_wire_lines(cmds@)[i - old(out)@.len()]),
{
    let n = cmds.len();
    let mut ci: usize = 0;
    while ci < n
        invariant
            ci <= n,
            n == cmds@.len(),
            forall|i: int| 0 <= i < cmds@.len() ==> (#[trigger] cmds@[i]).wf(),
            out@.len() == old(out)@.len() + spec_wire_lines(cmds@.take(ci as int)).len(),
            forall|i: int| 0 <= i < old(out)@.len() ==> out@[i] == old(out)@[i],
            forall|i: int|
                old(out)@.len() <= i < out@.len() ==> ((#[trigger] out@[i]) matches
                    SupervisorEffect::Send(l) && l@ == spec_wire_lines(cmds@.take(ci as int))[i
                    - old(out)@.len()]),
        decreases n - ci,
    {
        let lines = command_lines(&cmds[ci]);
        let ghost cmd_lines = spec_cmd_lines(cmds@[ci as int]);
        let m = lines.len();
        let mut li: usize = 0;
        while li < m
            invariant
                li <= m,
                m == lines@.len(),
                crate::commands::lines_match(lines@, cmd_lines),
                out@.len() == old(out)@.len() + spec_wire_lines(cmds@.take(ci as int)).len()
                    + li,
                forall|i: int| 0 <= i < old(out)@.len() ==> out@[i] == old(out)@[i],
                forall|i: int|
                    old(out)@.len() <= i < old(out)@.len() + spec_wire_lines(
                        cmds@.take(ci as int),
                    ).len() ==> ((#[trigger] out@[i]) matches SupervisorEffect::Send(l) && l@
                        == spec_wire_lines(cmds@.take(ci as int))[i - old(out)@.len()]),
                forall|i: int|
                    old(out)@.len() + spec_wire_lines(cmds@.take(ci as int)).len() <= i
                        < out@.len() ==> ((#[trigger] out@[i]) matches SupervisorEffect::Send(l)
                        && l@ == cmd_lines[i - old(out)@.len() - spec_wire_lines(
                        cmds@.take(ci as int),
                    ).len()]),
            decreases m - li,
        {
            let line = copy_range(lines[li].as_slice(), 0, lines[li].len());
            proof {
                assert(lines@[li as int]@.subrange(0, lines@[li as int]@.len() as int)
                    =~= lines@[li as int]@);
            }
            out.push(SupervisorEffect::Send(line));
            li = li + 1;
        }
        proof {
            lemma_wire_lines_snoc(cmds@, ci as int);
        }
        ci = ci + 1;
    }
    proof {
        assert(cmds@.take(n as int) =~= cmds@);
    }
}

} // verus!
