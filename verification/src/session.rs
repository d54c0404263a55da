//! The capture session state machine.
//!
//! A session turns an intermittently available camera stream into a sequence
//! of decode attempts. The machine here owns the decisions only: the host
//! feeds it one message at a time and performs the actions it returns
//! (requesting a stream, arming a timer, capturing a frame, emitting events).
//! The stream and timer handles are opaque to the machine; it tracks who owns
//! them and gives them back for release when the session ends.
//!
//! States run `Idle -> Acquiring -> Streaming -> Closed`; `Closed` can be
//! restarted like `Idle`. A stream handle is held exactly while `Streaming`,
//! a timer handle only while `Streaming`, and the flashlight flag is only set
//! while `Streaming`.

use vstd::prelude::*;

use crate::device::{
    ConstraintUpdate, acquisition_constraints, spec_acquisition_constraints, spec_torch_update,
    torch_update,
};

verus! {

/// Lifecycle phase of a capture session.
#[derive(Clone, Copy, Debug, PartialEq, Eq, Structural)]
pub enum Phase {
    /// No session activity; a start command is accepted.
    Idle,
    /// A stream request is in flight; at most one at a time.
    Acquiring,
    /// A stream is held and frames may be sampled and decoded.
    Streaming,
    /// The session ended; stale completions are ignored. A start command is
    /// accepted again, as from `Idle`.
    Closed,
}

/// Classification of everything that can go wrong, as reported to the host.
#[derive(Clone, Copy, Debug, PartialEq, Eq, Structural)]
pub enum ErrorKind {
    /// The platform denied the stream request or found no device. Terminal.
    AcquisitionFailed,
    /// No symbol in the frame. Expected and silent: never reported.
    DecodeNotFound,
    /// A symbol was found but could not be parsed. Reported; the session
    /// keeps streaming.
    DecodeMalformed,
    /// The decode engine failed unexpectedly. Reported; the session keeps
    /// streaming.
    DecodeEngineError,
    /// A constraint update (torch) was rejected. Reported; the session keeps
    /// streaming.
    DeviceControlFailed,
}

/// The engine's answer for one decode attempt, with the successful result
/// carried opaquely.
#[derive(Clone, Debug, PartialEq, Eq)]
pub enum DecodeOutcome<R> {
    /// A symbol was decoded.
    Found(R),
    /// No symbol in this frame.
    NotFound,
    /// A symbol was found but could not be parsed.
    Malformed(String),
    /// The engine failed in an unexpected way.
    EngineError(String),
}

/// A message the host delivers to the session: a host command, or the
/// completion of asynchronous work the session asked for.
#[derive(Clone, Debug, PartialEq, Eq)]
pub enum ScannerMessage<S, R> {
    /// Host command: start scanning.
    ToggleScanner,
    /// The stream request resolved successfully.
    ReceivedStream(S),
    /// The capture surface reports a renderable frame.
    VideoTimeUpdate,
    /// The periodic sample timer ticked.
    CapturedImage,
    /// One preprocess-and-decode pipeline step finished.
    DecodeCompleted(DecodeOutcome<R>),
    /// Asynchronous work failed: a denied stream request, or a rejected
    /// constraint update.
    Error(ErrorKind, String),
    /// A torch constraint update was applied; the payload is the torch state
    /// that now holds.
    TorchApplied(bool),
    /// Host command: end the session.
    CloseScanner,
    /// Host command: switch the torch.
    ToggleFlashlight,
}

/// Work the host must perform after a step of the machine, in order.
#[derive(Clone, Debug, PartialEq, Eq)]
pub enum Action<S, T, R> {
    /// Request a camera stream with the given constraints; deliver
    /// `ReceivedStream` or `Error(AcquisitionFailed, _)`.
    RequestStream(ConstraintUpdate),
    /// Bind the held stream as the live source of the capture surface.
    BindStream,
    /// Arm the periodic timer at the given interval in milliseconds and hand
    /// the handle to `store_interval`; each tick delivers `CapturedImage`.
    ArmTimer(u32),
    /// Render the current frame, extract it, preprocess and decode it, and
    /// deliver `DecodeCompleted`.
    Capture,
    /// Apply the constraint update to the stream's first video track; deliver
    /// `TorchApplied` or `Error(DeviceControlFailed, _)`.
    ApplyTorch(ConstraintUpdate),
    /// Release the camera hardware: stop every track of this stream.
    StopStream(S),
    /// Cancel this timer.
    CancelTimer(T),
    /// Host event: a code was scanned.
    EmitScanned(R),
    /// Host event: an error is reported.
    EmitError(ErrorKind, String),
    /// Host event: the session closed.
    EmitClosed,
}

/// Session configuration.
#[derive(Clone, Copy, Debug, PartialEq, Eq, Structural)]
pub struct ScannerProps {
    /// Sample interval between decode attempts, in milliseconds.
    pub refresh_milliseconds: u32,
}

impl Default for ScannerProps {
    /// The default sample interval is 500 ms.
    fn default() -> (d: Self)
        ensures
            d.refresh_milliseconds == 500,
    {
        ScannerProps { refresh_milliseconds: 500 }
    }
}

/// One live scanning attempt. `S` is the host's stream handle type, `T` its
/// timer handle type; both are opaque here.
pub struct Scanner<S, T> {
    /// Current lifecycle phase.
    pub phase: Phase,
    /// The owned camera-stream handle, held exactly while `Streaming`.
    pub stream: Option<S>,
    /// The owned sample-timer handle, held only while `Streaming`, once the
    /// capture surface has reported a frame.
    pub interval: Option<T>,
    /// Advisory torch flag: the requested state, not confirmed hardware
    /// state. Always false outside `Streaming`.
    pub is_flashlight_on: bool,
    /// Sample interval between decode attempts, in milliseconds.
    pub refresh_milliseconds: u32,
}

/// True of an action that the host surfaces as an event.
pub open spec fn is_emission<S, T, R>(a: Action<S, T, R>) -> bool {
    a is EmitScanned || a is EmitError || a is EmitClosed
}

impl<S, T> Scanner<S, T> {
    /// The session invariant: a stream handle exactly while `Streaming`, a
    /// timer handle only while `Streaming`, the flashlight flag only while
    /// `Streaming`.
    pub open spec fn wf(self) -> bool {
        &&& self.stream is Some <==> self.phase is Streaming
        &&& self.interval is Some ==> self.phase is Streaming
        &&& self.is_flashlight_on ==> self.phase is Streaming
    }

    /// The state after teardown: `Closed`, with both handles gone and the
    /// flashlight flag cleared.
    pub open spec fn spec_closed(self) -> Scanner<S, T> {
        Scanner {
            phase: Phase::Closed,
            stream: None,
            interval: None,
            is_flashlight_on: false,
            refresh_milliseconds: self.refresh_milliseconds,
        }
    }

    /// The actions that release what the session holds: stop the stream if
    /// one is held, cancel the timer if one is armed.
    pub open spec fn spec_teardown<R>(self) -> Seq<Action<S, T, R>> {
        (match self.stream {
            Some(s) => seq![Action::StopStream(s)],
            None => Seq::<Action<S, T, R>>::empty(),
        }) + (match self.interval {
            Some(t) => seq![Action::CancelTimer(t)],
            None => Seq::<Action<S, T, R>>::empty(),
        })
    }
}

/// The transition relation of the session machine: the state after a message
/// and the actions the host must perform, in order.
pub open spec fn step<S, T, R>(pre: Scanner<S, T>, msg: ScannerMessage<S, R>) -> (Scanner<S, T>,
    Seq<Action<S, T, R>>) {
    match msg {
        // Start is accepted when no session is active; otherwise it is
        // ignored, so at most one acquisition is ever in flight.
        ScannerMessage::ToggleScanner => {
            if pre.phase is Idle || pre.phase is Closed {
                (
                    Scanner { phase: Phase::Acquiring, ..pre },
                    seq![Action::<S, T, R>::RequestStream(spec_acquisition_constraints())],
                )
            } else {
                (pre, Seq::<Action<S, T, R>>::empty())
            }
        },
        // A stream that arrives while acquiring is stored and bound; one that
        // arrives after the session moved on is stale and is released at
        // once, never resurrecting state.
        ScannerMessage::ReceivedStream(s) => {
            if pre.phase is Acquiring {
                (
                    Scanner { phase: Phase::Streaming, stream: Some(s), ..pre },
                    seq![Action::<S, T, R>::BindStream],
                )
            } else {
                (pre, seq![Action::<S, T, R>::StopStream(s)])
            }
        },
        // The first renderable frame arms the timer; arming happens once per
        // `Streaming` entry, so later notifications are no-ops.
        ScannerMessage::VideoTimeUpdate => {
            if pre.phase is Streaming && pre.interval is None {
                (pre, seq![Action::<S, T, R>::ArmTimer(pre.refresh_milliseconds)])
            } else {
                (pre, Seq::<Action<S, T, R>>::empty())
            }
        },
        // A tick while streaming samples one frame; a stale tick after the
        // session ended is ignored.
        ScannerMessage::CapturedImage => {
            if pre.phase is Streaming {
                (pre, seq![Action::<S, T, R>::Capture])
            } else {
                (pre, Seq::<Action<S, T, R>>::empty())
            }
        },
        // A decode answer only matters while streaming. Success emits the
        // result and ends the session; not-found is silent; the other
        // failures are reported and the session keeps streaming.
        ScannerMessage::DecodeCompleted(outcome) => {
            if pre.phase is Streaming {
                match outcome {
                    DecodeOutcome::Found(res) => (
                        pre.spec_closed(),
                        seq![Action::<S, T, R>::EmitScanned(res)] + pre.spec_teardown()
                            + seq![Action::<S, T, R>::EmitClosed],
                    ),
                    DecodeOutcome::NotFound => (pre, Seq::<Action<S, T, R>>::empty()),
                    DecodeOutcome::Malformed(m) => (
                        pre,
                        seq![Action::<S, T, R>::EmitError(ErrorKind::DecodeMalformed, m)],
                    ),
                    DecodeOutcome::EngineError(m) => (
                        pre,
                        seq![Action::<S, T, R>::EmitError(ErrorKind::DecodeEngineError, m)],
                    ),
                }
            } else {
                (pre, Seq::<Action<S, T, R>>::empty())
            }
        },
        // A denied stream request ends the session after reporting it; a
        // rejected constraint update is reported and changes nothing. Any
        // other failure report is stale and is ignored.
        ScannerMessage::Error(kind, m) => {
            if pre.phase is Acquiring && kind is AcquisitionFailed {
                (
                    pre.spec_closed(),
                    seq![
                        Action::<S, T, R>::EmitError(ErrorKind::AcquisitionFailed, m),
                        Action::<S, T, R>::EmitClosed,
                    ],
                )
            } else if pre.phase is Streaming && kind is DeviceControlFailed {
                (pre, seq![Action::<S, T, R>::EmitError(ErrorKind::DeviceControlFailed, m)])
            } else {
                (pre, Seq::<Action<S, T, R>>::empty())
            }
        },
        // The advisory flag follows the state an applied update requested;
        // it never flips on failure.
        ScannerMessage::TorchApplied(on) => {
            if pre.phase is Streaming {
                (Scanner { is_flashlight_on: on, ..pre }, Seq::<Action<S, T, R>>::empty())
            } else {
                (pre, Seq::<Action<S, T, R>>::empty())
            }
        },
        // Close releases everything and notifies the host exactly once;
        // closing an idle or already-closed session does nothing.
        ScannerMessage::CloseScanner => {
            if pre.phase is Acquiring || pre.phase is Streaming {
                (pre.spec_closed(), pre.spec_teardown() + seq![Action::<S, T, R>::EmitClosed])
            } else {
                (pre, Seq::<Action<S, T, R>>::empty())
            }
        },
        // Switching the torch delegates to the device controller with the
        // negation of the advisory flag; only valid while streaming.
        ScannerMessage::ToggleFlashlight => {
            if pre.phase is Streaming {
                (pre, seq![Action::<S, T, R>::ApplyTorch(spec_torch_update(!pre.is_flashlight_on))])
            } else {
                (pre, Seq::<Action<S, T, R>>::empty())
            }
        },
    }
}

impl<S, T> Scanner<S, T> {
    /// A fresh session: idle, holding nothing, flashlight off.
    pub fn create(props: &ScannerProps) -> (s: Self)
        ensures
            s == (Scanner::<S, T> {
                phase: Phase::Idle,
                stream: None,
                interval: None,
                is_flashlight_on: false,
                refresh_milliseconds: props.refresh_milliseconds,
            }),
            s.wf(),
    {
        Scanner {
            phase: Phase::Idle,
            stream: None,
            interval: None,
            is_flashlight_on: false,
            refresh_milliseconds: props.refresh_milliseconds,
        }
    }

    /// Releases both handles into actions and moves to `Closed`.
    fn teardown<R>(&mut self) -> (actions: Vec<Action<S, T, R>>)
        ensures
            *final(self) == old(self).spec_closed(),
            actions@ == old(self).spec_teardown::<R>(),
    {
        let mut actions: Vec<Action<S, T, R>> = Vec::new();
        if let Some(s) = self.stream.take() {
            actions.push(Action::StopStream(s));
        }
        if let Some(t) = self.interval.take() {
            actions.push(Action::CancelTimer(t));
        }
        self.phase = Phase::Closed;
        self.is_flashlight_on = false;
        proof {
            assert(actions@ =~= old(self).spec_teardown::<R>());
        }
        actions
    }

    /// Processes one message: moves to the state `step` gives and returns the
    /// actions the host must now perform, in order.
    pub fn update<R>(&mut self, msg: ScannerMessage<S, R>) -> (actions: Vec<Action<S, T, R>>)
        requires
            old(self).wf(),
        ensures
            *final(self) == step::<S, T, R>(*old(self), msg).0,
            actions@ == step::<S, T, R>(*old(self), msg).1,
            final(self).wf(),
    {
        match msg {
            ScannerMessage::ToggleScanner => {
                let mut actions: Vec<Action<S, T, R>> = Vec::new();
                if self.phase == Phase::Idle || self.phase == Phase::Closed {
                    self.phase = Phase::Acquiring;
                    actions.push(Action::RequestStream(acquisition_constraints()));
                }
                proof {
                    assert(actions@ =~= step::<S, T, R>(*old(self), msg).1);
                }
                actions
            },
            ScannerMessage::ReceivedStream(s) => {
                let mut actions: Vec<Action<S, T, R>> = Vec::new();
                if self.phase == Phase::Acquiring {
                    self.phase = Phase::Streaming;
                    self.stream = Some(s);
                    actions.push(Action::BindStream);
                } else {
                    actions.push(Action::StopStream(s));
                }
                proof {
                    assert(actions@ =~= step::<S, T, R>(*old(self), msg).1);
                }
                actions
            },
            ScannerMessage::VideoTimeUpdate => {
                let mut actions: Vec<Action<S, T, R>> = Vec::new();
                if self.phase == Phase::Streaming && self.interval.is_none() {
                    actions.push(Action::ArmTimer(self.refresh_milliseconds));
                }
                proof {
                    assert(actions@ =~= step::<S, T, R>(*old(self), msg).1);
                }
                actions
            },
            ScannerMessage::CapturedImage => {
                let mut actions: Vec<Action<S, T, R>> = Vec::new();
                if self.phase == Phase::Streaming {
                    actions.push(Action::Capture);
                }
                proof {
                    assert(actions@ =~= step::<S, T, R>(*old(self), msg).1);
                }
                actions
            },
            ScannerMessage::DecodeCompleted(outcome) => {
                if self.phase == Phase::Streaming {
                    match outcome {
                        DecodeOutcome::Found(res) => {
                            let mut actions: Vec<Action<S, T, R>> = Vec::new();
                            actions.push(Action::EmitScanned(res));
                            let mut rest = self.teardown();
                            actions.append(&mut rest);
                            actions.push(Action::EmitClosed);
                            proof {
                                assert(actions@ =~= step::<S, T, R>(*old(self), msg).1);
                            }
                            actions
                        },
                        DecodeOutcome::NotFound => Vec::new(),
                        DecodeOutcome::Malformed(m) => {
                            let mut actions: Vec<Action<S, T, R>> = Vec::new();
                            actions.push(Action::EmitError(ErrorKind::DecodeMalformed, m));
                            proof {
                                assert(actions@ =~= step::<S, T, R>(*old(self), msg).1);
                            }
                            actions
                        },
                        DecodeOutcome::EngineError(m) => {
                            let mut actions: Vec<Action<S, T, R>> = Vec::new();
                            actions.push(Action::EmitError(ErrorKind::DecodeEngineError, m));
                            proof {
                                assert(actions@ =~= step::<S, T, R>(*old(self), msg).1);
                            }
                            actions
                        },
                    }
                } else {
                    Vec::new()
                }
            },
            ScannerMessage::Error(kind, m) => {
                if self.phase == Phase::Acquiring && kind == ErrorKind::AcquisitionFailed {
                    self.phase = Phase::Closed;
                    self.stream = None;
                    self.interval = None;
                    self.is_flashlight_on = false;
                    let mut actions: Vec<Action<S, T, R>> = Vec::new();
                    actions.push(Action::EmitError(ErrorKind::AcquisitionFailed, m));
                    actions.push(Action::EmitClosed);
                    proof {
                        assert(actions@ =~= step::<S, T, R>(*old(self), msg).1);
                    }
                    actions
                } else if self.phase == Phase::Streaming && kind == ErrorKind::DeviceControlFailed {
                    let mut actions: Vec<Action<S, T, R>> = Vec::new();
                    actions.push(Action::EmitError(ErrorKind::DeviceControlFailed, m));
                    proof {
                        assert(actions@ =~= step::<S, T, R>(*old(self), msg).1);
                    }
                    actions
                } else {
                    Vec::new()
                }
            },
            ScannerMessage::TorchApplied(on) => {
                if self.phase == Phase::Streaming {
                    self.is_flashlight_on = on;
                }
                Vec::new()
            },
            ScannerMessage::CloseScanner => {
                if self.phase == Phase::Acquiring || self.phase == Phase::Streaming {
                    let mut actions = self.teardown();
                    actions.push(Action::EmitClosed);
                    proof {
                        assert(actions@ =~= step::<S, T, R>(*old(self), msg).1);
                    }
                    actions
                } else {
                    Vec::new()
                }
            },
            ScannerMessage::ToggleFlashlight => {
                let mut actions: Vec<Action<S, T, R>> = Vec::new();
                if self.phase == Phase::Streaming {
                    actions.push(Action::ApplyTorch(torch_update(!self.is_flashlight_on)));
                }
                proof {
                    assert(actions@ =~= step::<S, T, R>(*old(self), msg).1);
                }
                actions
            },
        }
    }

    /// Runtime check of the session invariant, for callers outside the
    /// proof: true exactly when `wf` holds.
    pub fn invariant_holds(&self) -> (ok: bool)
        ensures
            ok == self.wf(),
    {
        (self.stream.is_some() == (self.phase == Phase::Streaming)) && (self.interval.is_none()
            || self.phase == Phase::Streaming) && (!self.is_flashlight_on || self.phase
            == Phase::Streaming)
    }

    /// Stores the timer handle the host created for an `ArmTimer` action.
    /// Arming is one-time per `Streaming` entry: a handle that arrives when
    /// one is already stored, or when the session is not streaming, is handed
    /// back for cancellation.
    pub fn store_interval(&mut self, timer: T) -> (rejected: Option<T>)
        requires
            old(self).wf(),
        ensures
            final(self).wf(),
            if old(self).phase is Streaming && old(self).interval is None {
                *final(self) == (Scanner { interval: Some(timer), ..*old(self) }) && rejected
                    is None
            } else {
                *final(self) == *old(self) && rejected == Some(timer)
            },
    {
        if self.phase == Phase::Streaming && self.interval.is_none() {
            self.interval = Some(timer);
            None
        } else {
            Some(timer)
        }
    }
}

/// Law: the session invariant holds in every reachable state — each step
/// preserves it.
pub proof fn lemma_step_preserves_wf<S, T, R>(pre: Scanner<S, T>, msg: ScannerMessage<S, R>)
    requires
        pre.wf(),
    ensures
        step::<S, T, R>(pre, msg).0.wf(),
{
}

/// Law: a start command from a restartable state issues exactly one stream
/// request, and a second start before anything else completes issues none —
/// at most one acquisition is ever in flight.
pub proof fn lemma_start_twice_single_acquisition<S, T, R>(pre: Scanner<S, T>)
    requires
        pre.wf(),
        pre.phase is Idle || pre.phase is Closed,
    ensures
        ({
            let (mid, first) = step::<S, T, R>(pre, ScannerMessage::ToggleScanner);
            let (post, second) = step::<S, T, R>(mid, ScannerMessage::ToggleScanner);
            &&& first =~= seq![
                Action::<S, T, R>::RequestStream(spec_acquisition_constraints()),
            ]
            &&& second =~= Seq::<Action<S, T, R>>::empty()
            &&& mid.phase is Acquiring
            &&& post == mid
        }),
{
}

/// Law: closing from any non-idle, non-closed state clears the stream
/// handle, the timer handle and the flashlight flag, emits exactly one
/// closed event and nothing else host-visible, and a second close emits
/// nothing at all.
pub proof fn lemma_close_clears_and_is_idempotent<S, T, R>(pre: Scanner<S, T>)
    requires
        pre.wf(),
        pre.phase is Acquiring || pre.phase is Streaming,
    ensures
        ({
            let (post, acts) = step::<S, T, R>(pre, ScannerMessage::CloseScanner);
            &&& post == pre.spec_closed()
            &&& post.stream is None
            &&& post.interval is None
            &&& !post.is_flashlight_on
            &&& acts.len() >= 1
            &&& acts.last() == Action::<S, T, R>::EmitClosed
            &&& forall|i: int| 0 <= i < acts.len() - 1 ==> !is_emission(#[trigger] acts[i])
            &&& step::<S, T, R>(post, ScannerMessage::CloseScanner) == (
                post,
                Seq::<Action<S, T, R>>::empty(),
            )
        }),
{
    let (post, acts) = step::<S, T, R>(pre, ScannerMessage::<S, R>::CloseScanner);
    let td = pre.spec_teardown::<R>();
    assert(forall|i: int| 0 <= i < td.len() ==> !is_emission(#[trigger] td[i]));
}

/// Law: a decode success while streaming emits the scanned result exactly
/// once, then the closed event exactly once, with nothing else
/// host-visible in between; the session is closed afterwards and a timer
/// tick that was already scheduled is ignored.
pub proof fn lemma_success_scans_once_then_closes<S, T, R>(pre: Scanner<S, T>, res: R)
    requires
        pre.wf(),
        pre.phase is Streaming,
    ensures
        ({
            let (post, acts) = step::<S, T, R>(
                pre,
                ScannerMessage::DecodeCompleted(DecodeOutcome::Found(res)),
            );
            &&& post == pre.spec_closed()
            &&& acts.len() >= 2
            &&& acts[0] == Action::<S, T, R>::EmitScanned(res)
            &&& acts.last() == Action::<S, T, R>::EmitClosed
            &&& forall|i: int| 0 < i < acts.len() - 1 ==> !is_emission(#[trigger] acts[i])
            &&& step::<S, T, R>(post, ScannerMessage::CapturedImage) == (
                post,
                Seq::<Action<S, T, R>>::empty(),
            )
        }),
{
    let td = pre.spec_teardown::<R>();
    assert(forall|i: int| 0 <= i < td.len() ==> !is_emission(#[trigger] td[i]));
}

/// Law: a not-found answer while streaming produces no host-visible event
/// and leaves the session exactly as it was.
pub proof fn lemma_not_found_is_silent<S, T, R>(pre: Scanner<S, T>)
    requires
        pre.wf(),
        pre.phase is Streaming,
    ensures
        step::<S, T, R>(pre, ScannerMessage::DecodeCompleted(DecodeOutcome::NotFound)) == (
            pre,
            Seq::<Action<S, T, R>>::empty(),
        ),
{
}

} // verus!
