//! The presentation loop as a state machine.
//!
//! The thread that presents frames performs device work and sleeps; what it
//! does next is decided here. It starts with [`PresentationLoop::start`],
//! performs the action it is given, and hands the outcome to
//! [`PresentationLoop::step`] as an event, which answers with the next action.
//!
//! `F` is the type of the device's completion future for a submitted frame.

use vstd::prelude::*;

use crate::render::vkinit::{VkSession, VkSessionView};

verus! {

/// How long the loop sleeps before it counts again, after it found that not
/// every sprite has a draw record yet.
pub const READINESS_BACKOFF_MILLIS: u64 = 10;

/// The five phases of a presentation cycle.
#[derive(Debug, Clone, Copy, PartialEq, Eq, Structural)]
pub enum Phase {
    /// Waiting until the draw list holds one record per sprite.
    AwaitingReadiness,
    /// Bringing the rectangles of the draw list up to date.
    Syncing,
    /// Asking the device for the next swapchain image.
    Acquiring,
    /// A frame was handed out for submission; its outcome is owed.
    Submitting,
    /// Rebuilding what depends on the window's size.
    Recreating,
}

/// What the next frame has to wait for from the frames before it.
#[derive(Debug, PartialEq, Eq)]
pub enum FrameEnd<F> {
    /// Nothing: a fresh future that is complete from the start.
    Now,
    /// The completion of the frame that was submitted last.
    Frame(F),
}

/// Where the loop stands, and what its next frame waits for.
#[derive(Debug, PartialEq, Eq)]
pub struct PresentationLoop<F> {
    pub phase: Phase,
    pub previous_frame_end: FrameEnd<F>,
}

/// The outcome of an action.
#[derive(Debug, PartialEq, Eq)]
pub enum Event<F> {
    /// The number of registered sprites and the length of the draw list.
    Counted { sprites: usize, draws: usize },
    /// The draw list was synchronized with the sprites.
    Synced,
    /// The device handed out the swapchain image with this index.
    Acquired { image: usize },
    /// The device could not hand out an image: the surface is out of date
    /// or lost.
    AcquireFailed,
    /// The frame was submitted and its presentation requested.
    Submitted { frame_end: F },
    /// Submission or presentation failed.
    SubmitFailed,
    /// The swapchain and what depends on its extent were rebuilt.
    Recreated,
}

/// What the presentation thread does next.
#[derive(Debug, PartialEq, Eq)]
pub enum Action<F> {
    /// Sleep for `backoff_millis`, then count sprites and draw records.
    Count { backoff_millis: u64 },
    /// Synchronize the draw list with the sprites.
    Sync,
    /// Acquire the next swapchain image.
    Acquire,
    /// Encode one draw call for every draw record into the framebuffer of
    /// `image`, then submit and present after `previous_frame_end`, the
    /// image's readiness and every signal of the wait list.
    Submit { image: usize, previous_frame_end: FrameEnd<F> },
    /// Ask the window for its size and rebuild for it.
    Recreate,
}

/// How a frame ended.
#[derive(Debug, Clone, Copy, PartialEq, Eq, Structural)]
pub enum FrameOutcome {
    Presented,
    Skipped,
}

/// The result of a transition. `finished` is set when the transition ends a
/// frame: the rate counter ticks then.
#[derive(Debug, PartialEq, Eq)]
pub struct Step<F> {
    pub state: PresentationLoop<F>,
    pub action: Action<F>,
    pub finished: Option<FrameOutcome>,
}

/// An event that the loop did not expect in its phase, with the unchanged
/// state.
#[derive(Debug, PartialEq, Eq)]
pub struct Rejected<F> {
    pub state: PresentationLoop<F>,
    pub event: Event<F>,
}

/// The readiness gate: every registered sprite has a draw record.
pub open spec fn ready(sprites: nat, draws: nat) -> bool {
    sprites == draws
}

/// Whether `event` is an outcome of the action that belongs to `phase`.
pub open spec fn expects<F>(phase: Phase, event: Event<F>) -> bool {
    match phase {
        Phase::AwaitingReadiness => event is Counted,
        Phase::Syncing => event is Synced,
        Phase::Acquiring => event is Acquired || event is AcquireFailed,
        Phase::Submitting => event is Submitted || event is SubmitFailed,
        Phase::Recreating => event is Recreated,
    }
}

/// The transition relation, for an event that the phase expects.
pub open spec fn next<F>(
    state: PresentationLoop<F>,
    event: Event<F>,
    session: VkSessionView,
) -> Step<F> {
    match event {
        Event::Counted { sprites, draws } => if ready(sprites as nat, draws as nat) {
            Step {
                state: PresentationLoop { phase: Phase::Syncing, ..state },
                action: Action::Sync,
                finished: None,
            }
        } else {
            Step {
                state,
                action: Action::Count { backoff_millis: READINESS_BACKOFF_MILLIS },
                finished: None,
            }
        },
        Event::Synced => Step {
            state: PresentationLoop { phase: Phase::Acquiring, ..state },
            action: Action::Acquire,
            finished: None,
        },
        Event::Acquired { image } => if image < session.framebuffers.len() {
            Step {
                state: PresentationLoop {
                    phase: Phase::Submitting,
                    previous_frame_end: FrameEnd::Now,
                },
                action: Action::Submit { image, previous_frame_end: state.previous_frame_end },
                finished: None,
            }
        } else {
            Step {
                state: PresentationLoop { phase: Phase::Recreating, ..state },
                action: Action::Recreate,
                finished: None,
            }
        },
        Event::AcquireFailed => Step {
            state: PresentationLoop { phase: Phase::Recreating, ..state },
            action: Action::Recreate,
            finished: None,
        },
        Event::Submitted { frame_end } => Step {
            state: PresentationLoop {
                phase: Phase::AwaitingReadiness,
                previous_frame_end: FrameEnd::Frame(frame_end),
            },
            action: Action::Count { backoff_millis: 0 },
            finished: Some(FrameOutcome::Presented),
        },
        Event::SubmitFailed => Step {
            state: PresentationLoop {
                phase: Phase::Recreating,
                previous_frame_end: FrameEnd::Now,
            },
            action: Action::Recreate,
            finished: Some(FrameOutcome::Skipped),
        },
        Event::Recreated => Step {
            state: PresentationLoop { phase: Phase::AwaitingReadiness, ..state },
            action: Action::Count { backoff_millis: 0 },
            finished: None,
        },
    }
}

/// The loop after a cycle that found `count` sprites and as many records,
/// and the device handed out no image: the four steps of counting,
/// synchronizing, failing to acquire and recreating.
pub open spec fn after_failed_cycle<F>(
    state: PresentationLoop<F>,
    count: usize,
    session: VkSessionView,
) -> PresentationLoop<F> {
    let counted = next(state, Event::Counted { sprites: count, draws: count }, session).state;
    let synced = next(counted, Event::Synced, session).state;
    let failed = next(synced, Event::AcquireFailed, session).state;
    next(failed, Event::Recreated, session).state
}

/// The loop after `failures` such cycles in a row.
pub open spec fn after_failed_cycles<F>(
    state: PresentationLoop<F>,
    count: usize,
    session: VkSessionView,
    failures: nat,
) -> PresentationLoop<F>
    decreases failures,
{
    if failures == 0 {
        state
    } else {
        after_failed_cycle(
            after_failed_cycles(state, count, session, (failures - 1) as nat),
            count,
            session,
        )
    }
}

impl<F> PresentationLoop<F> {
    /// The loop before its first frame: it waits for readiness, and nothing
    /// was submitted yet.
    pub open spec fn initial() -> PresentationLoop<F> {
        PresentationLoop { phase: Phase::AwaitingReadiness, previous_frame_end: FrameEnd::Now }
    }

    /// The loop before its first frame, and its first action: to count.
    pub fn start() -> (step: Step<F>)
        ensures
            step == (Step {
                state: Self::initial(),
                action: Action::Count { backoff_millis: 0 },
                finished: None,
            }),
    {
        Step {
            state: PresentationLoop {
                phase: Phase::AwaitingReadiness,
                previous_frame_end: FrameEnd::Now,
            },
            action: Action::Count { backoff_millis: 0 },
            finished: None,
        }
    }

    /// Takes the outcome of the last action and decides the next one.
    ///
    /// An event that the phase expects is answered by `next`. Any other
    /// event is handed back with the unchanged state.
    pub fn step(self, event: Event<F>, session: &VkSession) -> (result: Result<
        Step<F>,
        Rejected<F>,
    >)
        ensures
            expects(self.phase, event) ==> result == Ok::<Step<F>, Rejected<F>>(
                next(self, event, session@),
            ),
            !expects(self.phase, event) ==> result == Err::<Step<F>, Rejected<F>>(
                Rejected { state: self, event },
            ),
    {
        let PresentationLoop { phase, previous_frame_end } = self;
        match (phase, event) {
            (Phase::AwaitingReadiness, Event::Counted { sprites, draws }) => {
                if sprites == draws {
                    Ok(
                        Step {
                            state: PresentationLoop { phase: Phase::Syncing, previous_frame_end },
                            action: Action::Sync,
                            finished: None,
                        },
                    )
                } else {
                    Ok(
                        Step {
                            state: PresentationLoop {
                                phase: Phase::AwaitingReadiness,
                                previous_frame_end,
                            },
                            action: Action::Count { backoff_millis: READINESS_BACKOFF_MILLIS },
                            finished: None,
                        },
                    )
                }
            },
            (Phase::Syncing, Event::Synced) => Ok(
                Step {
                    state: PresentationLoop { phase: Phase::Acquiring, previous_frame_end },
                    action: Action::Acquire,
                    finished: None,
                },
            ),
            (Phase::Acquiring, Event::Acquired { image }) => {
                if image < session.framebuffers.len() {
                    Ok(
                        Step {
                            state: PresentationLoop {
                                phase: Phase::Submitting,
                                previous_frame_end: FrameEnd::Now,
                            },
                            action: Action::Submit { image, previous_frame_end },
                            finished: None,
                        },
                    )
                } else {
                    Ok(
                        Step {
                            state: PresentationLoop {
                                phase: Phase::Recreating,
                                previous_frame_end,
                            },
                            action: Action::Recreate,
                            finished: None,
                        },
                    )
                }
            },
            (Phase::Acquiring, Event::AcquireFailed) => Ok(
                Step {
                    state: PresentationLoop { phase: Phase::Recreating, previous_frame_end },
                    action: Action::Recreate,
                    finished: None,
                },
            ),
            (Phase::Submitting, Event::Submitted { frame_end }) => Ok(
                Step {
                    state: PresentationLoop {
                        phase: Phase::AwaitingReadiness,
                        previous_frame_end: FrameEnd::Frame(frame_end),
                    },
                    action: Action::Count { backoff_millis: 0 },
                    finished: Some(FrameOutcome::Presented),
                },
            ),
            (Phase::Submitting, Event::SubmitFailed) => Ok(
                Step {
                    state: PresentationLoop {
                        phase: Phase::Recreating,
                        previous_frame_end: FrameEnd::Now,
                    },
                    action: Action::Recreate,
                    finished: Some(FrameOutcome::Skipped),
                },
            ),
            (Phase::Recreating, Event::Recreated) => Ok(
                Step {
                    state: PresentationLoop {
                        phase: Phase::AwaitingReadiness,
                        previous_frame_end,
                    },
                    action: Action::Count { backoff_millis: 0 },
                    finished: None,
                },
            ),
            (phase, event) => Err(
                Rejected { state: PresentationLoop { phase, previous_frame_end }, event },
            ),
        }
    }
}

/// The readiness gate: a loop that awaits readiness goes on to synchronize
/// exactly when the draw list is as long as the list of sprites. Else it
/// stays as it is and counts again after the backoff.
pub proof fn lemma_gate_opens_exactly_when_ready<F>(
    state: PresentationLoop<F>,
    sprites: usize,
    draws: usize,
    session: VkSessionView,
)
    requires
        state.phase == Phase::AwaitingReadiness,
    ensures
        ({
            let counted = Event::<F>::Counted { sprites, draws };
            let step = next(state, counted, session);
            &&& expects(state.phase, counted)
            &&& step.finished is None
            &&& sprites == draws ==> step.state == (PresentationLoop {
                phase: Phase::Syncing,
                ..state
            }) && step.action == Action::<F>::Sync
            &&& sprites != draws ==> step.state == state && step.action == Action::<F>::Count {
                backoff_millis: READINESS_BACKOFF_MILLIS,
            }
        }),
{
}

/// A failed acquisition is recovered from without a frame: a cycle in which
/// the device hands out no image goes through recreation and leaves the
/// loop as it was, in its phase and in what its next frame waits for. No
/// step of it ends a frame or hands a frame out.
pub proof fn lemma_failed_acquisition_restarts_the_cycle<F>(
    state: PresentationLoop<F>,
    count: usize,
    session: VkSessionView,
)
    requires
        state.phase == Phase::AwaitingReadiness,
    ensures
        after_failed_cycle(state, count, session) == state,
        ({
            let counted = next(state, Event::Counted { sprites: count, draws: count }, session);
            let synced = next(counted.state, Event::Synced, session);
            let failed = next(synced.state, Event::AcquireFailed, session);
            let recreated = next(failed.state, Event::Recreated, session);
            &&& synced.state.phase == Phase::Acquiring
            &&& expects(synced.state.phase, Event::<F>::AcquireFailed)
            &&& failed.state.phase == Phase::Recreating
            &&& failed.action == Action::<F>::Recreate
            &&& failed.finished is None
            &&& expects(failed.state.phase, Event::<F>::Recreated)
            &&& recreated.action == Action::<F>::Count { backoff_millis: 0 }
            &&& recreated.finished is None
        }),
{
}

/// Once the draw list holds one record per sprite, the loop reaches
/// submission in the first cycle in which the device hands out an image,
/// however many cycles failed before: that cycle hands out a frame for the
/// acquired image, which waits for what the last frame left.
pub proof fn lemma_ready_loop_reaches_submitting<F>(
    state: PresentationLoop<F>,
    count: usize,
    session: VkSessionView,
    failures: nat,
    image: usize,
)
    requires
        state.phase == Phase::AwaitingReadiness,
        image < session.framebuffers.len(),
    ensures
        after_failed_cycles(state, count, session, failures) == state,
        ({
            let start = after_failed_cycles(state, count, session, failures);
            let counted = next(start, Event::Counted { sprites: count, draws: count }, session);
            let synced = next(counted.state, Event::Synced, session);
            let acquired = next(synced.state, Event::Acquired { image }, session);
            &&& expects(start.phase, Event::<F>::Counted { sprites: count, draws: count })
            &&& counted.action == Action::<F>::Sync
            &&& expects(counted.state.phase, Event::<F>::Synced)
            &&& synced.action == Action::<F>::Acquire
            &&& expects(synced.state.phase, Event::<F>::Acquired { image })
            &&& acquired.state.phase == Phase::Submitting
            &&& acquired.action == Action::Submit {
                image,
                previous_frame_end: state.previous_frame_end,
            }
        }),
    decreases failures,
{
    if failures > 0 {
        lemma_ready_loop_reaches_submitting(state, count, session, (failures - 1) as nat, image);
        lemma_failed_acquisition_restarts_the_cycle(state, count, session);
    }
}

/// A frame that was handed out ends in one of two ways. When it was
/// submitted, its completion is what the next frame waits for and the loop
/// awaits readiness again. When submission failed, the next frame waits for
/// nothing, the frame counts as skipped, and the loop recreates.
pub proof fn lemma_submission_ends_the_frame<F>(
    state: PresentationLoop<F>,
    frame_end: F,
    session: VkSessionView,
)
    requires
        state.phase == Phase::Submitting,
    ensures
        ({
            let submitted = next(state, Event::Submitted { frame_end }, session);
            let failed = next(state, Event::<F>::SubmitFailed, session);
            &&& expects(state.phase, Event::Submitted { frame_end })
            &&& expects(state.phase, Event::<F>::SubmitFailed)
            &&& submitted.state == (PresentationLoop {
                phase: Phase::AwaitingReadiness,
                previous_frame_end: FrameEnd::Frame(frame_end),
            })
            &&& submitted.finished == Some(FrameOutcome::Presented)
            &&& failed.state == (PresentationLoop::<F> {
                phase: Phase::Recreating,
                previous_frame_end: FrameEnd::Now,
            })
            &&& failed.action == Action::<F>::Recreate
            &&& failed.finished == Some(FrameOutcome::Skipped)
        }),
{
}

/// The loop has no terminal state: in every phase some event is expected.
pub proof fn lemma_loop_never_ends<F>(state: PresentationLoop<F>)
    ensures
        exists|event: Event<F>| expects(state.phase, event),
{
    match state.phase {
        Phase::AwaitingReadiness => {
            assert(expects(state.phase, Event::<F>::Counted { sprites: 0, draws: 0 }));
        },
        Phase::Syncing => {
            assert(expects(state.phase, Event::<F>::Synced));
        },
        Phase::Acquiring => {
            assert(expects(state.phase, Event::<F>::AcquireFailed));
        },
        Phase::Submitting => {
            assert(expects(state.phase, Event::<F>::SubmitFailed));
        },
        Phase::Recreating => {
            assert(expects(state.phase, Event::<F>::Recreated));
        },
    }
}

} // verus!
