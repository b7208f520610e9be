//! Setting a stream up and taking it down: the device configurations, the
//! size of the sample pipe, and the lifecycle that leads to streaming.

use crate::pipe::pipe_fits;
use vstd::prelude::*;

verus! {

/// The nominal delay between capture and render, in milliseconds.
pub const DEFAULT_LATENCY_MS: u32 = 100;

/// What a device runs at.
#[derive(Clone, Copy, Debug, PartialEq, Eq, Structural)]
pub struct DeviceConfig {
    /// Frames per second.
    pub sample_rate: u32,
    /// Interleaved channels per frame.
    pub channels: u16,
}

/// Why a stream cannot be set up.
#[derive(Clone, Copy, Debug, PartialEq, Eq, Structural)]
pub enum StreamError {
    /// Input and output differ in channel count.
    ChannelMismatch,
    /// Input and output differ in sample rate.
    SampleRateMismatch,
    /// The latency asked for comes to no sample at all.
    EmptyPipe,
    /// The latency asked for needs a pipe that cannot be allocated.
    PipeTooLarge,
    /// A device was not found, or a stream could not be built or started.
    SetupFailed,
}

/// A validated set-up: the configuration both devices share and the delay
/// of the sample pipe between them.
#[derive(Clone, Copy, Debug, PartialEq, Eq, Structural)]
pub struct StreamPlan {
    /// The configuration of both devices.
    pub config: DeviceConfig,
    /// Samples of silence the pipe starts with; its capacity is twice that.
    pub latency_samples: usize,
}

/// The samples, over all channels, that `latency_ms` milliseconds amount
/// to: whole frames first, then one sample per channel for each.
pub open spec fn latency_samples(latency_ms: u32, config: DeviceConfig) -> nat {
    ((latency_ms as nat * config.sample_rate as nat) / 1000) * config.channels as nat
}

/// The plan for two devices and a latency, or the reason there is none.
/// The channel counts are compared before the sample rates.
pub open spec fn plan_spec(input: DeviceConfig, output: DeviceConfig, latency_ms: u32) -> Result<
    StreamPlan,
    StreamError,
> {
    let samples = latency_samples(latency_ms, input);
    if input.channels != output.channels {
        Err(StreamError::ChannelMismatch)
    } else if input.sample_rate != output.sample_rate {
        Err(StreamError::SampleRateMismatch)
    } else if samples == 0 {
        Err(StreamError::EmptyPipe)
    } else if !pipe_fits(samples) {
        Err(StreamError::PipeTooLarge)
    } else {
        Ok(StreamPlan { config: input, latency_samples: samples as usize })
    }
}

/// Validates the two device configurations against each other and sizes
/// the sample pipe for `latency_ms` milliseconds.
pub fn plan_stream(input: DeviceConfig, output: DeviceConfig, latency_ms: u32) -> (planned: Result<
    StreamPlan,
    StreamError,
>)
    ensures
        planned == plan_spec(input, output, latency_ms),
        planned matches Ok(plan) ==> plan.config == input && plan.config == output && pipe_fits(
            plan.latency_samples as nat,
        ),
{
    if input.channels != output.channels {
        return Err(StreamError::ChannelMismatch);
    }
    if input.sample_rate != output.sample_rate {
        return Err(StreamError::SampleRateMismatch);
    }
    assert(latency_ms as nat * input.sample_rate as nat <= u32::MAX * u32::MAX)
        by (nonlinear_arith)
        requires
            latency_ms <= u32::MAX,
            input.sample_rate <= u32::MAX,
    ;
    let frames: u64 = (latency_ms as u64 * input.sample_rate as u64) / 1000;
    assert(frames as nat * input.channels as nat <= u64::MAX * u16::MAX) by (nonlinear_arith)
        requires
            frames <= u64::MAX,
            input.channels <= u16::MAX,
    ;
    let samples: u128 = frames as u128 * input.channels as u128;
    if samples == 0 {
        return Err(StreamError::EmptyPipe);
    }
    if samples > (isize::MAX as u128) / 8 {
        return Err(StreamError::PipeTooLarge);
    }
    Ok(StreamPlan { config: input, latency_samples: samples as usize })
}

/// Where a stream is in its life.
#[derive(Clone, Copy, Debug, PartialEq, Eq, Structural)]
pub enum StreamState {
    /// Nothing was asked for yet.
    Idle,
    /// Being set up. `planned` holds the plan once the devices were validated; the
    /// two flags say which callbacks are registered and playing.
    Configuring { planned: Option<StreamPlan>, capture_playing: bool, render_playing: bool },
    /// Both callbacks run.
    Streaming { plan: StreamPlan },
    /// Stopped on request or because a device went away. Final.
    Stopped,
    /// Set-up failed. Final.
    Failed { error: StreamError },
}

/// What happens to a stream.
#[derive(Clone, Copy, Debug, PartialEq, Eq, Structural)]
pub enum StreamEvent {
    /// A stream was asked for.
    Start,
    /// Both devices were found and report these configurations.
    Devices { input: DeviceConfig, output: DeviceConfig, latency_ms: u32 },
    /// A device was not found, or a stream could not be built or started.
    SetupFailed,
    /// The capture callback is registered and playing.
    CapturePlaying,
    /// The render callback is registered and playing.
    RenderPlaying,
    /// The stream was asked to stop.
    Stop,
    /// A device went away while streaming.
    DeviceLost,
}

/// What the caller has to do after an event.
#[derive(Clone, Copy, Debug, PartialEq, Eq, Structural)]
pub enum StreamAction {
    /// Nothing.
    Nothing,
    /// Look the devices up and report their configurations.
    ProbeDevices,
    /// Create the gain stage and the pipe, then build and start both streams.
    BuildStreams { plan: StreamPlan },
    /// Drop both streams; what is left in the pipe is discarded.
    Teardown,
    /// Hand the error to the caller; nothing was started.
    Report { error: StreamError },
}

impl StreamState {
    /// Final states take no further part in anything.
    pub open spec fn is_final(self) -> bool {
        self is Stopped || self is Failed
    }

    /// The state fresh from `Start`, before the devices are known.
    pub open spec fn probing() -> StreamState {
        StreamState::Configuring { planned: None, capture_playing: false, render_playing: false }
    }

    /// The lifecycle: the state and the action that follow `event`. An
    /// event that has no meaning in a state leaves it as it is.
    pub open spec fn step_spec(self, event: StreamEvent) -> (StreamState, StreamAction) {
        match (self, event) {
            (StreamState::Idle, StreamEvent::Start) => (
                StreamState::probing(),
                StreamAction::ProbeDevices,
            ),
            (StreamState::Idle, StreamEvent::Stop) => (StreamState::Stopped, StreamAction::Nothing),
            (
                StreamState::Configuring { planned: None, .. },
                StreamEvent::Devices { input, output, latency_ms },
            ) => match plan_spec(input, output, latency_ms) {
                Ok(plan) => (
                    StreamState::Configuring {
                        planned: Some(plan),
                        capture_playing: false,
                        render_playing: false,
                    },
                    StreamAction::BuildStreams { plan },
                ),
                Err(error) => (StreamState::Failed { error }, StreamAction::Report { error }),
            },
            (StreamState::Configuring { .. }, StreamEvent::SetupFailed) => (
                StreamState::Failed { error: StreamError::SetupFailed },
                StreamAction::Report { error: StreamError::SetupFailed },
            ),
            (
                StreamState::Configuring { planned: Some(plan), capture_playing, render_playing },
                StreamEvent::CapturePlaying,
            ) => if render_playing {
                (StreamState::Streaming { plan }, StreamAction::Nothing)
            } else {
                (
                    StreamState::Configuring {
                        planned: Some(plan),
                        capture_playing: true,
                        render_playing,
                    },
                    StreamAction::Nothing,
                )
            },
            (
                StreamState::Configuring { planned: Some(plan), capture_playing, render_playing },
                StreamEvent::RenderPlaying,
            ) => if capture_playing {
                (StreamState::Streaming { plan }, StreamAction::Nothing)
            } else {
                (
                    StreamState::Configuring {
                        planned: Some(plan),
                        capture_playing,
                        render_playing: true,
                    },
                    StreamAction::Nothing,
                )
            },
            (StreamState::Configuring { .. }, StreamEvent::Stop) => (
                StreamState::Stopped,
                StreamAction::Teardown,
            ),
            (StreamState::Streaming { .. }, StreamEvent::Stop) => (
                StreamState::Stopped,
                StreamAction::Teardown,
            ),
            (StreamState::Streaming { .. }, StreamEvent::DeviceLost) => (
                StreamState::Stopped,
                StreamAction::Teardown,
            ),
            _ => (self, StreamAction::Nothing),
        }
    }

    /// The state after a whole sequence of events.
    pub open spec fn run(self, events: Seq<StreamEvent>) -> StreamState
        decreases events.len(),
    {
        if events.len() == 0 {
            self
        } else {
            self.run(events.drop_last()).step_spec(events.last()).0
        }
    }

    /// A stream that nothing has happened to.
    pub fn new() -> (state: StreamState)
        ensures
            state == StreamState::Idle,
    {
        StreamState::Idle
    }

    /// Takes one event: returns the state that follows and what the caller
    /// has to do.
    pub fn step(self, event: StreamEvent) -> (next: (StreamState, StreamAction))
        ensures
            next == self.step_spec(event),
    {
        match self {
            StreamState::Idle => match event {
                StreamEvent::Start => (
                    StreamState::Configuring {
                        planned: None,
                        capture_playing: false,
                        render_playing: false,
                    },
                    StreamAction::ProbeDevices,
                ),
                StreamEvent::Stop => (StreamState::Stopped, StreamAction::Nothing),
                _ => (self, StreamAction::Nothing),
            },
            StreamState::Configuring { planned, capture_playing, render_playing } => match event {
                StreamEvent::Devices { input, output, latency_ms } => match planned {
                    None => match plan_stream(input, output, latency_ms) {
                        Ok(plan) => (
                            StreamState::Configuring {
                                planned: Some(plan),
                                capture_playing: false,
                                render_playing: false,
                            },
                            StreamAction::BuildStreams { plan },
                        ),
                        Err(error) => (
                            StreamState::Failed { error },
                            StreamAction::Report { error },
                        ),
                    },
                    Some(_) => (self, StreamAction::Nothing),
                },
                StreamEvent::SetupFailed => (
                    StreamState::Failed { error: StreamError::SetupFailed },
                    StreamAction::Report { error: StreamError::SetupFailed },
                ),
                StreamEvent::CapturePlaying => match planned {
                    Some(plan) => if render_playing {
                        (StreamState::Streaming { plan }, StreamAction::Nothing)
                    } else {
                        (
                            StreamState::Configuring {
                                planned: Some(plan),
                                capture_playing: true,
                                render_playing,
                            },
                            StreamAction::Nothing,
                        )
                    },
                    None => (self, StreamAction::Nothing),
                },
                StreamEvent::RenderPlaying => match planned {
                    Some(plan) => if capture_playing {
                        (StreamState::Streaming { plan }, StreamAction::Nothing)
                    } else {
                        (
                            StreamState::Configuring {
                                planned: Some(plan),
                                capture_playing,
                                render_playing: true,
                            },
                            StreamAction::Nothing,
                        )
                    },
                    None => (self, StreamAction::Nothing),
                },
                StreamEvent::Stop => (StreamState::Stopped, StreamAction::Teardown),
                _ => (self, StreamAction::Nothing),
            },
            StreamState::Streaming { .. } => match event {
                StreamEvent::Stop => (StreamState::Stopped, StreamAction::Teardown),
                StreamEvent::DeviceLost => (StreamState::Stopped, StreamAction::Teardown),
                _ => (self, StreamAction::Nothing),
            },
            StreamState::Stopped => (self, StreamAction::Nothing),
            StreamState::Failed { .. } => (self, StreamAction::Nothing),
        }
    }
}

/// A plan is only ever made for two devices of one configuration, which it
/// then carries, and for a latency that the pipe can hold.
pub proof fn lemma_plan_is_sound(input: DeviceConfig, output: DeviceConfig, latency_ms: u32)
    ensures
        plan_spec(input, output, latency_ms) matches Ok(plan) ==> {
            &&& input == output
            &&& plan.config == input
            &&& plan.latency_samples == latency_samples(latency_ms, input)
            &&& pipe_fits(plan.latency_samples as nat)
        },
{
}

/// `events[i]` reports two devices for which `plan` is the plan.
pub open spec fn planned_at(events: Seq<StreamEvent>, i: int, plan: StreamPlan) -> bool {
    &&& 0 <= i < events.len()
    &&& events[i] matches StreamEvent::Devices { input, output, latency_ms }
    &&& plan_spec(input, output, latency_ms) == Ok::<StreamPlan, StreamError>(plan)
}

/// `event` occurs in `events` somewhere after position `i`.
pub open spec fn occurs_after(events: Seq<StreamEvent>, i: int, event: StreamEvent) -> bool {
    exists|j: int| i < j < events.len() && events[j] == event
}

/// `events` holds a report of devices that `plan` is the plan for, followed,
/// as far as `capture` and `render` ask, by the news that the capture and
/// the render callback are playing.
pub open spec fn earned(
    events: Seq<StreamEvent>,
    plan: StreamPlan,
    capture: bool,
    render: bool,
) -> bool {
    exists|i: int|
        {
            &&& #[trigger] planned_at(events, i, plan)
            &&& capture ==> occurs_after(events, i, StreamEvent::CapturePlaying)
            &&& render ==> occurs_after(events, i, StreamEvent::RenderPlaying)
        }
}

/// Once a stream is stopped or has failed, no event moves it: there is no
/// way back, and no reconnection.
pub proof fn lemma_final_states_absorb(state: StreamState, events: Seq<StreamEvent>)
    requires
        state.is_final(),
    ensures
        state.run(events) == state,
    decreases events.len(),
{
    if events.len() > 0 {
        lemma_final_states_absorb(state, events.drop_last());
    }
}

/// Devices that do not fit each other, or a latency that no pipe can hold,
/// end the set-up for good: whatever follows, the stream has failed with
/// that error and never streams.
pub proof fn lemma_rejected_devices_never_stream(
    input: DeviceConfig,
    output: DeviceConfig,
    latency_ms: u32,
    later: Seq<StreamEvent>,
)
    requires
        plan_spec(input, output, latency_ms) is Err,
    ensures
        StreamState::probing().step_spec(StreamEvent::Devices { input, output, latency_ms }).0.run(
            later,
        ) == (StreamState::Failed { error: plan_spec(input, output, latency_ms)->Err_0 }),
{
    let failed = StreamState::Failed { error: plan_spec(input, output, latency_ms)->Err_0 };
    lemma_final_states_absorb(failed, later);
}

/// Streaming has to be earned. A stream that started idle and now streams
/// has seen a report of two devices that agree in channel count and sample
/// rate, runs on the plan made for them, and has since been told that the
/// capture callback is playing and that the render callback is playing.
/// While it is still being set up, the same holds of its plan and of each
/// callback that it counts as playing.
pub proof fn lemma_streaming_is_earned(events: Seq<StreamEvent>)
    ensures
        StreamState::Idle.run(events) matches StreamState::Streaming { plan } ==> earned(
            events,
            plan,
            true,
            true,
        ),
        StreamState::Idle.run(events) matches StreamState::Configuring {
            planned: Some(plan),
            capture_playing,
            render_playing,
        } ==> earned(events, plan, capture_playing, render_playing),
    decreases events.len(),
{
    if events.len() > 0 {
        let earlier = events.drop_last();
        let event = events.last();
        let last = events.len() - 1;
        lemma_streaming_is_earned(earlier);
        let before = StreamState::Idle.run(earlier);
        let after = before.step_spec(event).0;
        assert(events =~= earlier.push(event));
        match before {
            StreamState::Configuring { planned: None, .. } => {
                match after {
                    StreamState::Configuring { planned: Some(plan), .. } => {
                        assert(planned_at(events, last, plan));
                    },
                    _ => {},
                }
            },
            StreamState::Configuring { planned: Some(plan), capture_playing, render_playing } => {
                let i = choose|i: int|
                    {
                        &&& #[trigger] planned_at(earlier, i, plan)
                        &&& capture_playing ==> occurs_after(
                            earlier,
                            i,
                            StreamEvent::CapturePlaying,
                        )
                        &&& render_playing ==> occurs_after(earlier, i, StreamEvent::RenderPlaying)
                    };
                lemma_earned_extends(earlier, event, i, plan);
            },
            StreamState::Streaming { plan } => {
                let i = choose|i: int|
                    {
                        &&& #[trigger] planned_at(earlier, i, plan)
                        &&& occurs_after(earlier, i, StreamEvent::CapturePlaying)
                        &&& occurs_after(earlier, i, StreamEvent::RenderPlaying)
                    };
                lemma_earned_extends(earlier, event, i, plan);
            },
            _ => {},
        }
    }
}

/// What was planned and what occurred stays so when one more event follows.
proof fn lemma_earned_extends(
    earlier: Seq<StreamEvent>,
    event: StreamEvent,
    i: int,
    plan: StreamPlan,
)
    requires
        planned_at(earlier, i, plan),
    ensures
        planned_at(earlier.push(event), i, plan),
        occurs_after(earlier, i, StreamEvent::CapturePlaying) ==> occurs_after(
            earlier.push(event),
            i,
            StreamEvent::CapturePlaying,
        ),
        occurs_after(earlier, i, StreamEvent::RenderPlaying) ==> occurs_after(
            earlier.push(event),
            i,
            StreamEvent::RenderPlaying,
        ),
{
    let events = earlier.push(event);
    if occurs_after(earlier, i, StreamEvent::CapturePlaying) {
        let j = choose|j: int| i < j < earlier.len() && earlier[j] == StreamEvent::CapturePlaying;
        assert(events[j] == StreamEvent::CapturePlaying);
    }
    if occurs_after(earlier, i, StreamEvent::RenderPlaying) {
        let j = choose|j: int| i < j < earlier.len() && earlier[j] == StreamEvent::RenderPlaying;
        assert(events[j] == StreamEvent::RenderPlaying);
    }
}

} // verus!
