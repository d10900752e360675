use vstd::prelude::*;
use crate::sensor::{celsius_text, two_decimal_text, ReadError, Sample};

verus! {

/// Why a publish did not go through.
#[derive(Clone, Copy, Debug, PartialEq, Eq, Structural)]
pub enum PublishError {
    TransportFailure,
}

/// The step of a sampling cycle in progress.
#[derive(Clone, Copy, Debug, PartialEq, Eq, Structural)]
pub enum Stage {
    /// Waiting for the sensor reading.
    Reading,
    /// Waiting for the publish to finish.
    Publishing,
}

#[derive(Clone, Copy, Debug, PartialEq, Eq, Structural)]
pub enum Phase {
    WaitingForTick,
    ProcessingSample(Stage),
}

/// What happened outside since the last step.
#[derive(Clone, Copy, Debug)]
pub enum Event {
    /// The sampling period elapsed.
    Tick,
    /// The sensor was read.
    ReadDone(Result<Sample, ReadError>),
    /// A publish finished.
    PublishDone(Result<(), PublishError>),
}

/// What the runner is asked to do next.
#[derive(Clone, Debug)]
pub enum Action {
    ReadSensor,
    /// Log `display` and send `payload` on `topic`.
    Publish { topic: String, payload: String, display: String },
    ReportReadError(ReadError),
    ReportPublishError(PublishError),
    /// Nothing to do until the next event.
    Wait,
}

pub open spec fn next_phase(p: Phase, e: Event) -> Phase {
    match p {
        Phase::WaitingForTick => match e {
            Event::Tick => Phase::ProcessingSample(Stage::Reading),
            _ => p,
        },
        Phase::ProcessingSample(Stage::Reading) => match e {
            Event::ReadDone(Ok(_)) => Phase::ProcessingSample(Stage::Publishing),
            Event::ReadDone(Err(_)) => Phase::WaitingForTick,
            _ => p,
        },
        Phase::ProcessingSample(Stage::Publishing) => match e {
            Event::PublishDone(_) => Phase::WaitingForTick,
            _ => p,
        },
    }
}

/// Whether `a` is what the loop does on event `e` in phase `p` with topic `topic`.
pub open spec fn is_step_action(a: Action, p: Phase, e: Event, topic: Seq<char>) -> bool {
    match p {
        Phase::WaitingForTick => match e {
            Event::Tick => a is ReadSensor,
            _ => a is Wait,
        },
        Phase::ProcessingSample(Stage::Reading) => match e {
            Event::ReadDone(Ok(s)) => match a {
                Action::Publish { topic: t, payload, display } => {
                    &&& t@ == topic
                    &&& payload@ == celsius_text(s.millidegrees as int)
                    &&& display@ == two_decimal_text(s.millidegrees as int)
                },
                _ => false,
            },
            Event::ReadDone(Err(err)) => match a {
                Action::ReportReadError(x) => x == err,
                _ => false,
            },
            _ => a is Wait,
        },
        Phase::ProcessingSample(Stage::Publishing) => match e {
            Event::PublishDone(Ok(())) => a is Wait,
            Event::PublishDone(Err(err)) => match a {
                Action::ReportPublishError(x) => x == err,
                _ => false,
            },
            _ => a is Wait,
        },
    }
}

/// The sense, format and publish cycle, one event at a time.
pub struct SamplingLoop {
    pub phase: Phase,
    pub topic: String,
}

impl SamplingLoop {
    pub fn new(topic: String) -> (r: SamplingLoop)
        ensures
            r.phase == Phase::WaitingForTick,
            r.topic@ == topic@,
    {
        SamplingLoop { phase: Phase::WaitingForTick, topic }
    }

    /// Takes one event and says what to do; the topic never changes.
    pub fn step(&mut self, e: Event) -> (r: Action)
        ensures
            final(self).phase == next_phase(old(self).phase, e),
            final(self).topic@ == old(self).topic@,
            is_step_action(r, old(self).phase, e, old(self).topic@),
    {
        match self.phase {
            Phase::WaitingForTick => match e {
                Event::Tick => {
                    self.phase = Phase::ProcessingSample(Stage::Reading);
                    Action::ReadSensor
                },
                _ => Action::Wait,
            },
            Phase::ProcessingSample(Stage::Reading) => match e {
                Event::ReadDone(Ok(s)) => {
                    self.phase = Phase::ProcessingSample(Stage::Publishing);
                    Action::Publish {
                        topic: self.topic.clone(),
                        payload: s.payload_text(),
                        display: s.display_text(),
                    }
                },
                Event::ReadDone(Err(err)) => {
                    self.phase = Phase::WaitingForTick;
                    Action::ReportReadError(err)
                },
                _ => Action::Wait,
            },
            Phase::ProcessingSample(Stage::Publishing) => match e {
                Event::PublishDone(Ok(())) => {
                    self.phase = Phase::WaitingForTick;
                    Action::Wait
                },
                Event::PublishDone(Err(err)) => {
                    self.phase = Phase::WaitingForTick;
                    Action::ReportPublishError(err)
                },
                _ => Action::Wait,
            },
        }
    }
}

/// A failed sensor read is reported, nothing is published, and the loop is back
/// waiting for the next tick, which starts a new cycle.
pub proof fn lemma_read_failure_skips_cycle(err: ReadError, a: Action, topic: Seq<char>)
    requires
        is_step_action(
            a,
            Phase::ProcessingSample(Stage::Reading),
            Event::ReadDone(Err(err)),
            topic,
        ),
    ensures
        a == Action::ReportReadError(err),
        next_phase(Phase::ProcessingSample(Stage::Reading), Event::ReadDone(Err(err)))
            == Phase::WaitingForTick,
        next_phase(Phase::WaitingForTick, Event::Tick) == Phase::ProcessingSample(Stage::Reading),
{
}

/// After a failed publish is reported, the next tick and a good reading publish
/// again on the same topic.
pub proof fn lemma_publish_failure_recovers(
    err: PublishError,
    s: Sample,
    a: Action,
    topic: Seq<char>,
)
    requires
        is_step_action(
            a,
            next_phase(
                next_phase(
                    Phase::ProcessingSample(Stage::Publishing),
                    Event::PublishDone(Err(err)),
                ),
                Event::Tick,
            ),
            Event::ReadDone(Ok(s)),
            topic,
        ),
    ensures
        next_phase(Phase::ProcessingSample(Stage::Publishing), Event::PublishDone(Err(err)))
            == Phase::WaitingForTick,
        match a {
            Action::Publish { topic: t, payload, .. } => t@ == topic && payload@ == celsius_text(
                s.millidegrees as int,
            ),
            _ => false,
        },
{
}

} // verus!
