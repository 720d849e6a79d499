//! The latest-wins hand-off of frames from the capture thread to the consumer,
//! carried by a bounded flume channel.
//!
//! The producer keeps a second receiving end of its own, through which it
//! evicts the oldest queued frame when the channel is full, so that a send
//! never blocks and the newest frame is always kept. Because of that end the
//! channel never reports disconnection by itself: the producer instead treats
//! "no receiver but its own" as the consumer having gone away.
use vstd::prelude::*;
use crate::frame::Frame;

verus! {

/// Number of frames that the channel holds at most.
pub const FRAME_CHANNEL_CAPACITY: usize = 2;

/// Receive attempts that one drain makes at most. A drain ends earlier as
/// soon as the channel is empty; the bound keeps a producer that outpaces
/// the consumer from holding the consumer's tick forever.
pub const DRAIN_LIMIT: usize = 16;

/// Send attempts that one publish makes at most before giving the frame up.
pub const PUBLISH_ATTEMPTS: usize = 3;

#[verifier::external_type_specification]
#[verifier::external_body]
#[verifier::reject_recursive_types(T)]
pub struct ExSender<T>(flume::Sender<T>);

#[verifier::external_type_specification]
#[verifier::external_body]
#[verifier::reject_recursive_types(T)]
pub struct ExReceiver<T>(flume::Receiver<T>);

/// What one non-blocking send attempt gave.
pub enum SendAttempt {
    Sent,
    /// The channel was full; the frame comes back.
    Full(Frame),
    /// Every receiving end is gone; the frame comes back.
    Disconnected(Frame),
}

/// What one non-blocking receive attempt gave.
pub enum RecvAttempt {
    Received(Frame),
    Empty,
    Disconnected,
}

/// How a publish ended.
#[derive(Clone, Copy, Debug, PartialEq, Eq, Structural)]
pub enum PublishOutcome {
    /// The frame is queued for the consumer.
    Delivered,
    /// The channel stayed full and the frame was given up.
    Dropped,
    /// The consumer's end is gone: the producer should stop.
    Disconnected,
}

/// Relies on flume::bounded: a channel that holds at most `cap` messages.
#[verifier::external_body]
fn bounded_frames(cap: usize) -> (flume::Sender<Frame>, flume::Receiver<Frame>) {
    flume::bounded(cap)
}

/// Relies on flume::Receiver::clone: another receiving end of the same channel.
#[verifier::external_body]
fn clone_receiver(rx: &flume::Receiver<Frame>) -> flume::Receiver<Frame> {
    rx.clone()
}

/// Relies on flume::Sender::try_send: never blocks, and hands the message
/// back when the channel is full or has no receiver.
#[verifier::external_body]
fn try_send_frame(tx: &flume::Sender<Frame>, frame: Frame) -> (r: SendAttempt)
    ensures
        r matches SendAttempt::Full(f) ==> f == frame,
        r matches SendAttempt::Disconnected(f) ==> f == frame,
{
    match tx.try_send(frame) {
        Ok(()) => SendAttempt::Sent,
        Err(flume::TrySendError::Full(f)) => SendAttempt::Full(f),
        Err(flume::TrySendError::Disconnected(f)) => SendAttempt::Disconnected(f),
    }
}

/// Relies on flume::Receiver::try_recv: never blocks.
#[verifier::external_body]
fn try_recv_frame(rx: &flume::Receiver<Frame>) -> RecvAttempt {
    match rx.try_recv() {
        Ok(f) => RecvAttempt::Received(f),
        Err(flume::TryRecvError::Empty) => RecvAttempt::Empty,
        Err(flume::TryRecvError::Disconnected) => RecvAttempt::Disconnected,
    }
}

/// Relies on flume::Sender::receiver_count: the receiving ends that exist now.
#[verifier::external_body]
fn receiver_count(tx: &flume::Sender<Frame>) -> usize {
    tx.receiver_count()
}

/// The frame that a drain keeps after one more receive attempt.
pub open spec fn kept_after(current: Option<Frame>, attempt: RecvAttempt) -> Option<Frame> {
    match attempt {
        RecvAttempt::Received(f) => Some(f),
        _ => current,
    }
}

/// The frame that a drain keeps after the frames `got` arrived in order,
/// starting from `current`.
pub open spec fn drained(current: Option<Frame>, got: Seq<Frame>) -> Option<Frame>
    decreases got.len(),
{
    if got.len() == 0 {
        current
    } else {
        drained(Some(got[0]), got.drop_first())
    }
}

/// Latest wins: once a frame has arrived, a drain keeps the last frame that
/// arrived and none before it; with nothing arrived it keeps what it had.
pub proof fn lemma_drain_keeps_last(current: Option<Frame>, got: Seq<Frame>)
    ensures
        got.len() == 0 ==> drained(current, got) == current,
        got.len() > 0 ==> drained(current, got) == Some(got.last()),
    decreases got.len(),
{
    if got.len() > 1 {
        lemma_drain_keeps_last(Some(got[0]), got.drop_first());
        assert(got.drop_first().last() == got.last());
    } else if got.len() == 1 {
        assert(got.drop_first().len() == 0);
        assert(drained(Some(got[0]), got.drop_first()) == Some(got[0]));
    }
}

/// The outcome that a send attempt gives when it is the last one.
pub open spec fn attempt_outcome(a: SendAttempt) -> PublishOutcome {
    match a {
        SendAttempt::Sent => PublishOutcome::Delivered,
        SendAttempt::Full(_) => PublishOutcome::Dropped,
        SendAttempt::Disconnected(_) => PublishOutcome::Disconnected,
    }
}

/// Whether a send attempt that handed a frame back handed back `frame`.
pub open spec fn sent_with(a: SendAttempt, frame: Frame) -> bool {
    match a {
        SendAttempt::Sent => true,
        SendAttempt::Full(f) => f == frame,
        SendAttempt::Disconnected(f) => f == frame,
    }
}

/// One step of a drain: the frame kept so far and whether to try again.
pub fn drain_step(current: Option<Frame>, attempt: RecvAttempt) -> (r: (Option<Frame>, bool))
    ensures
        r.0 == kept_after(current, attempt),
        r.1 == (attempt is Received),
{
    match attempt {
        RecvAttempt::Received(f) => (Some(f), true),
        _ => (current, false),
    }
}

/// What a publish does after one send attempt: `Ok` ends it with an outcome,
/// `Err` hands back the frame to send again after evicting the oldest one.
pub fn publish_step(attempt: SendAttempt, attempts_left: usize) -> (r: Result<PublishOutcome, Frame>)
    ensures
        attempt is Sent ==> r == Ok::<PublishOutcome, Frame>(PublishOutcome::Delivered),
        attempt is Disconnected ==> r == Ok::<PublishOutcome, Frame>(PublishOutcome::Disconnected),
        attempt matches SendAttempt::Full(f) ==> (if attempts_left > 0 {
            r == Err::<PublishOutcome, Frame>(f)
        } else {
            r == Ok::<PublishOutcome, Frame>(PublishOutcome::Dropped)
        }),
{
    match attempt {
        SendAttempt::Sent => Ok(PublishOutcome::Delivered),
        SendAttempt::Disconnected(_) => Ok(PublishOutcome::Disconnected),
        SendAttempt::Full(f) => {
            if attempts_left > 0 {
                Err(f)
            } else {
                Ok(PublishOutcome::Dropped)
            }
        },
    }
}

/// Whether the consumer is gone, given the number of receiving ends, one of
/// which is the producer's own.
pub fn consumer_gone(receivers: usize) -> (r: bool)
    ensures
        r == (receivers <= 1),
{
    receivers <= 1
}

/// The producing end, owned by the capture thread.
pub struct FrameSender {
    tx: flume::Sender<Frame>,
    evictor: flume::Receiver<Frame>,
}

/// The consuming end, owned by the render thread.
pub struct FrameReceiver {
    rx: flume::Receiver<Frame>,
}

/// A new frame channel of capacity `FRAME_CHANNEL_CAPACITY`.
pub fn frame_channel() -> (FrameSender, FrameReceiver) {
    let (tx, rx) = bounded_frames(FRAME_CHANNEL_CAPACITY);
    let evictor = clone_receiver(&rx);
    (FrameSender { tx, evictor }, FrameReceiver { rx })
}

impl FrameSender {
    /// Queues `frame` without blocking, evicting the oldest queued frame
    /// while the channel is full. Reports `Disconnected` once the consumer's
    /// end is gone. The ghost part is the send attempts made, in order: all
    /// with `frame`, all but the last finding the channel full, and the last
    /// deciding the outcome.
    pub fn publish(&self, frame: Frame) -> (r: (PublishOutcome, Ghost<Seq<SendAttempt>>))
        ensures
            ({
                let (o, attempts) = r;
                &&& attempts@.len() <= PUBLISH_ATTEMPTS + 1
                &&& attempts@.len() == 0 ==> o == PublishOutcome::Disconnected
                &&& attempts@.len() > 0 ==> o == attempt_outcome(attempts@.last())
                &&& forall|i: int| 0 <= i < attempts@.len() - 1 ==> #[trigger] attempts@[i] is Full
                &&& o == PublishOutcome::Dropped ==> attempts@.len() == PUBLISH_ATTEMPTS + 1
                &&& forall|i: int| 0 <= i < attempts@.len() ==> sent_with(#[trigger] attempts@[i], frame)
            }),
    {
        let ghost mut attempts: Seq<SendAttempt> = Seq::empty();
        if consumer_gone(receiver_count(&self.tx)) {
            return (PublishOutcome::Disconnected, Ghost(attempts));
        }
        let mut pending = frame;
        let mut left: usize = PUBLISH_ATTEMPTS;
        loop
            invariant
                pending == frame,
                left <= PUBLISH_ATTEMPTS,
                attempts.len() + left == PUBLISH_ATTEMPTS,
                forall|i: int| 0 <= i < attempts.len() ==> #[trigger] attempts[i] is Full,
                forall|i: int| 0 <= i < attempts.len() ==> sent_with(#[trigger] attempts[i], frame),
            decreases left,
        {
            let attempt = try_send_frame(&self.tx, pending);
            let ghost a = attempt;
            let step = publish_step(attempt, left);
            proof {
                attempts = attempts.push(a);
            }
            match step {
                Ok(outcome) => {
                    return (outcome, Ghost(attempts));
                },
                Err(f) => {
                    let _oldest = try_recv_frame(&self.evictor);
                    pending = f;
                    left = left - 1;
                },
            }
        }
    }
}

impl FrameReceiver {
    /// Takes every queued frame without blocking and returns the last of
    /// them, or `None` when none was queued. The ghost part is the frames
    /// received, in order.
    pub fn drain_latest(&self) -> (r: (Option<Frame>, Ghost<Seq<Frame>>))
        ensures
            r.0 == drained(None, r.1@),
            r.1@.len() == 0 ==> r.0 is None,
            r.1@.len() > 0 ==> r.0 == Some(r.1@.last()),
    {
        let mut latest: Option<Frame> = None;
        let ghost mut got: Seq<Frame> = Seq::empty();
        let mut tries: usize = 0;
        while tries < DRAIN_LIMIT
            invariant
                tries <= DRAIN_LIMIT,
                latest == drained(None, got),
            decreases DRAIN_LIMIT - tries,
        {
            let attempt = try_recv_frame(&self.rx);
            let ghost arrived = attempt;
            let (kept, more) = drain_step(latest, attempt);
            proof {
                if let RecvAttempt::Received(f) = arrived {
                    lemma_drain_keeps_last(None, got.push(f));
                    lemma_drain_keeps_last(None, got);
                    got = got.push(f);
                }
            }
            latest = kept;
            if !more {
                break;
            }
            tries = tries + 1;
        }
        proof {
            lemma_drain_keeps_last(None, got);
        }
        (latest, Ghost(got))
    }
}

} // verus!
