//! One relay: its credentials, its backoff and the phase of the current
//! session attempt, driven by the events that the host reports.

use vstd::prelude::*;
use crate::backoff::{
    clamped_delay, delay_after_retries, lemma_backoff_closed_form, next_delay, Backoff,
    BACKOFF_CEILING_SECS, BACKOFF_FLOOR_SECS,
};
use crate::credentials::{login_frame, login_frame_spec, Credentials};
use crate::error::TsunaLoopError;
use crate::frame::{classify_frame, frame_kind_of, FrameKind};
use crate::message::{is_max_id, max_message_id, Message};
use crate::supervisor::{delay_after, recovery_spec, retries_after_delay, supervise, Recovery};

verus! {

/// Longest wait for the next frame, in seconds, before a read timeout.
pub const READ_TIMEOUT_SECS: u64 = 95;

/// Where the current session attempt stands.
#[derive(Debug, Clone, Copy, PartialEq, Eq, Structural)]
pub enum Phase {
    /// Opening the transport.
    Connecting,
    /// Connected; the login frame is being sent.
    Authenticating,
    /// Waiting for the next frame.
    Reading,
    /// Fetching the next batch of queued messages.
    Fetching,
    /// Showing a batch whose largest id is `ack`.
    Showing { ack: i64 },
    /// Acknowledging the batch just shown.
    Acknowledging,
    /// The relay has ended.
    Stopped,
}

/// What the host reports back after carrying out an action.
#[derive(Debug)]
pub enum Event {
    /// The transport is open.
    Connected,
    /// The login frame was sent.
    Authenticated,
    /// A frame arrived, with this payload.
    Received(String),
    /// The server closed the stream: a dropped connection.
    Closed,
    /// A fetch of queued messages returned; `None` when the queue is empty.
    Fetched(Option<Vec<Message>>),
    /// Every message of the batch was shown.
    Shown,
    /// The batch was acknowledged.
    Acknowledged,
    /// The action failed, or no frame came within the read wait.
    Failed(TsunaLoopError),
}

/// What the host must do next.
#[derive(Debug)]
pub enum Action {
    /// Open the transport.
    Connect,
    /// Wait this many seconds, then open the transport.
    WaitThenConnect(u64),
    /// Send this authentication frame.
    SendLogin(String),
    /// Wait up to the read timeout for the next frame.
    ReadFrame,
    /// Fetch the next batch of queued messages.
    FetchMessages,
    /// Show these messages, in order.
    Show(Vec<Message>),
    /// Acknowledge every message up to this id.
    Acknowledge(i64),
    /// End the relay with this error.
    Stop(TsunaLoopError),
}

/// The relay's state: everything that survives a reconnection, and the
/// phase of the current attempt.
#[derive(Debug)]
pub struct Relay {
    pub creds: Credentials,
    pub backoff: Backoff,
    pub phase: Phase,
}

/// Whether `e` is an event that can follow the action taken in `phase`.
pub open spec fn accepts(phase: Phase, e: Event) -> bool {
    match e {
        Event::Connected => phase is Connecting,
        Event::Authenticated => phase is Authenticating,
        Event::Received(_) => phase is Reading,
        Event::Closed => phase is Reading,
        Event::Fetched(_) => phase is Fetching,
        Event::Shown => phase is Showing,
        Event::Acknowledged => phase is Acknowledging,
        Event::Failed(_) => !(phase is Stopped),
    }
}

/// Whether a fetch result holds no message.
pub open spec fn is_empty_fetch(fetched: Option<Vec<Message>>) -> bool {
    fetched is None || fetched->Some_0@.len() == 0
}

/// The supervisor's handling of a failed attempt, from `pre` to `post`.
pub open spec fn recovered(pre: Relay, err: TsunaLoopError, post: Relay, a: Action) -> bool {
    &&& post.backoff.delay() == delay_after(err, pre.backoff.delay())
    &&& match recovery_spec(err, pre.backoff.delay_secs) {
        Recovery::RetryNow => post.phase is Connecting && a is Connect,
        Recovery::RetryAfter(d) => post.phase is Connecting && a == Action::WaitThenConnect(d),
        Recovery::Stop => post.phase is Stopped && a == Action::Stop(err),
    }
}

/// Nothing changes but the phase, which becomes `phase`.
pub open spec fn moved(pre: Relay, post: Relay, phase: Phase) -> bool {
    post.phase == phase && post.backoff == pre.backoff
}

/// One transition of the relay on event `e`, with the action it asks for.
pub open spec fn step_spec(pre: Relay, e: Event, post: Relay, a: Action) -> bool {
    &&& post.creds == pre.creds
    &&& match e {
        Event::Connected => moved(pre, post, Phase::Authenticating) && (a matches Action::SendLogin(
            f,
        ) && f@ == login_frame_spec(pre.creds.device_id@, pre.creds.secret@)),
        Event::Authenticated => post.phase is Reading && post.backoff.delay()
            == BACKOFF_FLOOR_SECS && a is ReadFrame,
        Event::Received(text) => match frame_kind_of(text@) {
            FrameKind::NewMessages => moved(pre, post, Phase::Fetching) && a is FetchMessages,
            FrameKind::UpstreamError => recovered(pre, TsunaLoopError::Error, post, a),
            FrameKind::Abort => recovered(pre, TsunaLoopError::Abort, post, a),
            _ => moved(pre, post, Phase::Reading) && a is ReadFrame,
        },
        Event::Closed => recovered(pre, TsunaLoopError::Transport, post, a),
        Event::Fetched(fetched) => if is_empty_fetch(fetched) {
            moved(pre, post, Phase::Reading) && a is ReadFrame
        } else {
            &&& post.backoff == pre.backoff
            &&& post.phase matches Phase::Showing { ack } && is_max_id(fetched->Some_0@, ack)
            &&& a == Action::Show(fetched->Some_0)
        },
        Event::Shown => pre.phase matches Phase::Showing { ack } && moved(
            pre,
            post,
            Phase::Acknowledging,
        ) && a == Action::Acknowledge(ack),
        Event::Acknowledged => moved(pre, post, Phase::Fetching) && a is FetchMessages,
        Event::Failed(err) => recovered(pre, err, post, a),
    }
}

impl Relay {
    pub open spec fn wf(&self) -> bool {
        self.backoff.wf()
    }

    /// A relay about to connect for the first time, with the delay at the
    /// floor. The host starts with `Action::Connect`.
    pub fn new(creds: Credentials) -> (r: Relay)
        ensures
            r.wf(),
            r.creds == creds,
            r.phase is Connecting,
            r.backoff.delay() == BACKOFF_FLOOR_SECS,
    {
        Relay { creds, backoff: Backoff::new(), phase: Phase::Connecting }
    }

    /// Whether the relay can take `e` now.
    pub fn expects(&self, e: &Event) -> (r: bool)
        ensures
            r == accepts(self.phase, *e),
    {
        match e {
            Event::Connected => self.phase == Phase::Connecting,
            Event::Authenticated => self.phase == Phase::Authenticating,
            Event::Received(_) => self.phase == Phase::Reading,
            Event::Closed => self.phase == Phase::Reading,
            Event::Fetched(_) => self.phase == Phase::Fetching,
            Event::Shown => match self.phase {
                Phase::Showing { .. } => true,
                _ => false,
            },
            Event::Acknowledged => self.phase == Phase::Acknowledging,
            Event::Failed(_) => self.phase != Phase::Stopped,
        }
    }

    /// Whether the relay has ended.
    pub fn is_stopped(&self) -> (r: bool)
        ensures
            r == (self.phase is Stopped),
    {
        self.phase == Phase::Stopped
    }

    fn recover(&mut self, err: TsunaLoopError) -> (a: Action)
        requires
            old(self).wf(),
        ensures
            final(self).wf(),
            final(self).creds == old(self).creds,
            recovered(*old(self), err, *final(self), a),
    {
        match supervise(&mut self.backoff, err) {
            Recovery::RetryNow => {
                self.phase = Phase::Connecting;
                Action::Connect
            },
            Recovery::RetryAfter(d) => {
                self.phase = Phase::Connecting;
                Action::WaitThenConnect(d)
            },
            Recovery::Stop => {
                self.phase = Phase::Stopped;
                Action::Stop(err)
            },
        }
    }

    /// Takes the host's report of what happened and says what to do next.
    pub fn step(&mut self, e: Event) -> (a: Action)
        requires
            old(self).wf(),
            accepts(old(self).phase, e),
        ensures
            final(self).wf(),
            step_spec(*old(self), e, *final(self), a),
    {
        match e {
            Event::Connected => {
                self.phase = Phase::Authenticating;
                Action::SendLogin(login_frame(&self.creds))
            },
            Event::Authenticated => {
                self.backoff.reset_backoff();
                self.phase = Phase::Reading;
                Action::ReadFrame
            },
            Event::Received(text) => match classify_frame(text.as_str()) {
                FrameKind::NewMessages => {
                    self.phase = Phase::Fetching;
                    Action::FetchMessages
                },
                FrameKind::UpstreamError => self.recover(TsunaLoopError::Error),
                FrameKind::Abort => self.recover(TsunaLoopError::Abort),
                _ => Action::ReadFrame,
            },
            Event::Closed => self.recover(TsunaLoopError::Transport),
            Event::Fetched(fetched) => match fetched {
                None => {
                    self.phase = Phase::Reading;
                    Action::ReadFrame
                },
                Some(batch) => {
                    if batch.len() == 0 {
                        self.phase = Phase::Reading;
                        Action::ReadFrame
                    } else {
                        let ack = max_message_id(&batch);
                        self.phase = Phase::Showing { ack };
                        Action::Show(batch)
                    }
                },
            },
            Event::Shown => {
                let ack = match self.phase {
                    Phase::Showing { ack } => ack,
                    _ => 0,
                };
                self.phase = Phase::Acknowledging;
                Action::Acknowledge(ack)
            },
            Event::Acknowledged => {
                self.phase = Phase::Fetching;
                Action::FetchMessages
            },
            Event::Failed(err) => self.recover(err),
        }
    }
}

/// No failure but an abort leaves the retry loop: every other failure, a
/// closed stream included, leads back to connecting, at once or after a
/// wait. The only way the relay ends is an abort, in a failure or an `A`
/// frame.
pub proof fn lemma_only_abort_ends_relay(pre: Relay, e: Event, post: Relay, a: Action)
    requires
        pre.wf(),
        accepts(pre.phase, e),
        step_spec(pre, e, post, a),
    ensures
        e matches Event::Failed(err) && !(err is Abort) ==> post.phase is Connecting && (
        a is Connect || a is WaitThenConnect),
        e is Closed ==> post.phase is Connecting && a is WaitThenConnect,
        post.phase is Stopped ==> a == Action::Stop(TsunaLoopError::Abort),
{
}

/// Across failures that consume the backoff the delay never shrinks and
/// stays under the ceiling, and each such failure waits the delay it found.
/// The delay goes back to the floor on authentication, and on no other
/// event: connecting alone leaves it as it was.
pub proof fn lemma_backoff_progression(pre: Relay, e: Event, post: Relay, a: Action)
    requires
        pre.wf(),
        accepts(pre.phase, e),
        step_spec(pre, e, post, a),
    ensures
        e matches Event::Failed(err) && retries_after_delay(err) ==> {
            &&& post.backoff.delay() == next_delay(pre.backoff.delay())
            &&& pre.backoff.delay() <= post.backoff.delay() <= BACKOFF_CEILING_SECS
            &&& a == Action::WaitThenConnect(pre.backoff.delay_secs)
        },
        e is Authenticated ==> post.backoff.delay() == BACKOFF_FLOOR_SECS,
        e is Connected ==> post.backoff == pre.backoff,
        post.backoff.delay() < pre.backoff.delay() ==> e is Authenticated,
{
}

/// Read timeouts and server-signalled errors, as a failure or as an `E`
/// frame, reconnect at once and leave the delay unchanged.
pub proof fn lemma_expected_failures_keep_delay(pre: Relay, e: Event, post: Relay, a: Action)
    requires
        pre.wf(),
        accepts(pre.phase, e),
        step_spec(pre, e, post, a),
        e == Event::Failed(TsunaLoopError::ReadTimeout) || e == Event::Failed(TsunaLoopError::Error)
            || (e matches Event::Received(text) && frame_kind_of(text@) is UpstreamError),
    ensures
        post.backoff.delay() == pre.backoff.delay(),
        post.phase is Connecting,
        a is Connect,
{
}

/// An empty fetch ends the drain: no acknowledgement, back to reading
/// frames, the delay untouched. So the next `!` frame fetches again, and an
/// empty queue again acknowledges nothing.
pub proof fn lemma_empty_fetch_acknowledges_nothing(
    pre: Relay,
    fetched: Option<Vec<Message>>,
    post: Relay,
    a: Action,
)
    requires
        pre.wf(),
        pre.phase is Fetching,
        is_empty_fetch(fetched),
        step_spec(pre, Event::Fetched(fetched), post, a),
    ensures
        !(a is Acknowledge),
        a is ReadFrame,
        post.phase is Reading,
        post.backoff == pre.backoff,
{
}

/// A non-empty batch is shown whole, then acknowledged by its largest id,
/// and the drain then fetches again.
pub proof fn lemma_drain_acknowledges_max(
    s0: Relay,
    batch: Vec<Message>,
    s1: Relay,
    a1: Action,
    s2: Relay,
    a2: Action,
    s3: Relay,
    a3: Action,
)
    requires
        s0.wf(),
        s0.phase is Fetching,
        batch@.len() > 0,
        step_spec(s0, Event::Fetched(Some(batch)), s1, a1),
        step_spec(s1, Event::Shown, s2, a2),
        step_spec(s2, Event::Acknowledged, s3, a3),
    ensures
        a1 == Action::Show(batch),
        a2 matches Action::Acknowledge(m) && is_max_id(batch@, m),
        a3 is FetchMessages,
        s3.phase is Fetching,
        s3.backoff == s0.backoff,
{
}

/// Each of `events` is a failure that consumes the backoff, and each
/// transition of the run is a step of the relay.
pub open spec fn failure_run(states: Seq<Relay>, events: Seq<Event>, actions: Seq<Action>) -> bool {
    &&& states.len() == events.len() + 1
    &&& actions.len() == events.len()
    &&& forall|i: int|
        0 <= i < events.len() ==> #[trigger] step_spec(
            states[i],
            events[i],
            states[i + 1],
            actions[i],
        )
    &&& forall|i: int|
        0 <= i < events.len() ==> (#[trigger] events[i] matches Event::Failed(err)
            && retries_after_delay(err))
}

proof fn lemma_failure_run_delays(
    states: Seq<Relay>,
    events: Seq<Event>,
    actions: Seq<Action>,
    k: nat,
)
    requires
        states[0].wf(),
        failure_run(states, events, actions),
        k <= events.len(),
    ensures
        states[k as int].backoff.delay() == delay_after_retries(states[0].backoff.delay(), k),
        BACKOFF_FLOOR_SECS <= states[k as int].backoff.delay() <= BACKOFF_CEILING_SECS,
    decreases k,
{
    if k > 0 {
        let j = k - 1;
        lemma_failure_run_delays(states, events, actions, (k - 1) as nat);
        assert(step_spec(states[j], events[j], states[j + 1], actions[j]));
        assert(events[j] matches Event::Failed(err) && retries_after_delay(err));
    }
}

/// Across `n` consecutive failures that consume the backoff, starting from
/// delay `d`, the `i`-th waits `min(d + step * i, ceiling)` before
/// reconnecting, and the delay left afterwards is `min(d + step * n, ceiling)`.
pub proof fn lemma_consecutive_failures_back_off(
    states: Seq<Relay>,
    events: Seq<Event>,
    actions: Seq<Action>,
)
    requires
        states[0].wf(),
        failure_run(states, events, actions),
    ensures
        forall|i: int|
            0 <= i < events.len() ==> (#[trigger] actions[i] matches Action::WaitThenConnect(w)
                && w == clamped_delay(states[0].backoff.delay(), i as nat)),
        states[events.len() as int].backoff.delay() == clamped_delay(
            states[0].backoff.delay(),
            events.len(),
        ),
{
    let d = states[0].backoff.delay();
    assert forall|i: int| 0 <= i < events.len() implies (#[trigger] actions[i]
        matches Action::WaitThenConnect(w) && w == clamped_delay(d, i as nat)) by {
        lemma_failure_run_delays(states, events, actions, i as nat);
        lemma_backoff_closed_form(d, i as nat);
        assert(step_spec(states[i], events[i], states[i + 1], actions[i]));
        assert(events[i] matches Event::Failed(err) && retries_after_delay(err));
    }
    lemma_failure_run_delays(states, events, actions, events.len());
    lemma_backoff_closed_form(d, events.len());
}

/// A drain of `batches.len()` non-empty batches ended by an empty fetch:
/// for each batch a fetch result, its display and its acknowledgement, in
/// that order, then the empty fetch.
pub open spec fn drain_run(
    states: Seq<Relay>,
    batches: Seq<Vec<Message>>,
    last: Option<Vec<Message>>,
    actions: Seq<Action>,
) -> bool {
    let k = batches.len() as int;
    &&& states.len() == 3 * k + 2
    &&& actions.len() == 3 * k + 1
    &&& forall|i: int| 0 <= i < k ==> (#[trigger] batches[i])@.len() > 0
    &&& forall|i: int|
        0 <= i < k ==> {
            &&& step_spec(
                states[3 * i],
                Event::Fetched(Some(#[trigger] batches[i])),
                states[3 * i + 1],
                actions[3 * i],
            )
            &&& step_spec(states[3 * i + 1], Event::Shown, states[3 * i + 2], actions[3 * i + 1])
            &&& step_spec(
                states[3 * i + 2],
                Event::Acknowledged,
                states[3 * i + 3],
                actions[3 * i + 2],
            )
        }
    &&& is_empty_fetch(last)
    &&& step_spec(states[3 * k], Event::Fetched(last), states[3 * k + 1], actions[3 * k])
}

proof fn lemma_drain_run_fetching(
    states: Seq<Relay>,
    batches: Seq<Vec<Message>>,
    last: Option<Vec<Message>>,
    actions: Seq<Action>,
    j: nat,
)
    requires
        states[0].phase is Fetching,
        drain_run(states, batches, last, actions),
        j <= batches.len(),
    ensures
        states[3 * j as int].phase is Fetching,
        states[3 * j as int].backoff == states[0].backoff,
    decreases j,
{
    if j > 0 {
        let i = j - 1;
        lemma_drain_run_fetching(states, batches, last, actions, i as nat);
        assert(batches[i]@.len() > 0);
        assert(3 * j == 3 * i + 3);
    }
}

/// Draining any number of non-empty batches: each is shown whole, then
/// acknowledged by exactly its largest id, then the next fetch follows; the
/// empty fetch that ends the drain acknowledges nothing and returns to
/// reading frames, with the delay untouched throughout.
pub proof fn lemma_drain_run_acknowledges_each_max(
    states: Seq<Relay>,
    batches: Seq<Vec<Message>>,
    last: Option<Vec<Message>>,
    actions: Seq<Action>,
)
    requires
        states[0].wf(),
        states[0].phase is Fetching,
        drain_run(states, batches, last, actions),
    ensures
        forall|i: int|
            0 <= i < batches.len() ==> {
                &&& actions[3 * i] == Action::Show(#[trigger] batches[i])
                &&& actions[3 * i + 1] matches Action::Acknowledge(m) && is_max_id(batches[i]@, m)
                &&& actions[3 * i + 2] is FetchMessages
            },
        actions[3 * batches.len() as int] is ReadFrame,
        states[3 * batches.len() as int + 1].phase is Reading,
        states[3 * batches.len() as int + 1].backoff == states[0].backoff,
{
    let k = batches.len();
    assert forall|i: int| 0 <= i < k implies {
        &&& actions[3 * i] == Action::Show(#[trigger] batches[i])
        &&& actions[3 * i + 1] matches Action::Acknowledge(m) && is_max_id(batches[i]@, m)
        &&& actions[3 * i + 2] is FetchMessages
    } by {
        lemma_drain_run_fetching(states, batches, last, actions, i as nat);
        assert(batches[i]@.len() > 0);
    }
    lemma_drain_run_fetching(states, batches, last, actions, k);
}

} // verus!
