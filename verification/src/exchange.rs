use vstd::prelude::*;
use crate::command::{Commands, build_report, spec_report};
use crate::response::{Response, HeadsetError, ErrorView, spec_parse, outcome_view, READ_EMPTY};

verus! {

/// How many empty reads in a row make the headset count as disconnected.
pub const MAX_READ_ATTEMPTS: u8 = 5;
/// Timeout of each read that waits for an answer, in milliseconds.
pub const ANSWER_TIMEOUT_MS: i32 = 1000;
/// Pause after a report was sent, in milliseconds.
pub const SEND_PAUSE_MS: u64 = 50;
/// Pause before waiting for the answer, and again after it arrived, in
/// milliseconds.
pub const ANSWER_PAUSE_MS: u64 = 100;

/// Where an exchange with the headset stands: the queue of pending reports is
/// flushed, the command is sent, the answer is awaited and parsed, and the
/// queue is flushed again before the answer is handed out.
#[derive(Debug, Clone, Copy, PartialEq, Eq, Structural)]
pub enum QueryPhase {
    /// Awaiting the switch to non-blocking mode that starts a flush;
    /// `answer` is the parsed answer when this flush ends the exchange.
    FlushOpen { answer: Option<Response> },
    /// Awaiting a non-blocking read that drains the queue.
    FlushDrain { answer: Option<Response> },
    /// Awaiting the switch back to blocking mode that ends a flush.
    FlushClose { answer: Option<Response> },
    /// Awaiting the result of sending the command report.
    Sending,
    /// Awaiting the pause after sending.
    SettleAfterSend,
    /// Awaiting the pause before reading the answer.
    SettleBeforeRead,
    /// Awaiting the `attempt`-th read of the answer.
    Reading { attempt: u8 },
    /// Awaiting the pause after the answer arrived.
    SettleAfterRead { response: Response },
    /// The exchange is over.
    Done,
}

/// One exchange: a command with its parameter, and where it stands.
#[derive(Debug, Clone, Copy, PartialEq, Eq, Structural)]
pub struct Query {
    pub command: Commands,
    pub param: Option<u8>,
    pub phase: QueryPhase,
}

/// What happened when the caller carried out the last action. Error messages
/// are those of the device library.
pub enum QueryEvent {
    /// The blocking mode was set, or setting it failed.
    BlockingModeSet(Result<(), String>),
    /// A non-blocking read returned this many bytes, or failed.
    Drained(Result<usize, String>),
    /// The report was sent, or sending failed.
    ReportSent(Result<(), String>),
    /// The pause is over.
    Paused,
    /// A read with timeout returned this many bytes, or failed, and this is
    /// the answer buffer after it.
    Received(Result<usize, String>, [u8; 20]),
}

/// What the caller is asked to do next.
pub enum QueryAction {
    /// Switch the device to blocking (`true`) or non-blocking mode.
    SetBlocking(bool),
    /// Read without blocking, into a scratch buffer.
    Drain,
    /// Send this output report.
    Send([u8; 20]),
    /// Sleep this many milliseconds.
    Pause(u64),
    /// Read into the answer buffer, waiting at most this many milliseconds.
    Receive(i32),
    /// The exchange is over, with this outcome.
    Finish(Result<Response, HeadsetError>),
}

/// A `QueryEvent` with messages and buffers taken by their views.
pub enum EventView {
    BlockingModeSet(Result<(), Seq<char>>),
    Drained(Result<usize, Seq<char>>),
    ReportSent(Result<(), Seq<char>>),
    Paused,
    Received(Result<usize, Seq<char>>, Seq<u8>),
}

/// A `QueryAction` with reports and errors taken by their views.
pub enum ActionView {
    SetBlocking(bool),
    Drain,
    Send(Seq<u8>),
    Pause(u64),
    Receive(i32),
    Finish(Result<Response, ErrorView>),
}

/// A device result with the error message taken by its view.
pub open spec fn message_view<T>(r: Result<T, String>) -> Result<T, Seq<char>> {
    match r {
        Ok(v) => Ok(v),
        Err(m) => Err(m@),
    }
}

impl View for QueryEvent {
    type V = EventView;

    open spec fn view(&self) -> EventView {
        match self {
            QueryEvent::BlockingModeSet(r) => EventView::BlockingModeSet(message_view(*r)),
            QueryEvent::Drained(r) => EventView::Drained(message_view(*r)),
            QueryEvent::ReportSent(r) => EventView::ReportSent(message_view(*r)),
            QueryEvent::Paused => EventView::Paused,
            QueryEvent::Received(r, buf) => EventView::Received(message_view(*r), buf@),
        }
    }
}

impl View for QueryAction {
    type V = ActionView;

    open spec fn view(&self) -> ActionView {
        match self {
            QueryAction::SetBlocking(b) => ActionView::SetBlocking(*b),
            QueryAction::Drain => ActionView::Drain,
            QueryAction::Send(report) => ActionView::Send(report@),
            QueryAction::Pause(ms) => ActionView::Pause(*ms),
            QueryAction::Receive(ms) => ActionView::Receive(*ms),
            QueryAction::Finish(r) => ActionView::Finish(outcome_view(*r)),
        }
    }
}

/// Whether the exchange, in this phase, is waiting for this kind of event.
pub open spec fn awaits(phase: QueryPhase, e: EventView) -> bool {
    match phase {
        QueryPhase::FlushOpen { .. } => e is BlockingModeSet,
        QueryPhase::FlushDrain { .. } => e is Drained,
        QueryPhase::FlushClose { .. } => e is BlockingModeSet,
        QueryPhase::Sending => e is ReportSent,
        QueryPhase::SettleAfterSend => e is Paused,
        QueryPhase::SettleBeforeRead => e is Paused,
        QueryPhase::Reading { .. } => e is Received,
        QueryPhase::SettleAfterRead { .. } => e is Paused,
        QueryPhase::Done => false,
    }
}

/// The exchange in another phase.
pub open spec fn at(q: Query, phase: QueryPhase) -> Query {
    Query { phase, ..q }
}

/// The end of an exchange on a device error with this message.
pub open spec fn fail(q: Query, msg: Seq<char>) -> (Query, ActionView) {
    (at(q, QueryPhase::Done), ActionView::Finish(Err(ErrorView::HidApiError { msg })))
}

/// The first step of an exchange: flushing starts with non-blocking mode.
pub open spec fn start(command: Commands, param: Option<u8>) -> (Query, ActionView) {
    (
        Query { command, param, phase: QueryPhase::FlushOpen { answer: None } },
        ActionView::SetBlocking(false),
    )
}

/// The phase an exchange moves to, and what it asks for, on an event it
/// awaits.
pub open spec fn next(q: Query, e: EventView) -> (Query, ActionView) {
    match q.phase {
        QueryPhase::FlushOpen { answer } => match e {
            EventView::BlockingModeSet(Ok(_)) => (
                at(q, QueryPhase::FlushDrain { answer }),
                ActionView::Drain,
            ),
            EventView::BlockingModeSet(Err(msg)) => fail(q, msg),
            _ => arbitrary(),
        },
        QueryPhase::FlushDrain { answer } => match e {
            EventView::Drained(Ok(n)) => if n == READ_EMPTY {
                (at(q, QueryPhase::FlushClose { answer }), ActionView::SetBlocking(true))
            } else {
                (q, ActionView::Drain)
            },
            EventView::Drained(Err(msg)) => fail(q, msg),
            _ => arbitrary(),
        },
        QueryPhase::FlushClose { answer } => match e {
            EventView::BlockingModeSet(Ok(_)) => match answer {
                None => (at(q, QueryPhase::Sending), ActionView::Send(spec_report(q.command, q.param))),
                Some(resp) => (at(q, QueryPhase::Done), ActionView::Finish(Ok(resp))),
            },
            EventView::BlockingModeSet(Err(msg)) => fail(q, msg),
            _ => arbitrary(),
        },
        QueryPhase::Sending => match e {
            EventView::ReportSent(Ok(_)) => (
                at(q, QueryPhase::SettleAfterSend),
                ActionView::Pause(SEND_PAUSE_MS),
            ),
            EventView::ReportSent(Err(msg)) => fail(q, msg),
            _ => arbitrary(),
        },
        QueryPhase::SettleAfterSend => (
            at(q, QueryPhase::SettleBeforeRead),
            ActionView::Pause(ANSWER_PAUSE_MS),
        ),
        QueryPhase::SettleBeforeRead => (
            at(q, QueryPhase::Reading { attempt: 1 }),
            ActionView::Receive(ANSWER_TIMEOUT_MS),
        ),
        QueryPhase::Reading { attempt } => match e {
            EventView::Received(Ok(n), buf) => if n == READ_EMPTY {
                if attempt >= MAX_READ_ATTEMPTS {
                    (at(q, QueryPhase::Done), ActionView::Finish(Err(ErrorView::Disconnected)))
                } else {
                    (
                        at(q, QueryPhase::Reading { attempt: (attempt + 1) as u8 }),
                        ActionView::Receive(ANSWER_TIMEOUT_MS),
                    )
                }
            } else {
                match spec_parse(buf) {
                    Ok(resp) => (
                        at(q, QueryPhase::SettleAfterRead { response: resp }),
                        ActionView::Pause(ANSWER_PAUSE_MS),
                    ),
                    Err(err) => (at(q, QueryPhase::Done), ActionView::Finish(Err(err))),
                }
            },
            EventView::Received(Err(msg), _) => fail(q, msg),
            _ => arbitrary(),
        },
        QueryPhase::SettleAfterRead { response } => (
            at(q, QueryPhase::FlushOpen { answer: Some(response) }),
            ActionView::SetBlocking(false),
        ),
        QueryPhase::Done => arbitrary(),
    }
}

/// The reachable exchanges: read attempts count from 1 to 5.
pub open spec fn well_formed(q: Query) -> bool {
    q.phase matches QueryPhase::Reading { attempt } ==> 1 <= attempt <= MAX_READ_ATTEMPTS
}

impl Query {
    /// Starts an exchange that sends `command` with `param`, and returns the
    /// first thing to do.
    pub fn new(command: Commands, param: Option<u8>) -> (res: (Query, QueryAction))
        ensures
            (res.0, res.1@) == start(command, param),
            well_formed(res.0),
    {
        (
            Query { command, param, phase: QueryPhase::FlushOpen { answer: None } },
            QueryAction::SetBlocking(false),
        )
    }

    /// Whether this exchange is waiting for an event of this kind.
    pub fn accepts(&self, event: &QueryEvent) -> (b: bool)
        ensures
            b == awaits(self.phase, event@),
    {
        match self.phase {
            QueryPhase::FlushOpen { .. } => matches!(event, QueryEvent::BlockingModeSet(_)),
            QueryPhase::FlushDrain { .. } => matches!(event, QueryEvent::Drained(_)),
            QueryPhase::FlushClose { .. } => matches!(event, QueryEvent::BlockingModeSet(_)),
            QueryPhase::Sending => matches!(event, QueryEvent::ReportSent(_)),
            QueryPhase::SettleAfterSend => matches!(event, QueryEvent::Paused),
            QueryPhase::SettleBeforeRead => matches!(event, QueryEvent::Paused),
            QueryPhase::Reading { .. } => matches!(event, QueryEvent::Received(_, _)),
            QueryPhase::SettleAfterRead { .. } => matches!(event, QueryEvent::Paused),
            QueryPhase::Done => false,
        }
    }

    /// Whether the exchange is over.
    pub fn is_done(&self) -> (b: bool)
        ensures
            b == (self.phase is Done),
    {
        matches!(self.phase, QueryPhase::Done)
    }

    /// Takes the outcome of the last action and returns the exchange after it
    /// with the next thing to do.
    pub fn step(self, event: QueryEvent) -> (res: (Query, QueryAction))
        requires
            awaits(self.phase, event@),
            well_formed(self),
        ensures
            (res.0, res.1@) == next(self, event@),
            well_formed(res.0),
    {
        let q = self;
        match q.phase {
            QueryPhase::FlushOpen { answer } => match event {
                QueryEvent::BlockingModeSet(Ok(_)) => (
                    Query { phase: QueryPhase::FlushDrain { answer }, ..q },
                    QueryAction::Drain,
                ),
                QueryEvent::BlockingModeSet(Err(msg)) => Self::failed(q, msg),
                _ => Self::failed(q, String::new()),
            },
            QueryPhase::FlushDrain { answer } => match event {
                QueryEvent::Drained(Ok(n)) => if n == READ_EMPTY {
                    (
                        Query { phase: QueryPhase::FlushClose { answer }, ..q },
                        QueryAction::SetBlocking(true),
                    )
                } else {
                    (q, QueryAction::Drain)
                },
                QueryEvent::Drained(Err(msg)) => Self::failed(q, msg),
                _ => Self::failed(q, String::new()),
            },
            QueryPhase::FlushClose { answer } => match event {
                QueryEvent::BlockingModeSet(Ok(_)) => match answer {
                    None => (
                        Query { phase: QueryPhase::Sending, ..q },
                        QueryAction::Send(build_report(q.command, q.param)),
                    ),
                    Some(resp) => (
                        Query { phase: QueryPhase::Done, ..q },
                        QueryAction::Finish(Ok(resp)),
                    ),
                },
                QueryEvent::BlockingModeSet(Err(msg)) => Self::failed(q, msg),
                _ => Self::failed(q, String::new()),
            },
            QueryPhase::Sending => match event {
                QueryEvent::ReportSent(Ok(_)) => (
                    Query { phase: QueryPhase::SettleAfterSend, ..q },
                    QueryAction::Pause(SEND_PAUSE_MS),
                ),
                QueryEvent::ReportSent(Err(msg)) => Self::failed(q, msg),
                _ => Self::failed(q, String::new()),
            },
            QueryPhase::SettleAfterSend => (
                Query { phase: QueryPhase::SettleBeforeRead, ..q },
                QueryAction::Pause(ANSWER_PAUSE_MS),
            ),
            QueryPhase::SettleBeforeRead => (
                Query { phase: QueryPhase::Reading { attempt: 1 }, ..q },
                QueryAction::Receive(ANSWER_TIMEOUT_MS),
            ),
            QueryPhase::Reading { attempt } => match event {
                QueryEvent::Received(Ok(n), buf) => if n == READ_EMPTY {
                    if attempt >= MAX_READ_ATTEMPTS {
                        (
                            Query { phase: QueryPhase::Done, ..q },
                            QueryAction::Finish(Err(HeadsetError::Disconnected)),
                        )
                    } else {
                        (
                            Query { phase: QueryPhase::Reading { attempt: attempt + 1 }, ..q },
                            QueryAction::Receive(ANSWER_TIMEOUT_MS),
                        )
                    }
                } else {
                    match Commands::parse(&buf) {
                        Ok(resp) => (
                            Query { phase: QueryPhase::SettleAfterRead { response: resp }, ..q },
                            QueryAction::Pause(ANSWER_PAUSE_MS),
                        ),
                        Err(err) => (
                            Query { phase: QueryPhase::Done, ..q },
                            QueryAction::Finish(Err(err)),
                        ),
                    }
                },
                QueryEvent::Received(Err(msg), _) => Self::failed(q, msg),
                _ => Self::failed(q, String::new()),
            },
            QueryPhase::SettleAfterRead { response } => (
                Query { phase: QueryPhase::FlushOpen { answer: Some(response) }, ..q },
                QueryAction::SetBlocking(false),
            ),
            QueryPhase::Done => Self::failed(q, String::new()),
        }
    }

    fn failed(q: Query, msg: String) -> (res: (Query, QueryAction))
        ensures
            (res.0, res.1@) == fail(q, msg@),
            well_formed(res.0),
    {
        (Query { phase: QueryPhase::Done, ..q }, QueryAction::Finish(Err(HeadsetError::HidApiError { msg })))
    }
}


/// The exchange after a sequence of events, and the actions it asked for on
/// the way, in order.
pub open spec fn run(q: Query, events: Seq<EventView>) -> (Query, Seq<ActionView>)
    decreases events.len(),
{
    if events.len() == 0 {
        (q, seq![])
    } else {
        let (q1, a) = next(q, events[0]);
        let (q2, rest) = run(q1, events.drop_first());
        (q2, seq![a] + rest)
    }
}

/// Whether each event of the sequence is one the exchange awaits when it
/// comes.
pub open spec fn awaits_all(q: Query, events: Seq<EventView>) -> bool
    decreases events.len(),
{
    if events.len() == 0 {
        true
    } else {
        awaits(q.phase, events[0]) && awaits_all(next(q, events[0]).0, events.drop_first())
    }
}

/// Running two sequences of events one after the other is running the first,
/// then the second from where the first left the exchange.
pub proof fn lemma_run_append(q: Query, a: Seq<EventView>, b: Seq<EventView>)
    ensures
        run(q, a + b) == (run(run(q, a).0, b).0, run(q, a).1 + run(run(q, a).0, b).1),
        awaits_all(q, a + b) == (awaits_all(q, a) && awaits_all(run(q, a).0, b)),
    decreases a.len(),
{
    if a.len() == 0 {
        assert(a + b =~= b);
        assert(run(q, a).1 + run(q, b).1 =~= run(q, b).1);
    } else {
        let (q1, x) = next(q, a[0]);
        assert((a + b)[0] == a[0]);
        assert((a + b).drop_first() =~= a.drop_first() + b);
        lemma_run_append(q1, a.drop_first(), b);
        let r1 = run(q1, a.drop_first());
        let r2 = run(r1.0, b);
        assert(seq![x] + (r1.1 + r2.1) =~= (seq![x] + r1.1) + r2.1);
    }
}

/// A flush with an empty queue: non-blocking mode, one empty drain, blocking
/// mode again. It then sends the report, or ends with the answer it carries.
proof fn lemma_smooth_flush(q: Query, answer: Option<Response>)
    requires
        q.phase == (QueryPhase::FlushOpen { answer }),
    ensures
        ({
            let events = seq![
                EventView::BlockingModeSet(Ok(())),
                EventView::Drained(Ok(0usize)),
                EventView::BlockingModeSet(Ok(())),
            ];
            &&& awaits_all(q, events)
            &&& run(q, events) == match answer {
                None => (
                    at(q, QueryPhase::Sending),
                    seq![
                        ActionView::Drain,
                        ActionView::SetBlocking(true),
                        ActionView::Send(spec_report(q.command, q.param)),
                    ],
                ),
                Some(resp) => (
                    at(q, QueryPhase::Done),
                    seq![
                        ActionView::Drain,
                        ActionView::SetBlocking(true),
                        ActionView::Finish(Ok(resp)),
                    ],
                ),
            }
        }),
{
    reveal_with_fuel(run, 4);
    reveal_with_fuel(awaits_all, 4);
    let events = seq![
        EventView::BlockingModeSet(Ok(())),
        EventView::Drained(Ok(0usize)),
        EventView::BlockingModeSet(Ok(())),
    ];
    assert(events.drop_first() =~= seq![EventView::Drained(Ok(0usize)), EventView::BlockingModeSet(Ok(()))]);
    assert(events.drop_first().drop_first() =~= seq![EventView::BlockingModeSet(Ok(()))]);
    assert(events.drop_first().drop_first().drop_first() =~= Seq::<EventView>::empty());
}

/// After the report is sent: the pause after sending, the pause before
/// reading, then the first read, whose answer parses.
proof fn lemma_smooth_answer(q: Query, n: usize, buf: Seq<u8>)
    requires
        q.phase == QueryPhase::Sending,
        n != READ_EMPTY,
        spec_parse(buf) is Ok,
    ensures
        ({
            let events = seq![
                EventView::ReportSent(Ok(())),
                EventView::Paused,
                EventView::Paused,
                EventView::Received(Ok(n), buf),
                EventView::Paused,
            ];
            &&& awaits_all(q, events)
            &&& run(q, events) == (
                at(q, QueryPhase::FlushOpen { answer: Some(spec_parse(buf)->Ok_0) }),
                seq![
                    ActionView::Pause(SEND_PAUSE_MS),
                    ActionView::Pause(ANSWER_PAUSE_MS),
                    ActionView::Receive(ANSWER_TIMEOUT_MS),
                    ActionView::Pause(ANSWER_PAUSE_MS),
                    ActionView::SetBlocking(false),
                ],
            )
        }),
{
    reveal_with_fuel(run, 6);
    reveal_with_fuel(awaits_all, 6);
    let events = seq![
        EventView::ReportSent(Ok(())),
        EventView::Paused,
        EventView::Paused,
        EventView::Received(Ok(n), buf),
        EventView::Paused,
    ];
    assert(events.drop_first() =~= events.subrange(1, 5));
    assert(events.subrange(1, 5).drop_first() =~= events.subrange(2, 5));
    assert(events.subrange(2, 5).drop_first() =~= events.subrange(3, 5));
    assert(events.subrange(3, 5).drop_first() =~= events.subrange(4, 5));
    assert(events.subrange(4, 5).drop_first() =~= Seq::<EventView>::empty());
}

/// The events of an exchange in which every device call succeeds, each flush
/// finds the queue empty, and the first read brings `n` bytes in `buf`.
pub open spec fn smooth_events(n: usize, buf: Seq<u8>) -> Seq<EventView> {
    seq![
        EventView::BlockingModeSet(Ok(())),
        EventView::Drained(Ok(0usize)),
        EventView::BlockingModeSet(Ok(())),
        EventView::ReportSent(Ok(())),
        EventView::Paused,
        EventView::Paused,
        EventView::Received(Ok(n), buf),
        EventView::Paused,
        EventView::BlockingModeSet(Ok(())),
        EventView::Drained(Ok(0usize)),
        EventView::BlockingModeSet(Ok(())),
    ]
}

/// When the device answers at the first read and every call succeeds, an
/// exchange flushes the queue, sends the command's report, waits, reads the
/// answer, waits, flushes again, and ends with the response the answer
/// carries.
pub proof fn law_smooth_exchange(command: Commands, param: Option<u8>, n: usize, buf: Seq<u8>)
    requires
        n != READ_EMPTY,
        spec_parse(buf) is Ok,
    ensures
        awaits_all(start(command, param).0, smooth_events(n, buf)),
        run(start(command, param).0, smooth_events(n, buf)) == (
            at(start(command, param).0, QueryPhase::Done),
            seq![
                ActionView::Drain,
                ActionView::SetBlocking(true),
                ActionView::Send(spec_report(command, param)),
                ActionView::Pause(SEND_PAUSE_MS),
                ActionView::Pause(ANSWER_PAUSE_MS),
                ActionView::Receive(ANSWER_TIMEOUT_MS),
                ActionView::Pause(ANSWER_PAUSE_MS),
                ActionView::SetBlocking(false),
                ActionView::Drain,
                ActionView::SetBlocking(true),
                ActionView::Finish(spec_parse(buf)),
            ],
        ),
{
    let q0 = start(command, param).0;
    let flush = seq![
        EventView::BlockingModeSet(Ok(())),
        EventView::Drained(Ok(0usize)),
        EventView::BlockingModeSet(Ok(())),
    ];
    let middle = seq![
        EventView::ReportSent(Ok(())),
        EventView::Paused,
        EventView::Paused,
        EventView::Received(Ok(n), buf),
        EventView::Paused,
    ];
    assert(smooth_events(n, buf) =~= flush + (middle + flush));
    lemma_smooth_flush(q0, None);
    let q1 = at(q0, QueryPhase::Sending);
    lemma_smooth_answer(q1, n, buf);
    let q2 = at(q0, QueryPhase::FlushOpen { answer: Some(spec_parse(buf)->Ok_0) });
    lemma_smooth_flush(q2, Some(spec_parse(buf)->Ok_0));
    lemma_run_append(q1, middle, flush);
    lemma_run_append(q0, flush, middle + flush);
    assert(run(q0, smooth_events(n, buf)).1 =~= seq![
        ActionView::Drain,
        ActionView::SetBlocking(true),
        ActionView::Send(spec_report(command, param)),
        ActionView::Pause(SEND_PAUSE_MS),
        ActionView::Pause(ANSWER_PAUSE_MS),
        ActionView::Receive(ANSWER_TIMEOUT_MS),
        ActionView::Pause(ANSWER_PAUSE_MS),
        ActionView::SetBlocking(false),
        ActionView::Drain,
        ActionView::SetBlocking(true),
        ActionView::Finish(spec_parse(buf)),
    ]);
}

/// The message of the device error an event reports, if it reports one.
pub open spec fn event_error(e: EventView) -> Option<Seq<char>> {
    match e {
        EventView::BlockingModeSet(Err(msg)) => Some(msg),
        EventView::Drained(Err(msg)) => Some(msg),
        EventView::ReportSent(Err(msg)) => Some(msg),
        EventView::Received(Err(msg), _) => Some(msg),
        _ => None,
    }
}

/// Whatever the exchange awaits, a device error ends it at once with a
/// `HidApiError` that carries the device's message.
pub proof fn law_device_error_ends_exchange(q: Query, e: EventView)
    requires
        awaits(q.phase, e),
        event_error(e) is Some,
    ensures
        next(q, e) == fail(q, event_error(e)->0),
{
}

/// An exchange keeps its command and parameter, and the only report it ever
/// asks to send is the one built for them.
pub proof fn law_exchange_sends_its_report(q: Query, e: EventView)
    requires
        awaits(q.phase, e),
    ensures
        next(q, e).0.command == q.command,
        next(q, e).0.param == q.param,
        next(q, e).1 matches ActionView::Send(report) ==> report == spec_report(q.command, q.param),
{
}

/// Five empty reads of the answer in a row: the first four are followed by
/// another read, the fifth ends the exchange with `Disconnected`.
pub proof fn law_five_empty_reads_disconnect(q: Query, bufs: Seq<Seq<u8>>)
    requires
        q.phase == (QueryPhase::Reading { attempt: 1 }),
        bufs.len() == 5,
    ensures
        awaits_all(q, Seq::new(5, |i: int| EventView::Received(Ok(0usize), bufs[i]))),
        run(q, Seq::new(5, |i: int| EventView::Received(Ok(0usize), bufs[i]))) == (
            at(q, QueryPhase::Done),
            seq![
                ActionView::Receive(ANSWER_TIMEOUT_MS),
                ActionView::Receive(ANSWER_TIMEOUT_MS),
                ActionView::Receive(ANSWER_TIMEOUT_MS),
                ActionView::Receive(ANSWER_TIMEOUT_MS),
                ActionView::Finish(Err(ErrorView::Disconnected)),
            ],
        ),
{
    reveal_with_fuel(run, 6);
    reveal_with_fuel(awaits_all, 6);
    let e = Seq::new(5, |i: int| EventView::Received(Ok(0usize), bufs[i]));
    assert(e.drop_first() =~= e.subrange(1, 5));
    assert(e.subrange(1, 5).drop_first() =~= e.subrange(2, 5));
    assert(e.subrange(2, 5).drop_first() =~= e.subrange(3, 5));
    assert(e.subrange(3, 5).drop_first() =~= e.subrange(4, 5));
    assert(e.subrange(4, 5).drop_first() =~= Seq::<EventView>::empty());
}


/// How many of the actions ask to send a report.
pub open spec fn sends(actions: Seq<ActionView>) -> nat
    decreases actions.len(),
{
    if actions.len() == 0 {
        0
    } else {
        (if actions[0] is Send { 1nat } else { 0nat }) + sends(actions.drop_first())
    }
}

/// How many of the actions ask to read the answer.
pub open spec fn receives(actions: Seq<ActionView>) -> nat
    decreases actions.len(),
{
    if actions.len() == 0 {
        0
    } else {
        (if actions[0] is Receive { 1nat } else { 0nat }) + receives(actions.drop_first())
    }
}

/// How many reports an exchange in this state may still ask to send.
pub open spec fn sends_left(q: Query) -> nat {
    match q.phase {
        QueryPhase::FlushOpen { answer: None } => 1,
        QueryPhase::FlushDrain { answer: None } => 1,
        QueryPhase::FlushClose { answer: None } => 1,
        _ => 0,
    }
}

/// How many reads of the answer an exchange in this state may still ask for.
pub open spec fn receives_left(q: Query) -> nat {
    match q.phase {
        QueryPhase::FlushOpen { answer: None } => MAX_READ_ATTEMPTS as nat,
        QueryPhase::FlushDrain { answer: None } => MAX_READ_ATTEMPTS as nat,
        QueryPhase::FlushClose { answer: None } => MAX_READ_ATTEMPTS as nat,
        QueryPhase::Sending => MAX_READ_ATTEMPTS as nat,
        QueryPhase::SettleAfterSend => MAX_READ_ATTEMPTS as nat,
        QueryPhase::SettleBeforeRead => MAX_READ_ATTEMPTS as nat,
        QueryPhase::Reading { attempt } => (MAX_READ_ATTEMPTS - attempt) as nat,
        _ => 0,
    }
}

/// One step spends at most the budget it uses, keeps the exchange well
/// formed, asks for every read with the answer timeout, and ends the
/// exchange when it finishes it.
proof fn lemma_step_budget(q: Query, e: EventView)
    requires
        well_formed(q),
        awaits(q.phase, e),
    ensures
        well_formed(next(q, e).0),
        sends_left(q) >= sends_left(next(q, e).0) + (if next(q, e).1 is Send { 1nat } else { 0nat }),
        receives_left(q) >= receives_left(next(q, e).0) + (if next(q, e).1 is Receive { 1nat } else { 0nat }),
        next(q, e).1 is Receive ==> next(q, e).1 == ActionView::Receive(ANSWER_TIMEOUT_MS),
        next(q, e).1 is Finish ==> next(q, e).0.phase is Done,
{
}

/// The bounds of `law_exchange_is_bounded`, from any well-formed state.
proof fn lemma_run_budget(q: Query, events: Seq<EventView>)
    requires
        well_formed(q),
        awaits_all(q, events),
    ensures
        run(q, events).1.len() == events.len(),
        sends(run(q, events).1) <= sends_left(q),
        receives(run(q, events).1) <= receives_left(q),
        forall|i: int|
            0 <= i < run(q, events).1.len() && (#[trigger] run(q, events).1[i]) is Receive
                ==> run(q, events).1[i] == ActionView::Receive(ANSWER_TIMEOUT_MS),
        forall|i: int|
            0 <= i < run(q, events).1.len() && (#[trigger] run(q, events).1[i]) is Finish
                ==> i == events.len() - 1,
    decreases events.len(),
{
    if events.len() > 0 {
        let (q1, a) = next(q, events[0]);
        let rest = events.drop_first();
        lemma_step_budget(q, events[0]);
        lemma_run_budget(q1, rest);
        let acts = run(q, events).1;
        let tail = run(q1, rest).1;
        assert(acts == seq![a] + tail);
        assert(acts.drop_first() =~= tail);
        assert(acts[0] == a);
        if a is Finish && rest.len() > 0 {
            assert(awaits_all(q1, rest));
            assert(awaits(q1.phase, rest[0]));
            assert(false);
        }
        assert forall|i: int|
            0 <= i < acts.len() && (#[trigger] acts[i]) is Receive implies acts[i]
                == ActionView::Receive(ANSWER_TIMEOUT_MS) by {
            if i > 0 {
                assert(acts[i] == tail[i - 1]);
            }
        }
        assert forall|i: int| 0 <= i < acts.len() && (#[trigger] acts[i]) is Finish implies i
            == events.len() - 1 by {
            if i > 0 {
                assert(acts[i] == tail[i - 1]);
            }
        }
    }
}

/// Whatever the device does, an exchange sends at most one report, reads the
/// answer at most five times, each time with the answer timeout, and asks
/// for nothing after it finishes.
pub proof fn law_exchange_is_bounded(command: Commands, param: Option<u8>, events: Seq<EventView>)
    requires
        awaits_all(start(command, param).0, events),
    ensures
        sends(run(start(command, param).0, events).1) <= 1,
        receives(run(start(command, param).0, events).1) <= MAX_READ_ATTEMPTS,
        forall|i: int|
            0 <= i < run(start(command, param).0, events).1.len() && (#[trigger] run(
                start(command, param).0,
                events,
            ).1[i]) is Receive ==> run(start(command, param).0, events).1[i]
                == ActionView::Receive(ANSWER_TIMEOUT_MS),
        forall|i: int|
            0 <= i < run(start(command, param).0, events).1.len() && (#[trigger] run(
                start(command, param).0,
                events,
            ).1[i]) is Finish ==> i == run(start(command, param).0, events).1.len() - 1,
{
    lemma_run_budget(start(command, param).0, events);
}

/// Whether the exchange is flushing the queue.
pub open spec fn in_flush(phase: QueryPhase) -> bool {
    phase is FlushOpen || phase is FlushDrain || phase is FlushClose
}

/// A flush ends in one of two ways only. Either the queue was found empty
/// and blocking mode restored (a drain that read nothing leads to the switch
/// back, and only a successful switch back leaves the flush, to send the
/// report or to hand out the answer), or a device call failed and the
/// exchange ends with a `HidApiError` carrying its message, never with
/// another error.
pub proof fn law_flush_ends(q: Query, e: EventView)
    requires
        in_flush(q.phase),
        awaits(q.phase, e),
    ensures
        next(q, e).0.phase is FlushClose ==> (q.phase is FlushDrain && e == EventView::Drained(
            Ok(0usize),
        )) || q.phase is FlushClose,
        !in_flush(next(q, e).0.phase) ==> {
            ||| (q.phase is FlushClose && (e matches EventView::BlockingModeSet(Ok(_))) && (match q.phase {
                QueryPhase::FlushClose { answer: None } => next(q, e) == (
                    at(q, QueryPhase::Sending),
                    ActionView::Send(spec_report(q.command, q.param)),
                ),
                QueryPhase::FlushClose { answer: Some(resp) } => next(q, e) == (
                    at(q, QueryPhase::Done),
                    ActionView::Finish(Ok(resp)),
                ),
                _ => false,
            }))
            ||| (event_error(e) is Some && next(q, e) == fail(q, event_error(e)->0))
        },
        next(q, e).1 matches ActionView::Finish(Err(err)) ==> err is HidApiError,
{
}


/// An answer is read the same way whichever read attempt brought it: the
/// exchange keeps the response the report carries and pauses, or ends with
/// the parse error.
pub proof fn law_answer_read_at_any_attempt(q: Query, attempt: u8, n: usize, buf: Seq<u8>)
    requires
        1 <= attempt <= MAX_READ_ATTEMPTS,
        n != READ_EMPTY,
    ensures
        next(at(q, QueryPhase::Reading { attempt }), EventView::Received(Ok(n), buf)) == match spec_parse(buf) {
            Ok(resp) => (
                at(q, QueryPhase::SettleAfterRead { response: resp }),
                ActionView::Pause(ANSWER_PAUSE_MS),
            ),
            Err(err) => (at(q, QueryPhase::Done), ActionView::Finish(Err(err))),
        },
{
}

/// The sending part of an exchange: the report is sent, then the two pauses,
/// then the first read.
proof fn lemma_send_part(q: Query)
    requires
        q.phase == QueryPhase::Sending,
    ensures
        ({
            let events = seq![EventView::ReportSent(Ok(())), EventView::Paused, EventView::Paused];
            &&& awaits_all(q, events)
            &&& run(q, events) == (
                at(q, QueryPhase::Reading { attempt: 1 }),
                seq![
                    ActionView::Pause(SEND_PAUSE_MS),
                    ActionView::Pause(ANSWER_PAUSE_MS),
                    ActionView::Receive(ANSWER_TIMEOUT_MS),
                ],
            )
        }),
{
    reveal_with_fuel(run, 4);
    reveal_with_fuel(awaits_all, 4);
    let events = seq![EventView::ReportSent(Ok(())), EventView::Paused, EventView::Paused];
    assert(events.drop_first() =~= seq![EventView::Paused, EventView::Paused]);
    assert(events.drop_first().drop_first() =~= seq![EventView::Paused]);
    assert(events.drop_first().drop_first().drop_first() =~= Seq::<EventView>::empty());
}

/// `count` reads that bring nothing.
pub open spec fn empty_reads(count: nat) -> Seq<EventView> {
    Seq::new(count, |i: int| EventView::Received(Ok(0usize), Seq::new(20, |j: int| 0u8)))
}

/// Empty reads before the last attempt each ask for another read.
proof fn lemma_empty_reads(q: Query, attempt: u8, count: nat)
    requires
        q.phase == (QueryPhase::Reading { attempt }),
        1 <= attempt,
        attempt + count <= MAX_READ_ATTEMPTS,
    ensures
        awaits_all(q, empty_reads(count)),
        run(q, empty_reads(count)) == (
            at(q, QueryPhase::Reading { attempt: (attempt + count) as u8 }),
            Seq::new(count, |i: int| ActionView::Receive(ANSWER_TIMEOUT_MS)),
        ),
    decreases count,
{
    if count == 0 {
        assert(empty_reads(0) =~= Seq::<EventView>::empty());
        assert(Seq::new(0, |i: int| ActionView::Receive(ANSWER_TIMEOUT_MS)) =~= Seq::<ActionView>::empty());
    } else {
        let e = empty_reads(count);
        let q1 = at(q, QueryPhase::Reading { attempt: (attempt + 1) as u8 });
        assert(next(q, e[0]) == (q1, ActionView::Receive(ANSWER_TIMEOUT_MS)));
        assert(e.drop_first() =~= empty_reads((count - 1) as nat));
        lemma_empty_reads(q1, (attempt + 1) as u8, (count - 1) as nat);
        assert(seq![ActionView::Receive(ANSWER_TIMEOUT_MS)] + Seq::new(
            (count - 1) as nat,
            |i: int| ActionView::Receive(ANSWER_TIMEOUT_MS),
        ) =~= Seq::new(count, |i: int| ActionView::Receive(ANSWER_TIMEOUT_MS)));
    }
}

/// The answer part: the read with data, then the pause after it.
proof fn lemma_answer_part(q: Query, attempt: u8, n: usize, buf: Seq<u8>)
    requires
        q.phase == (QueryPhase::Reading { attempt }),
        1 <= attempt <= MAX_READ_ATTEMPTS,
        n != READ_EMPTY,
        spec_parse(buf) is Ok,
    ensures
        ({
            let events = seq![EventView::Received(Ok(n), buf), EventView::Paused];
            &&& awaits_all(q, events)
            &&& run(q, events) == (
                at(q, QueryPhase::FlushOpen { answer: Some(spec_parse(buf)->Ok_0) }),
                seq![ActionView::Pause(ANSWER_PAUSE_MS), ActionView::SetBlocking(false)],
            )
        }),
{
    reveal_with_fuel(run, 3);
    reveal_with_fuel(awaits_all, 3);
    let events = seq![EventView::Received(Ok(n), buf), EventView::Paused];
    assert(events.drop_first() =~= seq![EventView::Paused]);
    assert(events.drop_first().drop_first() =~= Seq::<EventView>::empty());
}

/// The events of an exchange in which every device call succeeds, each flush
/// finds the queue empty, and the answer arrives after `count` empty reads.
pub open spec fn late_answer_events(count: nat, n: usize, buf: Seq<u8>) -> Seq<EventView> {
    let flush = seq![
        EventView::BlockingModeSet(Ok(())),
        EventView::Drained(Ok(0usize)),
        EventView::BlockingModeSet(Ok(())),
    ];
    flush + (seq![EventView::ReportSent(Ok(())), EventView::Paused, EventView::Paused] + (
    empty_reads(count) + (seq![EventView::Received(Ok(n), buf), EventView::Paused] + flush)))
}

/// An answer that arrives after up to four empty reads is handed out just as
/// one that arrives at once: the exchange reads `count + 1` times, then ends
/// with the response the answer carries.
pub proof fn law_late_answer(command: Commands, param: Option<u8>, count: nat, n: usize, buf: Seq<u8>)
    requires
        count < MAX_READ_ATTEMPTS,
        n != READ_EMPTY,
        spec_parse(buf) is Ok,
    ensures
        awaits_all(start(command, param).0, late_answer_events(count, n, buf)),
        run(start(command, param).0, late_answer_events(count, n, buf)).0 == at(
            start(command, param).0,
            QueryPhase::Done,
        ),
        run(start(command, param).0, late_answer_events(count, n, buf)).1.last()
            == ActionView::Finish(spec_parse(buf)),
        receives(run(start(command, param).0, late_answer_events(count, n, buf)).1) == count + 1,
{
    let q0 = start(command, param).0;
    let flush = seq![
        EventView::BlockingModeSet(Ok(())),
        EventView::Drained(Ok(0usize)),
        EventView::BlockingModeSet(Ok(())),
    ];
    let send = seq![EventView::ReportSent(Ok(())), EventView::Paused, EventView::Paused];
    let empties = empty_reads(count);
    let answer = seq![EventView::Received(Ok(n), buf), EventView::Paused];
    let resp = spec_parse(buf)->Ok_0;
    let q1 = at(q0, QueryPhase::Sending);
    let q2 = at(q0, QueryPhase::Reading { attempt: 1 });
    let q3 = at(q0, QueryPhase::Reading { attempt: (1 + count) as u8 });
    let q4 = at(q0, QueryPhase::FlushOpen { answer: Some(resp) });
    lemma_smooth_flush(q0, None);
    lemma_send_part(q1);
    lemma_empty_reads(q2, 1, count);
    lemma_answer_part(q3, (1 + count) as u8, n, buf);
    lemma_smooth_flush(q4, Some(resp));
    lemma_run_append(q3, answer, flush);
    lemma_run_append(q2, empties, answer + flush);
    lemma_run_append(q1, send, empties + (answer + flush));
    lemma_run_append(q0, flush, send + (empties + (answer + flush)));
    let acts = run(q0, late_answer_events(count, n, buf)).1;
    let a_flush = seq![ActionView::Drain, ActionView::SetBlocking(true), ActionView::Send(spec_report(command, param))];
    let a_send = seq![ActionView::Pause(SEND_PAUSE_MS), ActionView::Pause(ANSWER_PAUSE_MS), ActionView::Receive(ANSWER_TIMEOUT_MS)];
    let a_empty = Seq::new(count, |i: int| ActionView::Receive(ANSWER_TIMEOUT_MS));
    let a_answer = seq![ActionView::Pause(ANSWER_PAUSE_MS), ActionView::SetBlocking(false)];
    let a_end = seq![ActionView::Drain, ActionView::SetBlocking(true), ActionView::Finish(Ok(resp))];
    assert(acts == a_flush + (a_send + (a_empty + (a_answer + a_end))));
    assert(acts.last() == ActionView::Finish(Ok(resp)));
    lemma_receives_append(a_flush, a_send + (a_empty + (a_answer + a_end)));
    lemma_receives_append(a_send, a_empty + (a_answer + a_end));
    lemma_receives_append(a_empty, a_answer + a_end);
    lemma_receives_append(a_answer, a_end);
    lemma_receives_all(count);
    reveal_with_fuel(receives, 4);
    assert(a_flush.drop_first() =~= seq![ActionView::SetBlocking(true), ActionView::Send(spec_report(command, param))]);
    assert(a_flush.drop_first().drop_first() =~= seq![ActionView::Send(spec_report(command, param))]);
    assert(a_flush.drop_first().drop_first().drop_first() =~= Seq::<ActionView>::empty());
    assert(a_send.drop_first() =~= seq![ActionView::Pause(ANSWER_PAUSE_MS), ActionView::Receive(ANSWER_TIMEOUT_MS)]);
    assert(a_send.drop_first().drop_first() =~= seq![ActionView::Receive(ANSWER_TIMEOUT_MS)]);
    assert(a_send.drop_first().drop_first().drop_first() =~= Seq::<ActionView>::empty());
    assert(a_answer.drop_first() =~= seq![ActionView::SetBlocking(false)]);
    assert(a_answer.drop_first().drop_first() =~= Seq::<ActionView>::empty());
    assert(a_end.drop_first() =~= seq![ActionView::SetBlocking(true), ActionView::Finish(Ok(resp))]);
    assert(a_end.drop_first().drop_first() =~= seq![ActionView::Finish(Ok(resp))]);
    assert(a_end.drop_first().drop_first().drop_first() =~= Seq::<ActionView>::empty());
}

/// Counting reads over two runs of actions adds up.
proof fn lemma_receives_append(a: Seq<ActionView>, b: Seq<ActionView>)
    ensures
        receives(a + b) == receives(a) + receives(b),
    decreases a.len(),
{
    if a.len() == 0 {
        assert(a + b =~= b);
    } else {
        assert((a + b).drop_first() =~= a.drop_first() + b);
        lemma_receives_append(a.drop_first(), b);
    }
}

/// A run of reads counts as that many reads.
proof fn lemma_receives_all(count: nat)
    ensures
        receives(Seq::new(count, |i: int| ActionView::Receive(ANSWER_TIMEOUT_MS))) == count,
    decreases count,
{
    if count > 0 {
        let s = Seq::new(count, |i: int| ActionView::Receive(ANSWER_TIMEOUT_MS));
        assert(s.drop_first() =~= Seq::new((count - 1) as nat, |i: int| ActionView::Receive(ANSWER_TIMEOUT_MS)));
        lemma_receives_all((count - 1) as nat);
    }
}

} // verus!
