//! Event delivery: the decisions of the pull pump, which turns periodic
//! batch fetches into one ordered stream, and of the push listener, which
//! answers each pushed payload on its own. The loops that perform the
//! fetches, waits and sends run around these decisions.
use vstd::prelude::*;
use std::time::Duration;
use crate::event::MessageOrEvent;
use crate::json::{DecodeError, Json};
use crate::time::{duration_of_millis, millis_duration};
use crate::types::CountArgs;

verus! {

/// The settings of a pull pump: the capacity of its output channel, the
/// largest batch to ask for, and the wait before fetching again after an
/// empty batch or a failed fetch.
#[derive(Clone, Copy, Debug)]
pub struct HttpAdapterEvents {
    buffer: usize,
    batch_size: Option<u32>,
    poll_interval: Duration,
}

impl HttpAdapterEvents {
    /// A channel of one, no batch limit, and 50 ms between polls.
    pub fn new() -> (r: HttpAdapterEvents)
        ensures
            r.buffer_spec() == 1,
            r.batch_size_spec() is None,
            r.poll_interval_spec() == duration_of_millis(50),
    {
        HttpAdapterEvents { buffer: 1, batch_size: None, poll_interval: millis_duration(50) }
    }

    pub closed spec fn buffer_spec(&self) -> usize {
        self.buffer
    }

    pub closed spec fn batch_size_spec(&self) -> Option<u32> {
        self.batch_size
    }

    pub closed spec fn poll_interval_spec(&self) -> Duration {
        self.poll_interval
    }

    pub fn buffer(self, buffer: usize) -> (r: HttpAdapterEvents)
        ensures
            r.buffer_spec() == buffer,
            r.batch_size_spec() == self.batch_size_spec(),
            r.poll_interval_spec() == self.poll_interval_spec(),
    {
        HttpAdapterEvents { buffer, ..self }
    }

    /// The largest batch to ask for; it must be positive and fit in an
    /// `i32`.
    pub fn batch_size(self, batch_size: Option<u32>) -> (r: HttpAdapterEvents)
        requires
            batch_size matches Some(n) ==> 0 < n <= i32::MAX,
        ensures
            r.buffer_spec() == self.buffer_spec(),
            r.batch_size_spec() == batch_size,
            r.poll_interval_spec() == self.poll_interval_spec(),
    {
        HttpAdapterEvents { batch_size, ..self }
    }

    pub fn poll_interval(self, poll_interval: Duration) -> (r: HttpAdapterEvents)
        ensures
            r.buffer_spec() == self.buffer_spec(),
            r.batch_size_spec() == self.batch_size_spec(),
            r.poll_interval_spec() == poll_interval,
    {
        HttpAdapterEvents { poll_interval, ..self }
    }

    pub fn get_buffer(&self) -> (r: usize)
        ensures
            r == self.buffer_spec(),
    {
        self.buffer
    }

    pub fn get_batch_size(&self) -> (r: Option<u32>)
        ensures
            r == self.batch_size_spec(),
    {
        self.batch_size
    }

    pub fn get_poll_interval(&self) -> (r: Duration)
        ensures
            r == self.poll_interval_spec(),
    {
        self.poll_interval
    }
}

/// What a pull pump is doing.
#[derive(Clone, Copy, Debug, PartialEq, Eq, Structural)]
pub enum PumpPhase {
    /// A fetch is in flight.
    Fetching,
    /// The items of a batch are being handed to the channel one by one.
    Delivering,
    /// The pump waits for the poll interval, or for the channel to close.
    Waiting,
    /// The channel was closed; nothing more is done.
    Stopped,
}

/// What happened since the pump's last action.
#[derive(Debug)]
pub enum PumpInput<T> {
    /// The fetch returned this batch, in the transport's order.
    Fetched(Vec<T>),
    /// The fetch failed.
    FetchFailed,
    /// The last item was accepted by the channel.
    Sent,
    /// The poll interval passed.
    WaitElapsed,
    /// The consumer closed the channel, or shutdown was requested.
    Closed,
}

/// What the pump asks to be done next.
#[derive(Debug)]
pub enum PumpAction<T> {
    /// Fetch a batch with these arguments.
    Fetch(CountArgs),
    /// Hand this item to the channel, waiting while the channel is full.
    Send(T),
    /// Wait this long, or until the channel closes.
    Wait(Duration),
    /// Report the failed fetch to the error sink, then wait this long.
    ReportAndWait(Duration),
    /// Stop for good.
    Stop,
}

/// The decisions of a pull pump. Every item fetched is sent exactly once,
/// in the order fetched; a failed fetch drops nothing and stops nothing.
pub struct PullPump<T> {
    config: HttpAdapterEvents,
    phase: PumpPhase,
    pending: Vec<T>,
    fetched: Ghost<Seq<T>>,
    sent: Ghost<Seq<T>>,
}

impl<T> PullPump<T> {
    pub closed spec fn phase_spec(&self) -> PumpPhase {
        self.phase
    }

    /// The items fetched so far, in order.
    pub closed spec fn fetched(&self) -> Seq<T> {
        self.fetched@
    }

    /// The items handed to the channel so far, in order.
    pub closed spec fn sent(&self) -> Seq<T> {
        self.sent@
    }

    /// The items of the current batch not yet handed to the channel.
    pub closed spec fn pending(&self) -> Seq<T> {
        self.pending@
    }

    pub closed spec fn config_spec(&self) -> HttpAdapterEvents {
        self.config
    }

    /// The pump's invariant: what was sent followed by what is pending is
    /// exactly what was fetched; only a delivering pump, or one stopped
    /// while delivering, holds pending items.
    pub open spec fn wf(&self) -> bool {
        &&& self.sent() + self.pending() == self.fetched()
        &&& self.pending().len() > 0 ==> (self.phase_spec() == PumpPhase::Delivering
            || self.phase_spec() == PumpPhase::Stopped)
    }

    /// Whether `input` can follow the pump's last action.
    pub open spec fn accepts(&self, input: &PumpInput<T>) -> bool {
        match input {
            PumpInput::Fetched(_) => self.phase_spec() == PumpPhase::Fetching,
            PumpInput::FetchFailed => self.phase_spec() == PumpPhase::Fetching,
            PumpInput::Sent => self.phase_spec() == PumpPhase::Delivering,
            PumpInput::WaitElapsed => self.phase_spec() == PumpPhase::Waiting,
            PumpInput::Closed => true,
        }
    }

    /// A pump that starts by fetching.
    pub fn new(config: HttpAdapterEvents) -> (r: (PullPump<T>, PumpAction<T>))
        ensures
            r.0.wf(),
            r.0.phase_spec() == PumpPhase::Fetching,
            r.0.fetched() == Seq::<T>::empty(),
            r.0.config_spec() == config,
            r.1 == PumpAction::<T>::Fetch(CountArgs { count: config.batch_size_spec() }),
    {
        let pump = PullPump {
            config,
            phase: PumpPhase::Fetching,
            pending: Vec::new(),
            fetched: Ghost(Seq::empty()),
            sent: Ghost(Seq::empty()),
        };
        proof {
            assert(pump.sent() + pump.pending() =~= pump.fetched());
        }
        (pump, PumpAction::Fetch(CountArgs { count: config.batch_size }))
    }

    pub fn phase(&self) -> (r: PumpPhase)
        ensures
            r == self.phase_spec(),
    {
        self.phase
    }

    /// Tests `accepts`.
    pub fn can_accept(&self, input: &PumpInput<T>) -> (r: bool)
        ensures
            r == self.accepts(input),
    {
        match input {
            PumpInput::Fetched(_) => self.phase == PumpPhase::Fetching,
            PumpInput::FetchFailed => self.phase == PumpPhase::Fetching,
            PumpInput::Sent => self.phase == PumpPhase::Delivering,
            PumpInput::WaitElapsed => self.phase == PumpPhase::Waiting,
            PumpInput::Closed => true,
        }
    }

    /// Hands out the next pending item, or fetches again when the batch is
    /// done.
    fn advance(&mut self) -> (r: PumpAction<T>)
        requires
            old(self).wf(),
            old(self).phase_spec() == PumpPhase::Delivering,
        ensures
            final(self).wf(),
            final(self).fetched() == old(self).fetched(),
            final(self).config_spec() == old(self).config_spec(),
            old(self).pending().len() > 0 ==> {
                &&& r == PumpAction::Send(old(self).pending()[0])
                &&& final(self).sent() == old(self).sent().push(old(self).pending()[0])
                &&& final(self).pending() == old(self).pending().drop_first()
                &&& final(self).phase_spec() == PumpPhase::Delivering
            },
            old(self).pending().len() == 0 ==> {
                &&& r == PumpAction::<T>::Fetch(CountArgs { count: old(self).config_spec().batch_size_spec() })
                &&& final(self).sent() == old(self).sent()
                &&& final(self).phase_spec() == PumpPhase::Fetching
            },
    {
        if self.pending.len() > 0 {
            let item = self.pending.remove(0);
            proof {
                let old_sent = self.sent@;
                self.sent = Ghost(old_sent.push(item));
                assert(self.sent@ + self.pending@ =~= self.fetched@);
            }
            PumpAction::Send(item)
        } else {
            self.phase = PumpPhase::Fetching;
            PumpAction::Fetch(CountArgs { count: self.config.batch_size })
        }
    }

    /// The next action after `input`. A non-empty batch is handed out item
    /// by item before the next fetch; an empty batch waits; a failed fetch
    /// is reported and waits; a closed channel stops the pump.
    pub fn step(&mut self, input: PumpInput<T>) -> (r: PumpAction<T>)
        requires
            old(self).wf(),
            old(self).accepts(&input),
        ensures
            final(self).wf(),
            final(self).config_spec() == old(self).config_spec(),
            input matches PumpInput::Fetched(batch) ==> final(self).fetched() == old(self).fetched()
                + batch@,
            input matches PumpInput::Fetched(batch) ==> (batch@.len() == 0 ==> r
                == PumpAction::<T>::Wait(old(self).config_spec().poll_interval_spec())
                && final(self).phase_spec() == PumpPhase::Waiting),
            input matches PumpInput::Fetched(batch) ==> (batch@.len() > 0 ==> r == PumpAction::Send(
                batch@[0],
            ) && final(self).sent() == old(self).sent().push(batch@[0]) && final(self).pending()
                == batch@.drop_first() && final(self).phase_spec() == PumpPhase::Delivering),
            match input {
                PumpInput::Fetched(_) => true,
                PumpInput::FetchFailed => {
                    &&& r == PumpAction::<T>::ReportAndWait(old(self).config_spec().poll_interval_spec())
                    &&& final(self).fetched() == old(self).fetched()
                    &&& final(self).sent() == old(self).sent()
                    &&& final(self).phase_spec() == PumpPhase::Waiting
                },
                PumpInput::Sent => {
                    &&& final(self).fetched() == old(self).fetched()
                    &&& old(self).pending().len() > 0 ==> {
                        &&& r == PumpAction::Send(old(self).pending()[0])
                        &&& final(self).sent() == old(self).sent().push(old(self).pending()[0])
                        &&& final(self).pending() == old(self).pending().drop_first()
                        &&& final(self).phase_spec() == PumpPhase::Delivering
                    }
                    &&& old(self).pending().len() == 0 ==> {
                        &&& r == PumpAction::<T>::Fetch(CountArgs { count: old(self).config_spec().batch_size_spec() })
                        &&& final(self).phase_spec() == PumpPhase::Fetching
                    }
                },
                PumpInput::WaitElapsed => {
                    &&& r == PumpAction::<T>::Fetch(CountArgs { count: old(self).config_spec().batch_size_spec() })
                    &&& final(self).fetched() == old(self).fetched()
                    &&& final(self).sent() == old(self).sent()
                    &&& final(self).phase_spec() == PumpPhase::Fetching
                },
                PumpInput::Closed => {
                    &&& r == PumpAction::<T>::Stop
                    &&& final(self).phase_spec() == PumpPhase::Stopped
                    &&& final(self).fetched() == old(self).fetched()
                    &&& final(self).sent() == old(self).sent()
                },
            },
    {
        match input {
            PumpInput::Fetched(batch) => {
                proof {
                    let f = self.fetched@;
                    self.fetched = Ghost(f + batch@);
                }
                assert(self.pending@.len() == 0);
                if batch.len() == 0 {
                    self.phase = PumpPhase::Waiting;
                    proof {
                        assert(self.sent@ + self.pending@ =~= self.fetched@);
                    }
                    assert(self.fetched@ == old(self).fetched@ + batch@);
                    PumpAction::Wait(self.config.poll_interval)
                } else {
                    let ghost b = batch@;
                    self.pending = batch;
                    self.phase = PumpPhase::Delivering;
                    proof {
                        assert(self.sent@ + self.pending@ =~= self.fetched@);
                    }
                    let r = self.advance();
                    assert(self.pending@ == b.drop_first());
                    assert(self.fetched@ == old(self).fetched@ + b);
                    assert(r == PumpAction::Send(b[0]));
                    assert(self.sent@ == old(self).sent@.push(b[0]));
                    assert(self.phase == PumpPhase::Delivering);
                    r
                }
            },
            PumpInput::FetchFailed => {
                self.phase = PumpPhase::Waiting;
                PumpAction::ReportAndWait(self.config.poll_interval)
            },
            PumpInput::Sent => self.advance(),
            PumpInput::WaitElapsed => {
                self.phase = PumpPhase::Fetching;
                PumpAction::Fetch(CountArgs { count: self.config.batch_size })
            },
            PumpInput::Closed => {
                self.phase = PumpPhase::Stopped;
                PumpAction::Stop
            },
        }
    }
}

/// The push listener: takes each pushed payload on its own.
#[derive(Clone, Copy, Debug)]
pub struct WebhookAdapterEvents(());

/// The largest body, in bytes, that the push listener reads.
pub const BODY_LIMIT: u64 = 0x10000;

/// The status of an accepted payload: no content.
pub const STATUS_NO_CONTENT: u16 = 204;

/// The status of a malformed payload: bad request.
pub const STATUS_BAD_REQUEST: u16 = 400;

impl WebhookAdapterEvents {
    pub fn new() -> (r: WebhookAdapterEvents) {
        WebhookAdapterEvents(())
    }

    /// Decodes one pushed payload: a decodable payload is forwarded and
    /// answered with no content; any other is rejected as a bad request,
    /// with its error for the error sink.
    pub fn receive(&self, payload: &Json) -> (r: (Result<MessageOrEvent, DecodeError>, u16))
        ensures
            r.0 is Ok <==> MessageOrEvent::wire_ok(*payload),
            r.0 matches Ok(x) ==> MessageOrEvent::wire_matches(*payload, x),
            r.1 == if r.0 is Ok {
                STATUS_NO_CONTENT
            } else {
                STATUS_BAD_REQUEST
            },
    {
        let decoded = MessageOrEvent::decode(payload);
        let status = match &decoded {
            Ok(_) => STATUS_NO_CONTENT,
            Err(_) => STATUS_BAD_REQUEST,
        };
        (decoded, status)
    }
}

} // verus!
