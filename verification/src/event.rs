//! Event subscriptions as a polling state machine.
//!
//! A stream asks for logs one window of blocks at a time. The decisions are
//! made here: when the next window may be asked for, which blocks it covers,
//! and what is handed to the consumer for each answer of the transport. The
//! caller performs the waiting and the query and hands back what came of it.
//!
//! Windows never overlap and never leave a gap: a window that was answered is
//! followed by the window that begins at the next block, and a window whose
//! query failed is asked for again. A failure is handed to the consumer as an
//! item of the stream; it does not end the stream.

use crate::abi::{
    anonymous_flag_of, decode_log, event_anonymous, event_inputs, event_kinds_of, event_log,
    event_topic, topic_of, LogParam,
};
use crate::errors::AbiError;
use crate::tokens::{all_decodable, are_decodable};
use crate::types::Address;
use ethcontract_common::abi::Event;
use vstd::prelude::*;

verus! {

/// The time between two polls unless the subscriber sets another, in
/// milliseconds.
pub const DEFAULT_POLL_INTERVAL: u64 = 5000;

/// The last block number a window can end at.
pub const LAST_BLOCK: u64 = 0xffff_ffff_ffff_fffe;

/// Which logs a subscription asks for.
#[derive(Clone, Copy, Debug, PartialEq, Eq)]
pub struct LogFilter {
    /// The contract whose logs are asked for.
    pub address: Address,
    /// The topic that identifies the event, where only one event is asked
    /// for.
    pub topic: Option<[u8; 32]>,
}

/// A log entry as the transport reports it.
#[derive(Debug, PartialEq, Eq)]
pub struct RawLog {
    /// The block that holds the entry.
    pub block_number: u64,
    /// The position of the entry within its block.
    pub log_index: u64,
    /// The topics of the entry.
    pub topics: Vec<[u8; 32]>,
    /// The data of the entry.
    pub data: Vec<u8>,
}

/// A failure handed to the consumer of a stream as one of its items.
#[derive(Debug)]
pub enum StreamError {
    /// The transport failed to answer a query; its message is passed through.
    Transport(String),
    /// A log entry does not fit the event, or the event is one that nothing
    /// can be decoded against.
    Decode(AbiError),
}

/// What the caller of a stream is to do next.
#[derive(Clone, Copy, Debug, PartialEq, Eq)]
pub enum StreamAction {
    /// Wait this many milliseconds, then ask the stream again.
    Wait(u64),
    /// Query the logs of the blocks `from_block` to `to_block`, both
    /// included, and hand the answer to the stream.
    Query { from_block: u64, to_block: u64 },
}

/// The position of a stream: what was asked for so far, and when.
#[derive(Clone, Copy, Debug, PartialEq, Eq)]
pub struct Cursor {
    /// The least time between two queries, in milliseconds.
    pub interval: u64,
    /// The first block that no answered window has covered; `None` until the
    /// stream has seen the head of the chain.
    pub next_block: Option<u64>,
    /// When the last query was issued.
    pub last_poll: Option<u64>,
    /// The last block of the window that is being queried, while a query is
    /// out.
    pub pending: Option<u64>,
}

/// The time that has passed from `since` to `now`; none if the clock went
/// back.
pub open spec fn elapsed(since: u64, now: u64) -> int {
    if now >= since {
        now - since
    } else {
        0
    }
}

/// The last block a window can end at when the chain is `head` blocks long.
pub open spec fn window_end(head: u64) -> u64 {
    if head <= LAST_BLOCK {
        head
    } else {
        LAST_BLOCK
    }
}

impl Cursor {
    /// A cursor that has asked for nothing.
    pub open spec fn start(interval: u64, from_block: Option<u64>) -> Cursor {
        Cursor { interval, next_block: from_block, last_poll: None, pending: None }
    }

    /// Whether a query may be issued at `now`: none was issued before, or the
    /// interval has passed since the last one.
    pub open spec fn due(self, now: u64) -> bool {
        match self.last_poll {
            Some(since) => elapsed(since, now) >= self.interval,
            None => true,
        }
    }

    /// The decision at time `now`, with the chain at block `head`: the action
    /// for the caller.
    ///
    /// While a query is out, and while no block is left to ask for, the
    /// caller waits one interval. A stream that was given no first block
    /// begins after the head it sees first. Before the interval has passed
    /// the caller waits for the rest of it. Otherwise the next window is
    /// queried: it begins at the first block not yet covered and ends at the
    /// head.
    pub open spec fn action(self, now: u64, head: u64) -> StreamAction {
        if self.pending is Some {
            StreamAction::Wait(self.interval)
        } else {
            match self.next_block {
                None => StreamAction::Wait(self.interval),
                Some(from_block) => if !self.due(now) {
                    StreamAction::Wait((self.interval - elapsed(self.last_poll.unwrap(), now)) as u64)
                } else if window_end(head) < from_block {
                    StreamAction::Wait(self.interval)
                } else {
                    StreamAction::Query { from_block, to_block: window_end(head) }
                },
            }
        }
    }

    /// The cursor after the decision at time `now`, with the chain at block
    /// `head`.
    pub open spec fn polled(self, now: u64, head: u64) -> Cursor {
        if self.pending is Some {
            self
        } else {
            match self.next_block {
                None => Cursor { next_block: Some((window_end(head) + 1) as u64), ..self },
                Some(_) => match self.action(now, head) {
                    StreamAction::Query { to_block, .. } => Cursor {
                        last_poll: Some(now),
                        pending: Some(to_block),
                        ..self
                    },
                    StreamAction::Wait(_) => self,
                },
            }
        }
    }

    /// The cursor after the transport answered the query that is out:
    /// an answered window is covered, a failed one is not.
    pub open spec fn delivered(self, answered: bool) -> Cursor {
        match self.pending {
            Some(to_block) => if answered && to_block <= LAST_BLOCK {
                Cursor { next_block: Some((to_block + 1) as u64), pending: None, ..self }
            } else {
                Cursor { pending: None, ..self }
            },
            None => self,
        }
    }

    /// A cursor that has asked for nothing.
    pub fn new(interval: u64, from_block: Option<u64>) -> (cursor: Cursor)
        ensures
            cursor == Cursor::start(interval, from_block),
    {
        Cursor { interval, next_block: from_block, last_poll: None, pending: None }
    }

    /// Decides what the caller is to do at time `now`, with the chain at
    /// block `head`, and moves the cursor accordingly.
    pub fn poll(&mut self, now: u64, head: u64) -> (action: StreamAction)
        ensures
            action == old(self).action(now, head),
            *final(self) == old(self).polled(now, head),
    {
        if self.pending.is_some() {
            return StreamAction::Wait(self.interval);
        }
        let to_block = if head <= LAST_BLOCK {
            head
        } else {
            LAST_BLOCK
        };
        let from_block = match self.next_block {
            Some(from_block) => from_block,
            None => {
                self.next_block = Some(to_block + 1);
                return StreamAction::Wait(self.interval);
            },
        };
        match self.last_poll {
            Some(since) => {
                let passed = if now >= since {
                    now - since
                } else {
                    0
                };
                if passed < self.interval {
                    return StreamAction::Wait(self.interval - passed);
                }
            },
            None => {},
        }
        if to_block < from_block {
            return StreamAction::Wait(self.interval);
        }
        self.last_poll = Some(now);
        self.pending = Some(to_block);
        StreamAction::Query { from_block, to_block }
    }

    /// Records that the transport answered the query that is out, or failed
    /// to.
    pub fn deliver(&mut self, answered: bool)
        ensures
            *final(self) == old(self).delivered(answered),
    {
        match self.pending {
            Some(to_block) => {
                if answered && to_block <= LAST_BLOCK {
                    self.next_block = Some(to_block + 1);
                }
                self.pending = None;
            },
            None => {},
        }
    }
}

/// The items of `items`, last first.
fn reversed<T>(items: Vec<T>) -> (turned: Vec<T>)
    ensures
        turned@.len() == items@.len(),
        forall|i: int| 0 <= i < turned@.len() ==> turned@[i] == items@[items@.len() - 1 - i],
{
    let ghost all = items@;
    let mut items = items;
    let mut turned: Vec<T> = Vec::new();
    while items.len() > 0
        invariant
            turned@.len() + items@.len() == all.len(),
            forall|i: int| 0 <= i < items@.len() ==> items@[i] == all[i],
            forall|i: int| 0 <= i < turned@.len() ==> turned@[i] == all[all.len() - 1 - i],
        decreases items@.len(),
    {
        let item = items.pop().unwrap();
        turned.push(item);
    }
    turned
}

/// A stream of the raw logs of one contract.
pub struct LogStream<W> {
    /// The transport handle the queries are sent through.
    pub web3: W,
    /// Which logs the stream asks for.
    pub filter: LogFilter,
    /// The position of the stream.
    pub cursor: Cursor,
}

impl<W> LogStream<W> {
    /// A stream of the logs that match `filter`, polled every
    /// `poll_interval` milliseconds. It begins after the head of the chain
    /// that it sees first.
    pub fn new(web3: W, filter: LogFilter, poll_interval: u64) -> (stream: Self)
        ensures
            stream.web3 == web3,
            stream.filter == filter,
            stream.cursor == Cursor::start(poll_interval, None),
    {
        LogStream { web3, filter, cursor: Cursor::new(poll_interval, None) }
    }

    /// Decides what the caller is to do at time `now`, with the chain at
    /// block `head`.
    pub fn poll(&mut self, now: u64, head: u64) -> (action: StreamAction)
        ensures
            action == old(self).cursor.action(now, head),
            final(self).cursor == old(self).cursor.polled(now, head),
            final(self).web3 == old(self).web3,
            final(self).filter == old(self).filter,
    {
        self.cursor.poll(now, head)
    }

    /// Takes the answer to the query that is out and hands back the items
    /// for the consumer: every log of the answer, in the order of the answer,
    /// or the failure of the transport as the one item. An answer that no
    /// query asked for yields nothing and changes nothing.
    pub fn deliver(&mut self, outcome: Result<Vec<RawLog>, String>) -> (items: Vec<
        Result<RawLog, StreamError>,
    >)
        ensures
            final(self).cursor == old(self).cursor.delivered(outcome is Ok),
            final(self).web3 == old(self).web3,
            final(self).filter == old(self).filter,
            old(self).cursor.pending is None ==> items@.len() == 0,
            old(self).cursor.pending is Some ==> match outcome {
                Ok(logs) => {
                    &&& items@.len() == logs@.len()
                    &&& forall|i: int|
                        0 <= i < logs@.len() ==> #[trigger] items@[i] == Ok::<
                            RawLog,
                            StreamError,
                        >(logs@[i])
                },
                Err(message) => {
                    &&& items@.len() == 1
                    &&& items@[0] matches Err(StreamError::Transport(passed))
                    &&& passed == message
                },
            },
    {
        let mut items: Vec<Result<RawLog, StreamError>> = Vec::new();
        if self.cursor.pending.is_none() {
            return items;
        }
        match outcome {
            Ok(logs) => {
                self.cursor.deliver(true);
                let ghost all = logs@;
                let mut logs = reversed(logs);
                while logs.len() > 0
                    invariant
                        items@.len() + logs@.len() == all.len(),
                        forall|i: int|
                            0 <= i < logs@.len() ==> logs@[i] == all[all.len() - 1 - i],
                        forall|i: int|
                            0 <= i < items@.len() ==> #[trigger] items@[i] == Ok::<
                                RawLog,
                                StreamError,
                            >(all[i]),
                    decreases logs@.len(),
                {
                    let log = logs.pop().unwrap();
                    items.push(Ok(log));
                }
            },
            Err(message) => {
                self.cursor.deliver(false);
                items.push(Err(StreamError::Transport(message)));
            },
        }
        items
    }
}

/// A subscription to one event of a contract, not yet started.
pub struct EventBuilder<W> {
    /// The transport handle the queries will be sent through.
    pub web3: W,
    /// The event.
    pub event: Event,
    /// Which logs the subscription asks for.
    pub filter: LogFilter,
    /// The first block to ask for; `None` begins after the head of the chain.
    pub from_block: Option<u64>,
    /// The time between two polls, in milliseconds.
    pub poll_interval: u64,
}

impl<W> EventBuilder<W> {
    /// A subscription to the occurrences of `event` in the logs of the
    /// contract at `address`. They are identified by the topic of the event,
    /// unless the event is anonymous and has none.
    pub fn new(web3: W, event: Event, address: Address) -> (builder: Self)
        ensures
            builder.web3 == web3,
            builder.event == event,
            builder.filter.address == address,
            match builder.filter.topic {
                Some(topic) => !event_anonymous(event) && topic@ == event_topic(event),
                None => event_anonymous(event),
            },
            builder.from_block is None,
            builder.poll_interval == DEFAULT_POLL_INTERVAL,
    {
        let topic = if anonymous_flag_of(&event) {
            None
        } else {
            Some(topic_of(&event))
        };
        EventBuilder {
            web3,
            event,
            filter: LogFilter { address, topic },
            from_block: None,
            poll_interval: DEFAULT_POLL_INTERVAL,
        }
    }

    /// Sets the first block to ask for.
    pub fn from_block(self, block: u64) -> (builder: Self)
        ensures
            builder.from_block == Some(block),
            builder.web3 == self.web3,
            builder.event == self.event,
            builder.filter == self.filter,
            builder.poll_interval == self.poll_interval,
    {
        let mut builder = self;
        builder.from_block = Some(block);
        builder
    }

    /// Sets the time between two polls, in milliseconds.
    pub fn poll_interval(self, interval: u64) -> (builder: Self)
        ensures
            builder.poll_interval == interval,
            builder.web3 == self.web3,
            builder.event == self.event,
            builder.filter == self.filter,
            builder.from_block == self.from_block,
    {
        let mut builder = self;
        builder.poll_interval = interval;
        builder
    }

    /// Starts the subscription.
    pub fn stream(self) -> (stream: EventStream<W>)
        ensures
            stream.event == self.event,
            stream.logs.web3 == self.web3,
            stream.logs.filter == self.filter,
            stream.logs.cursor == Cursor::start(self.poll_interval, self.from_block),
    {
        EventStream {
            event: self.event,
            logs: LogStream {
                web3: self.web3,
                filter: self.filter,
                cursor: Cursor::new(self.poll_interval, self.from_block),
            },
        }
    }
}

/// A stream of the decoded occurrences of one event.
pub struct EventStream<W> {
    /// The event.
    pub event: Event,
    /// The stream of raw logs underneath.
    pub logs: LogStream<W>,
}

impl<W> EventStream<W> {
    /// Decides what the caller is to do at time `now`, with the chain at
    /// block `head`.
    pub fn poll(&mut self, now: u64, head: u64) -> (action: StreamAction)
        ensures
            action == old(self).logs.cursor.action(now, head),
            final(self).logs.cursor == old(self).logs.cursor.polled(now, head),
            final(self).logs.web3 == old(self).logs.web3,
            final(self).logs.filter == old(self).logs.filter,
            final(self).event == old(self).event,
    {
        self.logs.poll(now, head)
    }

    /// Takes the answer to the query that is out and hands back the items
    /// for the consumer: every log of the answer, decoded as an occurrence of
    /// the event, in the order of the answer. A log that does not fit the
    /// event, and a failure of the transport, are items too.
    pub fn deliver(&mut self, outcome: Result<Vec<RawLog>, String>) -> (items: Vec<
        Result<Vec<LogParam>, StreamError>,
    >)
        ensures
            final(self).logs.cursor == old(self).logs.cursor.delivered(outcome is Ok),
            final(self).logs.web3 == old(self).logs.web3,
            final(self).logs.filter == old(self).logs.filter,
            final(self).event == old(self).event,
            old(self).logs.cursor.pending is None ==> items@.len() == 0,
            old(self).logs.cursor.pending is Some ==> match outcome {
                Ok(logs) => {
                    &&& items@.len() == logs@.len()
                    &&& forall|i: int|
                        0 <= i < logs@.len() ==> decodes_to(
                            old(self).event,
                            logs@[i],
                            #[trigger] items@[i],
                        )
                },
                Err(message) => {
                    &&& items@.len() == 1
                    &&& items@[0] matches Err(StreamError::Transport(passed))
                    &&& passed == message
                },
            },
    {
        let raw = self.logs.deliver(outcome);
        let ghost all = raw@;
        let kinds = event_kinds_of(&self.event);
        let readable = are_decodable(&kinds);
        let mut items: Vec<Result<Vec<LogParam>, StreamError>> = Vec::new();
        let mut raw = reversed(raw);
        while raw.len() > 0
            invariant
                items@.len() + raw@.len() == all.len(),
                self.event == old(self).event,
                readable == all_decodable(event_inputs(self.event)),
                forall|i: int| 0 <= i < raw@.len() ==> raw@[i] == all[all.len() - 1 - i],
                forall|i: int|
                    0 <= i < items@.len() ==> match all[i] {
                        Ok(log) => decodes_to(self.event, log, #[trigger] items@[i]),
                        Err(StreamError::Transport(message)) => items@[i] matches Err(
                            StreamError::Transport(passed),
                        ) && passed == message,
                        Err(StreamError::Decode(_)) => true,
                    },
            decreases raw@.len(),
        {
            let item = match raw.pop().unwrap() {
                Ok(log) => if !readable {
                    Err(StreamError::Decode(AbiError::InvalidData))
                } else {
                    match decode_log(&self.event, &log.topics, &log.data) {
                        Ok(entry) => Ok(entry),
                        Err(error) => Err(StreamError::Decode(AbiError::Codec(error))),
                    }
                },
                Err(error) => Err(error),
            };
            items.push(item);
        }
        items
    }
}

/// Whether `item` is what the log entry `log` decodes to as an occurrence of
/// `event`: the decoded parameters, or a decoding failure where the entry
/// does not fit the event or the event is one that nothing can be decoded
/// against.
pub open spec fn decodes_to(
    event: Event,
    log: RawLog,
    item: Result<Vec<LogParam>, StreamError>,
) -> bool {
    if !all_decodable(event_inputs(event)) {
        item matches Err(StreamError::Decode(AbiError::InvalidData))
    } else {
        match event_log(event, log.topics@, log.data@) {
            Some(entry) => item matches Ok(params) && params@ == entry,
            None => item matches Err(StreamError::Decode(AbiError::Codec(_))),
        }
    }
}

/// Spacing: two queries of a stream are never issued less than one interval
/// apart, whatever the stream is asked and told in between, as long as the
/// clock does not go back.
pub proof fn lemma_queries_spaced(
    cursor: Cursor,
    first: u64,
    head: u64,
    answered: bool,
    second: u64,
    later_head: u64,
)
    requires
        cursor.action(first, head) is Query,
        first <= second,
        cursor.polled(first, head).delivered(answered).action(second, later_head) is Query,
    ensures
        second - first >= cursor.interval,
{
}

/// No gap and no overlap: the window that follows an answered window begins
/// at the block after it, and the window that follows a failed query is the
/// first block of that query again.
pub proof fn lemma_windows_adjacent(
    cursor: Cursor,
    first: u64,
    head: u64,
    answered: bool,
    second: u64,
    later_head: u64,
)
    requires
        cursor.action(first, head) is Query,
        cursor.polled(first, head).delivered(answered).action(second, later_head) is Query,
    ensures
        ({
            let before = cursor.action(first, head);
            let after = cursor.polled(first, head).delivered(answered).action(second, later_head);
            &&& before->from_block <= before->to_block
            &&& after->from_block <= after->to_block
            &&& answered ==> after->from_block == before->to_block + 1
            &&& !answered ==> after->from_block == before->from_block
        }),
{
}

/// One query at a time: while a query is out the stream issues no other.
pub proof fn lemma_polls_sequential(cursor: Cursor, first: u64, head: u64, second: u64, later_head: u64)
    requires
        cursor.action(first, head) is Query,
    ensures
        cursor.polled(first, head).action(second, later_head) is Wait,
{
}

/// Waiting does not move the stream: a decision to wait leaves the blocks
/// that are still to be asked for as they were, once the stream has seen the
/// head of the chain.
pub proof fn lemma_waiting_keeps_position(cursor: Cursor, now: u64, head: u64)
    requires
        cursor.next_block is Some,
        cursor.action(now, head) is Wait,
    ensures
        cursor.polled(now, head) == cursor,
{
}

} // verus!
