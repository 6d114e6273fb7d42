use vstd::prelude::*;

use core::time::Duration;

pub use crate::error::LoggerError;
use crate::levels::LogLevel;

verus! {

/// A log line as CloudWatch receives it: its text and its time in
/// milliseconds since the Unix epoch.
pub struct LogEvent {
    pub message: String,
    pub timestamp: i64,
}

/// A log line in specifications: its text and its timestamp.
pub type EntryView = (Seq<char>, i64);

impl View for LogEvent {
    type V = EntryView;

    open spec fn view(&self) -> EntryView {
        (self.message@, self.timestamp)
    }
}

/// The views of a sequence of log events.
pub open spec fn entries_view(events: Seq<LogEvent>) -> Seq<EntryView> {
    events.map_values(|e: LogEvent| e@)
}

/// The view of an optional string.
pub open spec fn opt_text(o: Option<String>) -> Option<Seq<char>> {
    match o {
        Some(s) => Some(s@),
        None => None,
    }
}

/// One `PutLogEvents` call: a batch of events for a log stream, and the
/// sequence token that the stream expects next.
pub struct PutLogEvents {
    pub log_events: Vec<LogEvent>,
    pub log_group_name: String,
    pub log_stream_name: String,
    pub sequence_token: Option<String>,
}

pub struct PutView {
    pub log_events: Seq<EntryView>,
    pub log_group_name: Seq<char>,
    pub log_stream_name: Seq<char>,
    pub sequence_token: Option<Seq<char>>,
}

impl View for PutLogEvents {
    type V = PutView;

    open spec fn view(&self) -> PutView {
        PutView {
            log_events: entries_view(self.log_events@),
            log_group_name: self.log_group_name@,
            log_stream_name: self.log_stream_name@,
            sequence_token: opt_text(self.sequence_token),
        }
    }
}

/// What the background process observes while it waits for messages.
pub enum Event {
    /// A message arrived, at the given time (milliseconds since the Unix epoch).
    Received(LogLevel, i64),
    /// The flush interval elapsed without a message.
    TimedOut,
    /// Every `Logger` is gone: the channel is closed.
    Closed,
}

/// What the background process does after an event: the batch it sends, if
/// any, and whether it stops afterwards.
pub struct Step {
    pub put: Option<PutLogEvents>,
    pub stop: bool,
}

pub open spec fn opt_put_view(put: Option<PutLogEvents>) -> Option<PutView> {
    match put {
        Some(p) => Some(p@),
        None => None,
    }
}

/// The line that a message becomes in CloudWatch, if it is one (a flush
/// request is not).
pub open spec fn entry_text(level: LogLevel) -> Option<Seq<char>> {
    match level {
        LogLevel::Info(m) => Some("INFO: "@ + m@),
        LogLevel::Error(m) => Some("ERROR: "@ + m@),
        LogLevel::Panic(m) => Some(m@),
        LogLevel::Flush => None,
    }
}

/// The batching rule. From the pending lines, the batch size and an event,
/// the new pending lines and the lines sent at once (empty when nothing is
/// sent). An informational line waits until the batch is full; an error or a
/// panic is sent at once with everything pending; a flush request, an
/// elapsed interval and the closing of the channel send what is pending.
pub open spec fn batch_step(pending: Seq<EntryView>, max_log_count: nat, event: Event) -> (Seq<EntryView>, Seq<EntryView>) {
    match event {
        Event::Received(level, timestamp) => match level {
            LogLevel::Info(m) => {
                let grown = pending.push(("INFO: "@ + m@, timestamp));
                if grown.len() >= max_log_count {
                    (Seq::empty(), grown)
                } else {
                    (grown, Seq::empty())
                }
            },
            LogLevel::Error(m) => (Seq::empty(), pending.push(("ERROR: "@ + m@, timestamp))),
            LogLevel::Panic(m) => (Seq::empty(), pending.push((m@, timestamp))),
            LogLevel::Flush => (Seq::empty(), pending),
        },
        Event::TimedOut => (Seq::empty(), pending),
        Event::Closed => (Seq::empty(), pending),
    }
}

/// The state of the background process in specifications.
pub struct HandleView {
    pub pending: Seq<EntryView>,
    pub sequence_token: Option<Seq<char>>,
    pub log_group_name: Seq<char>,
    pub log_stream_name: Seq<char>,
    pub max_log_count: nat,
}

/// The call that sends the given lines for the stream of `h`, with its token.
pub open spec fn put_of(h: HandleView, lines: Seq<EntryView>) -> PutView {
    PutView {
        log_events: lines,
        log_group_name: h.log_group_name,
        log_stream_name: h.log_stream_name,
        sequence_token: h.sequence_token,
    }
}

/// The state after an event, and the `PutLogEvents` call made, if any. A
/// call carries the current sequence token, which is then spent until the
/// reply brings the next one.
pub open spec fn after_event(h: HandleView, event: Event) -> (HandleView, Option<PutView>) {
    let (pending, sent) = batch_step(h.pending, h.max_log_count, event);
    if sent.len() > 0 {
        (
            HandleView {
                pending,
                sequence_token: None,
                log_group_name: h.log_group_name,
                log_stream_name: h.log_stream_name,
                max_log_count: h.max_log_count,
            },
            Some(
                PutView {
                    log_events: sent,
                    log_group_name: h.log_group_name,
                    log_stream_name: h.log_stream_name,
                    sequence_token: h.sequence_token,
                },
            ),
        )
    } else {
        (
            HandleView {
                pending,
                sequence_token: h.sequence_token,
                log_group_name: h.log_group_name,
                log_stream_name: h.log_stream_name,
                max_log_count: h.max_log_count,
            },
            None,
        )
    }
}

/// The state after the reply to a `PutLogEvents` call: on success the
/// sequence token is the one the reply names; on failure nothing changes.
pub open spec fn after_put(h: HandleView, outcome: Result<Option<String>, ()>) -> HandleView {
    match outcome {
        Ok(next) => HandleView {
            pending: h.pending,
            sequence_token: opt_text(next),
            log_group_name: h.log_group_name,
            log_stream_name: h.log_stream_name,
            max_log_count: h.max_log_count,
        },
        Err(_) => h,
    }
}

/// The background process that batches log lines and sends them to one
/// CloudWatch log stream.
pub struct LoggerHandle {
    log_batch: Vec<LogEvent>,
    sequence_token: Option<String>,
    log_group_name: String,
    log_stream_name: String,
    max_log_count: usize,
    interval: Duration,
}

impl View for LoggerHandle {
    type V = HandleView;

    open spec fn view(&self) -> HandleView {
        self.handle_view()
    }
}

impl LoggerHandle {
    pub closed spec fn handle_view(&self) -> HandleView {
        HandleView {
            pending: entries_view(self.log_batch@),
            sequence_token: opt_text(self.sequence_token),
            log_group_name: self.log_group_name@,
            log_stream_name: self.log_stream_name@,
            max_log_count: self.max_log_count as nat,
        }
    }

    /// The time the process waits for a message before it sends what is pending.
    pub closed spec fn spec_interval(&self) -> Duration {
        self.interval
    }

    /// The process is well formed: the batch size is positive and fewer
    /// lines than a full batch are pending.
    pub open spec fn wf(&self) -> bool {
        &&& 1 <= self@.max_log_count
        &&& self@.pending.len() < self@.max_log_count
    }

    /// A process for the given stream with nothing pending, that sends at most
    /// `batch_size` lines per call and starts from the given sequence token.
    pub fn new(
        log_group_name: String,
        log_stream_name: String,
        batch_size: usize,
        interval: Duration,
        sequence_token: Option<String>,
    ) -> (handle: Self)
        requires
            batch_size >= 1,
        ensures
            handle.wf(),
            handle@ == (HandleView {
                pending: Seq::empty(),
                sequence_token: opt_text(sequence_token),
                log_group_name: log_group_name@,
                log_stream_name: log_stream_name@,
                max_log_count: batch_size as nat,
            }),
            handle.spec_interval() == interval,
    {
        let handle = LoggerHandle {
            log_batch: Vec::new(),
            sequence_token,
            log_group_name,
            log_stream_name,
            max_log_count: batch_size,
            interval,
        };
        assert(entries_view(handle.log_batch@) =~= Seq::<EntryView>::empty());
        handle
    }

    /// The flush interval.
    pub fn interval(&self) -> (interval: Duration)
        ensures
            interval == self.spec_interval(),
    {
        self.interval
    }

    /// The number of lines waiting to be sent.
    pub fn pending_count(&self) -> (n: usize)
        ensures
            n == self@.pending.len(),
    {
        self.log_batch.len()
    }

    /// Builds the `PutLogEvents` call for the given batch. The call carries the
    /// current sequence token, which is spent: it stays empty until
    /// `complete_put` records the next one.
    pub fn send_to_cloudwatch(&mut self, log_batch: Vec<LogEvent>) -> (put: PutLogEvents)
        ensures
            put@ == (PutView {
                log_events: entries_view(log_batch@),
                log_group_name: old(self)@.log_group_name,
                log_stream_name: old(self)@.log_stream_name,
                sequence_token: old(self)@.sequence_token,
            }),
            final(self)@ == (HandleView { sequence_token: None, ..old(self)@ }),
            final(self).spec_interval() == old(self).spec_interval(),
    {
        let mut sequence_token: Option<String> = None;
        core::mem::swap(&mut sequence_token, &mut self.sequence_token);
        PutLogEvents {
            log_events: log_batch,
            log_group_name: self.log_group_name.clone(),
            log_stream_name: self.log_stream_name.clone(),
            sequence_token,
        }
    }

    /// Takes every pending line out of the process.
    fn take_batch(&mut self) -> (batch: Vec<LogEvent>)
        ensures
            batch@ == old(self).log_batch@,
            final(self).log_batch@ == Seq::<LogEvent>::empty(),
            final(self).sequence_token == old(self).sequence_token,
            final(self).log_group_name == old(self).log_group_name,
            final(self).log_stream_name == old(self).log_stream_name,
            final(self).max_log_count == old(self).max_log_count,
            final(self).interval == old(self).interval,
    {
        let mut batch: Vec<LogEvent> = Vec::new();
        core::mem::swap(&mut batch, &mut self.log_batch);
        batch
    }

    /// Adds one line to the pending batch.
    fn push_entry(&mut self, message: String, timestamp: i64)
        requires
            old(self).log_batch@.len() < old(self).max_log_count,
        ensures
            final(self).log_batch@ == old(self).log_batch@.push(LogEvent { message, timestamp }),
            final(self).sequence_token == old(self).sequence_token,
            final(self).log_group_name == old(self).log_group_name,
            final(self).log_stream_name == old(self).log_stream_name,
            final(self).max_log_count == old(self).max_log_count,
            final(self).interval == old(self).interval,
    {
        self.log_batch.push(LogEvent { message, timestamp });
    }

    /// Reacts to one event of the background loop: adds the message to the
    /// batch and decides, by `batch_step`, whether a `PutLogEvents` call goes
    /// out now; stops once the channel is closed.
    pub fn handle_event(&mut self, event: Event) -> (step: Step)
        requires
            old(self).wf(),
        ensures
            final(self).wf(),
            final(self)@ == after_event(old(self)@, event).0,
            opt_put_view(step.put) == after_event(old(self)@, event).1,
            step.stop == (event is Closed),
            match event {
                Event::Received(LogLevel::Info(m), timestamp) => if old(self)@.pending.len() + 1 >= old(self)@.max_log_count {
                    &&& final(self)@.pending.len() == 0
                    &&& opt_put_view(step.put) == Some(put_of(old(self)@, old(self)@.pending.push(("INFO: "@ + m@, timestamp))))
                } else {
                    &&& final(self)@.pending == old(self)@.pending.push(("INFO: "@ + m@, timestamp))
                    &&& step.put is None
                },
                Event::Received(LogLevel::Error(m), timestamp) => {
                    &&& final(self)@.pending.len() == 0
                    &&& opt_put_view(step.put) == Some(put_of(old(self)@, old(self)@.pending.push(("ERROR: "@ + m@, timestamp))))
                },
                Event::Received(LogLevel::Panic(m), timestamp) => {
                    &&& final(self)@.pending.len() == 0
                    &&& opt_put_view(step.put) == Some(put_of(old(self)@, old(self)@.pending.push((m@, timestamp))))
                },
                _ => {
                    &&& final(self)@.pending.len() == 0
                    &&& old(self)@.pending.len() > 0 ==> opt_put_view(step.put) == Some(put_of(old(self)@, old(self)@.pending))
                    &&& old(self)@.pending.len() == 0 ==> step.put is None
                },
            },
            final(self).spec_interval() == old(self).spec_interval(),
    {
        let ghost old_batch = self.log_batch@;
        let stop = match &event {
            Event::Closed => true,
            _ => false,
        };
        let send_now: bool = match event {
            Event::Received(level, timestamp) => match level {
                LogLevel::Info(message) => {
                    self.push_entry(prepend_to_string("INFO: ", message), timestamp);
                    self.log_batch.len() >= self.max_log_count
                },
                LogLevel::Error(message) => {
                    self.push_entry(prepend_to_string("ERROR: ", message), timestamp);
                    true
                },
                LogLevel::Panic(message) => {
                    self.push_entry(message, timestamp);
                    true
                },
                LogLevel::Flush => self.log_batch.len() > 0,
            },
            Event::TimedOut => self.log_batch.len() > 0,
            Event::Closed => self.log_batch.len() > 0,
        };
        proof {
            if self.log_batch@.len() == old_batch.len() + 1 {
                let ev = self.log_batch@.last();
                assert(entries_view(self.log_batch@) =~= entries_view(old_batch).push(ev@));
            }
        }
        // what the rule sends now, and what it keeps, in terms of the grown batch
        let ghost grown = entries_view(self.log_batch@);
        let ghost rule = batch_step(entries_view(old_batch), old(self).max_log_count as nat, event);
        assert(send_now ==> rule.0 =~= Seq::<EntryView>::empty());
        assert(send_now ==> rule.1 =~= grown);
        assert(!send_now ==> rule.0 =~= grown);
        assert(!send_now ==> rule.1.len() == 0);
        if send_now {
            let batch = self.take_batch();
            assert(entries_view(self.log_batch@) =~= Seq::<EntryView>::empty());
            let put = self.send_to_cloudwatch(batch);
            Step { put: Some(put), stop }
        } else {
            Step { put: None, stop }
        }
    }

    /// Records the reply to a `PutLogEvents` call: on success the next sequence
    /// token; a failed call is reported as `InvalidLogStream`.
    pub fn complete_put(&mut self, outcome: Result<Option<String>, ()>) -> (res: Result<(), LoggerError>)
        requires
            old(self).wf(),
        ensures
            final(self).wf(),
            final(self)@ == after_put(old(self)@, outcome),
            final(self).spec_interval() == old(self).spec_interval(),
            res is Ok <==> outcome is Ok,
            res matches Err(e) ==> e is InvalidLogStream,
    {
        match outcome {
            Ok(next) => {
                self.sequence_token = next;
                Ok(())
            },
            Err(_) => Err(LoggerError::InvalidLogStream),
        }
    }
}

/// Puts `base` in front of `owned_string`.
pub fn prepend_to_string(base: &str, owned_string: String) -> (joined: String)
    ensures
        joined@ == base@ + owned_string@,
{
    String::from_str(base).concat(owned_string.as_str())
}

/// The `DescribeLogStreams` query that looks up a stream's sequence token:
/// the streams of the group whose names start with the stream's name.
pub struct DescribeLogStreamsQuery {
    pub log_group_name: String,
    pub log_stream_name_prefix: Option<String>,
}

/// The part of one described log stream that the logger reads.
pub struct LogStreamInfo {
    pub log_stream_name: Option<String>,
    pub upload_sequence_token: Option<String>,
}

/// Whether a described stream is the stream of the given name.
pub open spec fn is_stream_named(info: LogStreamInfo, name: Seq<char>) -> bool {
    opt_text(info.log_stream_name) == Some(name)
}

/// The position of the first stream of the given name in a list, if any.
pub open spec fn first_named(streams: Seq<LogStreamInfo>, name: Seq<char>) -> Option<int> {
    if exists|i: int| 0 <= i < streams.len() && is_stream_named(#[trigger] streams[i], name) {
        Some(choose|i: int| 0 <= i < streams.len() && is_stream_named(#[trigger] streams[i], name)
            && forall|j: int| 0 <= j < i ==> !is_stream_named(#[trigger] streams[j], name))
    } else {
        None
    }
}

/// The part of a `DescribeLogStreams` reply that the logger reads.
pub struct DescribeLogStreamsReply {
    pub log_streams: Option<Vec<LogStreamInfo>>,
}

/// Builds the query for the sequence token of the given stream.
pub fn describe_log_streams_query(log_group_name: String, log_stream_name: String) -> (query: DescribeLogStreamsQuery)
    ensures
        query.log_group_name@ == log_group_name@,
        opt_text(query.log_stream_name_prefix) == Some(log_stream_name@),
{
    DescribeLogStreamsQuery { log_group_name, log_stream_name_prefix: Some(log_stream_name) }
}

impl LoggerHandle {
    /// The sequence token of the named log stream, from the outcome of the
    /// `DescribeLogStreams` call (its reply, or the debug text of its error).
    /// The query lists the streams whose names start with the name, so the
    /// token is that of the first listed stream of exactly that name. A failed
    /// call is `DescribeLogStreamError`; a reply that lists no stream of that
    /// name is `InvalidLogStream`.
    pub fn get_sequence_token(
        log_stream_name: &str,
        outcome: Result<DescribeLogStreamsReply, String>,
    ) -> (res: Result<Option<String>, LoggerError>)
        ensures
            match outcome {
                Err(text) => res == Err::<Option<String>, LoggerError>(LoggerError::DescribeLogStreamError(text)),
                Ok(reply) => match reply.log_streams {
                    Some(streams) => match first_named(streams@, log_stream_name@) {
                        Some(i) => res == Ok::<Option<String>, LoggerError>(streams@[i].upload_sequence_token),
                        None => res matches Err(e) && e is InvalidLogStream,
                    },
                    None => res matches Err(e) && e is InvalidLogStream,
                },
            },
    {
        match outcome {
            Err(text) => Err(LoggerError::DescribeLogStreamError(text)),
            Ok(reply) => match reply.log_streams {
                Some(mut streams) => {
                    let ghost all = streams@;
                    let wanted = String::from_str(log_stream_name);
                    let mut i: usize = 0;
                    #[verifier::loop_isolation(false)]
                    while i < streams.len()
                        invariant
                            streams@ == all,
                            wanted@ == log_stream_name@,
                            0 <= i <= all.len(),
                            forall|j: int| 0 <= j < i ==> !is_stream_named(#[trigger] all[j], log_stream_name@),
                        decreases all.len() - i,
                    {
                        let named = match &streams[i].log_stream_name {
                            Some(name) => name.eq(&wanted),
                            None => false,
                        };
                        if named {
                            assert(is_stream_named(all[i as int], log_stream_name@));
                            let found = streams.remove(i);
                            assert(first_named(all, log_stream_name@) == Some(i as int));
                            return Ok(found.upload_sequence_token);
                        }
                        i = i + 1;
                    }
                    Err(LoggerError::InvalidLogStream)
                },
                None => Err(LoggerError::InvalidLogStream),
            },
        }
    }

    /// The log group and stream names read from the environment (`None` for a
    /// variable that is unset or unreadable). The group is checked first.
    pub fn log_names_from_env(log_group_name: Option<String>, log_stream_name: Option<String>) -> (res: Result<(String, String), LoggerError>)
        ensures
            match log_group_name {
                None => res matches Err(e) && e is InvalidLogGroup,
                Some(group) => match log_stream_name {
                    None => res matches Err(e) && e is InvalidLogStream,
                    Some(stream) => res == Ok::<(String, String), LoggerError>((group, stream)),
                },
            },
    {
        match log_group_name {
            None => Err(LoggerError::InvalidLogGroup),
            Some(group) => match log_stream_name {
                None => Err(LoggerError::InvalidLogStream),
                Some(stream) => Ok((group, stream)),
            },
        }
    }
}

/// The line logged for a panic.
pub open spec fn panic_text(payload: Option<Seq<char>>, location: Seq<char>) -> Seq<char> {
    let what = match payload {
        Some(p) => p,
        None => "Panic with unknown payload"@,
    };
    "PANIC at '"@ + location + "': "@ + what
}

/// The message logged for a panic, from its payload (when it is a string) and
/// the rendering of its location.
pub fn panic_message(payload: Option<&str>, location: &str) -> (message: String)
    ensures
        message@ == panic_text(
            match payload {
                Some(p) => Some(p@),
                None => None,
            },
            location@,
        ),
        payload matches Some(p) ==> message@ == "PANIC at '"@ + location@ + "': "@ + p@,
        payload is None ==> message@ == "PANIC at '"@ + location@ + "': "@ + "Panic with unknown payload"@,
{
    let what: &str = match payload {
        Some(p) => p,
        None => "Panic with unknown payload",
    };
    String::from_str("PANIC at '").concat(location).concat("': ").concat(what)
}

} // verus!
