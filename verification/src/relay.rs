//! The output relay: for each event from a sidecar's output channel it
//! produces at most one log line, standard-output chunks going to the
//! informational sink and standard-error chunks and channel errors to the
//! error sink, each chunk decoded lossily. Chunks of one stream keep their
//! arrival order; the relay stops writing exactly when the stream ends.

use vstd::prelude::*;

use crate::decode::lossy_decode;
use crate::decode::lossy_string;
use crate::event::LogAction;
use crate::event::SidecarEvent;

verus! {

/// The prefix the relay puts before a channel-level error message.
pub open spec fn channel_error_prefix() -> Seq<char> {
    "Error: "@
}

/// The lines one event contributes to the informational sink: one for a
/// standard-output chunk, none otherwise.
pub open spec fn event_info_lines(event: SidecarEvent) -> Seq<Seq<char>> {
    match event {
        SidecarEvent::Stdout(bytes) => seq![lossy_decode(bytes@)],
        _ => Seq::empty(),
    }
}

/// The lines one event contributes to the error sink: one for a
/// standard-error chunk or a channel error, none otherwise.
pub open spec fn event_error_lines(event: SidecarEvent) -> Seq<Seq<char>> {
    match event {
        SidecarEvent::Stderr(bytes) => seq![lossy_decode(bytes@)],
        SidecarEvent::ChannelError(msg) => seq![channel_error_prefix() + msg@],
        _ => Seq::empty(),
    }
}

/// All lines the relay writes to the informational sink while draining the
/// given events, in write order.
pub open spec fn info_lines(events: Seq<SidecarEvent>) -> Seq<Seq<char>>
    decreases events.len(),
{
    if events.len() == 0 {
        Seq::empty()
    } else {
        info_lines(events.drop_last()) + event_info_lines(events.last())
    }
}

/// All lines the relay writes to the error sink while draining the given
/// events, in write order.
pub open spec fn error_lines(events: Seq<SidecarEvent>) -> Seq<Seq<char>>
    decreases events.len(),
{
    if events.len() == 0 {
        Seq::empty()
    } else {
        error_lines(events.drop_last()) + event_error_lines(events.last())
    }
}

/// The byte chunks the child wrote to its standard output, in arrival order.
pub open spec fn stdout_chunks(events: Seq<SidecarEvent>) -> Seq<Seq<u8>>
    decreases events.len(),
{
    if events.len() == 0 {
        Seq::empty()
    } else {
        stdout_chunks(events.drop_last()) + (match events.last() {
            SidecarEvent::Stdout(bytes) => seq![bytes@],
            _ => Seq::empty(),
        })
    }
}

/// The byte chunks the child wrote to its standard error, in arrival order.
pub open spec fn stderr_chunks(events: Seq<SidecarEvent>) -> Seq<Seq<u8>>
    decreases events.len(),
{
    if events.len() == 0 {
        Seq::empty()
    } else {
        stderr_chunks(events.drop_last()) + (match events.last() {
            SidecarEvent::Stderr(bytes) => seq![bytes@],
            _ => Seq::empty(),
        })
    }
}

/// Law: the relay keeps per-stream order and is insensitive to where the
/// stream is split. Draining `first` followed by `rest` writes exactly the
/// lines of `first` followed by the lines of `rest`, in both sinks: a line
/// never overtakes an earlier line of its own stream, and once the stream
/// has ended no event can add to what was written.
pub proof fn lemma_relay_append(first: Seq<SidecarEvent>, rest: Seq<SidecarEvent>)
    ensures
        info_lines(first + rest) == info_lines(first) + info_lines(rest),
        error_lines(first + rest) == error_lines(first) + error_lines(rest),
    decreases rest.len(),
{
    if rest.len() == 0 {
        assert(first + rest =~= first);
        assert(info_lines(first) + info_lines(rest) =~= info_lines(first));
        assert(error_lines(first) + error_lines(rest) =~= error_lines(first));
    } else {
        lemma_relay_append(first, rest.drop_last());
        assert((first + rest).drop_last() =~= first + rest.drop_last());
        assert(info_lines(first + rest) =~= info_lines(first) + info_lines(rest));
        assert(error_lines(first + rest) =~= error_lines(first) + error_lines(rest));
    }
}

/// Law: the informational sink holds exactly the child's standard-output
/// chunks, lossily decoded, in the order they arrived — nothing is dropped,
/// nothing else appears there, and a malformed chunk still yields its line.
pub proof fn lemma_info_lines_decode_stdout(events: Seq<SidecarEvent>)
    ensures
        info_lines(events) == stdout_chunks(events).map_values(|bytes: Seq<u8>| lossy_decode(bytes)),
    decreases events.len(),
{
    if events.len() > 0 {
        lemma_info_lines_decode_stdout(events.drop_last());
    }
    assert(info_lines(events) =~= stdout_chunks(events).map_values(
        |bytes: Seq<u8>| lossy_decode(bytes),
    ));
}

/// Law: when the channel itself reports no error, the error sink holds
/// exactly the child's standard-error chunks, lossily decoded, in the order
/// they arrived. (A channel-level error adds its own diagnostic line to the
/// same sink, so the equality is stated for streams without such events.)
pub proof fn lemma_error_lines_decode_stderr(events: Seq<SidecarEvent>)
    requires
        forall|i: int| 0 <= i < events.len() ==> !(events[i] is ChannelError),
    ensures
        error_lines(events) == stderr_chunks(events).map_values(|bytes: Seq<u8>| lossy_decode(bytes)),
    decreases events.len(),
{
    if events.len() > 0 {
        lemma_error_lines_decode_stderr(events.drop_last());
    }
    assert(error_lines(events) =~= stderr_chunks(events).map_values(
        |bytes: Seq<u8>| lossy_decode(bytes),
    ));
}

/// Law: the relay writes at most one line per event, over both sinks
/// together; in particular it performs no further writes once the event
/// stream is exhausted.
pub proof fn lemma_relay_write_bound(events: Seq<SidecarEvent>)
    ensures
        info_lines(events).len() + error_lines(events).len() <= events.len(),
    decreases events.len(),
{
    if events.len() > 0 {
        lemma_relay_write_bound(events.drop_last());
    }
}

/// Decide what one event turns into: a standard-output chunk becomes an
/// informational line, a standard-error chunk an error line, a channel error
/// a prefixed error line, and anything else is ignored. Malformed bytes are
/// decoded lossily, never rejected.
pub fn relay_action(event: &SidecarEvent) -> (action: LogAction)
    ensures
        match *event {
            SidecarEvent::Stdout(bytes) => (action matches LogAction::InfoLine(line)
                && line@ == lossy_decode(bytes@)),
            SidecarEvent::Stderr(bytes) => (action matches LogAction::ErrorLine(line)
                && line@ == lossy_decode(bytes@)),
            SidecarEvent::ChannelError(msg) => (action matches LogAction::ErrorLine(line)
                && line@ == channel_error_prefix() + msg@),
            SidecarEvent::Other => action is Skip,
        },
{
    match event {
        SidecarEvent::Stdout(bytes) => LogAction::InfoLine(lossy_string(bytes.as_slice())),
        SidecarEvent::Stderr(bytes) => LogAction::ErrorLine(lossy_string(bytes.as_slice())),
        SidecarEvent::ChannelError(msg) => {
            let mut line = String::from_str("Error: ");
            line.append(msg.as_str());
            LogAction::ErrorLine(line)
        },
        SidecarEvent::Other => LogAction::Skip,
    }
}

/// Everything the relay writes while draining one event stream: the lines of
/// the informational sink and of the error sink, each in write order.
#[derive(Debug, PartialEq, Eq)]
pub struct RelayLog {
    /// Lines written to the informational sink, oldest first.
    pub info: Vec<String>,
    /// Lines written to the error sink, oldest first.
    pub err: Vec<String>,
}

/// The views of a sequence of written lines.
pub open spec fn lines_view(lines: Seq<String>) -> Seq<Seq<char>> {
    lines.map_values(|line: String| line@)
}

/// Drain a whole event stream: apply `relay_action` to every event in
/// arrival order and collect what each sink receives. The relay terminates
/// once the events are exhausted and writes nothing beyond them.
pub fn relay_all(events: &Vec<SidecarEvent>) -> (log: RelayLog)
    ensures
        lines_view(log.info@) == info_lines(events@),
        lines_view(log.err@) == error_lines(events@),
{
    let mut info: Vec<String> = Vec::new();
    let mut err: Vec<String> = Vec::new();
    let mut i: usize = 0;
    while i < events.len()
        invariant
            i <= events@.len(),
            lines_view(info@) == info_lines(events@.take(i as int)),
            lines_view(err@) == error_lines(events@.take(i as int)),
        decreases events@.len() - i,
    {
        let ghost prefix = events@.take(i as int);
        match relay_action(&events[i]) {
            LogAction::InfoLine(line) => info.push(line),
            LogAction::ErrorLine(line) => err.push(line),
            LogAction::Skip => {},
        }
        proof {
            let next = events@.take(i + 1 as int);
            assert(next.drop_last() =~= prefix);
            assert(lines_view(info@) =~= info_lines(next));
            assert(lines_view(err@) =~= error_lines(next));
        }
        i += 1;
    }
    proof {
        assert(events@.take(events@.len() as int) =~= events@);
    }
    RelayLog { info, err }
}

} // verus!
