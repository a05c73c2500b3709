//! What holds of the audit log over whole runs of events.
use crate::audit::clock::{timestamp, NANOS_PER_SEC};
use crate::audit::config::NetworkAuditConfig;
use crate::audit::dedup::{line_of, FileView, LineView};
use crate::audit::event::{allowed, denied, mode_of, text, EventView, ProxyMode};
use crate::audit::log::{LogView, MAX_AUDIT_EVENTS};
use vstd::prelude::*;

verus! {

/// The file output after a run of events.
pub open spec fn file_after(file: FileView, events: Seq<EventView>) -> FileView
    decreases events.len(),
{
    if events.len() == 0 {
        file
    } else {
        file_after(file, events.drop_last()).after(events.last())
    }
}

/// A line that may or may not be written, as a list.
pub open spec fn as_list(line: Option<LineView>) -> Seq<LineView> {
    match line {
        Some(l) => seq![l],
        None => seq![],
    }
}

/// The lines that are written while a run of events arrives.
pub open spec fn lines_during(file: FileView, events: Seq<EventView>) -> Seq<LineView>
    decreases events.len(),
{
    if events.len() == 0 {
        seq![]
    } else {
        let before = events.drop_last();
        lines_during(file, before) + as_list(file_after(file, before).line_on(events.last()))
    }
}

/// The lines that are written for a run of events that ends in a flush.
pub open spec fn lines_of_run(file: FileView, events: Seq<EventView>) -> Seq<LineView> {
    lines_during(file, events) + as_list(file_after(file, events).line_on_flush())
}

/// How many events a list of lines stands for.
pub open spec fn total_count(lines: Seq<LineView>) -> nat
    decreases lines.len(),
{
    if lines.len() == 0 {
        0
    } else {
        total_count(lines.drop_last()) + lines.last().count
    }
}

/// `event` belongs with `first`: the same target, port, mode and decision, and
/// inside the window of 30 seconds that `first` opens.
pub open spec fn same_group(first: EventView, event: EventView) -> bool {
    &&& event.target == first.target
    &&& event.port == first.port
    &&& event.mode == first.mode
    &&& event.decision == first.decision
    &&& event.timestamp_unix_ms - first.timestamp_unix_ms <= 30_000
}

/// The `n` events from position `s` on belong with the first of them.
pub open spec fn is_group(events: Seq<EventView>, s: int, n: int) -> bool {
    &&& 0 <= s
    &&& 1 <= n
    &&& s + n <= events.len()
    &&& forall|j: int| s <= j < s + n ==> same_group(events[s], #[trigger] events[j])
}

/// The group of `n` events from position `s` on cannot be continued.
pub open spec fn group_ends(events: Seq<EventView>, s: int, n: int) -> bool {
    s + n < events.len() ==> !same_group(events[s], events[s + n])
}

/// `line` reports exactly the `n` events from position `s` on: it carries the
/// first of them, their number and, if there is more than one, the time of the
/// last, with the session's context.
pub open spec fn reports(
    line: LineView,
    config: NetworkAuditConfig,
    events: Seq<EventView>,
    s: int,
    n: int,
) -> bool {
    &&& line.event == events[s]
    &&& line.count == n
    &&& line.last_seen_unix_ms == if n > 1 {
        Some(events[s + n - 1].timestamp_unix_ms)
    } else {
        None
    }
    &&& line.session_id == config.session_id@
    &&& line.session_name == text(config.session_name)
    &&& line.nono_pid == config.nono_pid
}

/// Line `k` of `lines` reports one whole group of `events`: the one that
/// begins where the groups of the lines before it end.
pub open spec fn line_is_group(
    lines: Seq<LineView>,
    k: int,
    config: NetworkAuditConfig,
    events: Seq<EventView>,
) -> bool {
    let s = total_count(lines.take(k)) as int;
    let n = lines[k].count as int;
    &&& is_group(events, s, n)
    &&& group_ends(events, s, n)
    &&& reports(lines[k], config, events, s, n)
}

/// Line `k` reports a whole group, and `events` goes on after it.
spec fn line_is_closed_group(
    lines: Seq<LineView>,
    k: int,
    config: NetworkAuditConfig,
    events: Seq<EventView>,
) -> bool {
    &&& line_is_group(lines, k, config, events)
    &&& total_count(lines.take(k)) + lines[k].count < events.len()
}

proof fn lemma_total_count_push(lines: Seq<LineView>, line: LineView)
    ensures
        total_count(lines.push(line)) == total_count(lines) + line.count,
{
    assert(lines.push(line).drop_last() =~= lines);
}

/// What holds between two events of a run: the lines written so far report
/// the groups that are closed, and the open entry is the group at the end.
proof fn lemma_run(file: FileView, events: Seq<EventView>)
    requires
        file.pending is None,
    ensures
        file_after(file, events).config == file.config,
        events.len() == 0 ==> file_after(file, events).pending is None,
        events.len() == 0 ==> lines_during(file, events).len() == 0,
        events.len() > 0 ==> file_after(file, events).pending is Some,
        events.len() > 0 ==> {
            let p = file_after(file, events).pending->0;
            let s = events.len() - p.count;
            &&& p.wf()
            &&& total_count(lines_during(file, events)) == s
            &&& is_group(events, s, p.count as int)
            &&& p.first_event == events[s]
            &&& p.last_seen_ts == events.last().timestamp_unix_ms
        },
        forall|k: int|
            0 <= k < lines_during(file, events).len() ==> #[trigger] line_is_closed_group(
                lines_during(file, events),
                k,
                file.config,
                events,
            ),
    decreases events.len(),
{
    if events.len() > 0 {
        let before = events.drop_last();
        let event = events.last();
        lemma_run(file, before);
        let old_after = file_after(file, before);
        let old_lines = lines_during(file, before);
        let after = file_after(file, events);
        let lines = lines_during(file, events);
        let pushed = old_after.line_on(event);
        assert(lines == old_lines + as_list(pushed));
        assert forall|k: int| 0 <= k < old_lines.len() implies #[trigger] line_is_closed_group(
            lines,
            k,
            file.config,
            events,
        ) by {
            assert(line_is_closed_group(old_lines, k, file.config, before));
            assert(lines.take(k) =~= old_lines.take(k));
            let s = total_count(lines.take(k)) as int;
            let n = lines[k].count as int;
            assert forall|j: int| s <= j < s + n implies same_group(
                events[s],
                #[trigger] events[j],
            ) by {
                assert(before[j] == events[j]);
            }
        }
        if before.len() > 0 {
            let p = old_after.pending->0;
            let s = before.len() - p.count;
            assert forall|j: int| s <= j < before.len() implies same_group(
                events[s],
                #[trigger] events[j],
            ) by {
                assert(before[j] == events[j]);
            }
            if p.joins(event) {
                assert(lines =~= old_lines);
            } else {
                let line = line_of(file.config, p);
                assert(lines =~= old_lines.push(line));
                lemma_total_count_push(old_lines, line);
                let k = old_lines.len() as int;
                assert(lines.take(k) =~= old_lines);
                assert(line_is_closed_group(lines, k, file.config, events));
            }
        } else {
            assert(lines =~= old_lines);
        }
    }
}

/// Deduplication partitions a run of events. The lines that a run leads to,
/// from a state with nothing pending to a flush, stand for as many events as
/// arrived, and each of them reports one group of consecutive events: all of
/// one key, inside the window that the first of them opens, and followed by an
/// event that has another key or lies outside the window.
pub proof fn law_lines_partition_events(file: FileView, events: Seq<EventView>)
    requires
        file.pending is None,
    ensures
        total_count(lines_of_run(file, events)) == events.len(),
        forall|k: int|
            0 <= k < lines_of_run(file, events).len() ==> #[trigger] line_is_group(
                lines_of_run(file, events),
                k,
                file.config,
                events,
            ),
{
    lemma_run(file, events);
    let during = lines_during(file, events);
    let after = file_after(file, events);
    let lines = lines_of_run(file, events);
    assert forall|k: int| 0 <= k < during.len() implies #[trigger] line_is_group(
        lines,
        k,
        file.config,
        events,
    ) by {
        assert(line_is_closed_group(during, k, file.config, events));
        assert(lines.take(k) =~= during.take(k));
    }
    if events.len() > 0 {
        let line = line_of(file.config, after.pending->0);
        assert(lines =~= during.push(line));
        lemma_total_count_push(during, line);
        assert(lines.take(during.len() as int) =~= during);
    } else {
        assert(lines =~= during);
    }
}

/// A run of matching events collapses. If all events have the key of the
/// first and lie inside its window, nothing is written while they arrive, and
/// the flush writes one line, which reports them all.
pub proof fn law_matching_events_collapse(file: FileView, events: Seq<EventView>)
    requires
        file.pending is None,
        events.len() > 0,
        forall|j: int| 0 <= j < events.len() ==> same_group(events[0], #[trigger] events[j]),
    ensures
        lines_during(file, events).len() == 0,
        lines_of_run(file, events).len() == 1,
        reports(lines_of_run(file, events)[0], file.config, events, 0, events.len() as int),
{
    law_lines_partition_events(file, events);
    lemma_run(file, events);
    let lines = lines_of_run(file, events);
    assert(lines.len() > 0);
    assert(line_is_group(lines, 0, file.config, events));
    if lines.len() > 1 {
        assert(line_is_group(lines, 1, file.config, events));
        assert(lines.take(1).drop_last() =~= lines.take(0));
    }
}

/// Every event that a line counts has the target, port, mode and decision that
/// the line shows, and every event is counted in some line.
pub proof fn law_lines_show_what_they_count(file: FileView, events: Seq<EventView>)
    requires
        file.pending is None,
    ensures
        ({
            let lines = lines_of_run(file, events);
            &&& total_count(lines) == events.len()
            &&& forall|k: int, j: int|
                #![trigger lines[k], events[j]]
                0 <= k < lines.len() && total_count(lines.take(k)) <= j < total_count(lines.take(k))
                    + lines[k].count ==> {
                    &&& 0 <= j < events.len()
                    &&& lines[k].event.target == events[j].target
                    &&& lines[k].event.port == events[j].port
                    &&& lines[k].event.mode == events[j].mode
                    &&& lines[k].event.decision == events[j].decision
                    &&& events[j].timestamp_unix_ms - lines[k].event.timestamp_unix_ms <= 30_000
                }
        }),
{
    law_lines_partition_events(file, events);
    let lines = lines_of_run(file, events);
    assert forall|k: int, j: int|
        #![trigger lines[k], events[j]]
        0 <= k < lines.len() && total_count(lines.take(k)) <= j < total_count(lines.take(k))
            + lines[k].count implies {
        &&& 0 <= j < events.len()
        &&& lines[k].event.target == events[j].target
        &&& lines[k].event.port == events[j].port
        &&& lines[k].event.mode == events[j].mode
        &&& lines[k].event.decision == events[j].decision
        &&& events[j].timestamp_unix_ms - lines[k].event.timestamp_unix_ms <= 30_000
    } by {
        assert(line_is_group(lines, k, file.config, events));
    }
}

/// Nothing is carried over a flush: what follows is grouped as if the log had
/// just been opened.
pub proof fn law_flush_closes_group(file: FileView, events: Seq<EventView>)
    ensures
        file_after(file, events).flushed() == file.flushed(),
        file.flushed().line_on_flush() is None,
    decreases events.len(),
{
    if events.len() > 0 {
        law_flush_closes_group(file, events.drop_last());
    }
}

/// The counter of collapsed events does not run out within `u64::MAX` events.
pub proof fn law_counter_suffices(file: FileView, events: Seq<EventView>, event: EventView)
    requires
        file.pending is None,
        events.len() < u64::MAX,
    ensures
        file_after(file, events).accepts(event),
{
    lemma_run(file, events);
}

/// The log after a run of events.
pub open spec fn log_after(log: LogView, events: Seq<EventView>) -> LogView
    decreases events.len(),
{
    if events.len() == 0 {
        log
    } else {
        log_after(log, events.drop_last()).after(events.last())
    }
}

/// The lines that the log writes while a run of events arrives.
pub open spec fn log_lines_during(log: LogView, events: Seq<EventView>) -> Seq<LineView>
    decreases events.len(),
{
    if events.len() == 0 {
        seq![]
    } else {
        let before = events.drop_last();
        log_lines_during(log, before) + as_list(log_after(log, before).line_on(events.last()))
    }
}

/// The lines that the log writes for a run of events that ends in a drain.
pub open spec fn log_lines_of_run(log: LogView, events: Seq<EventView>) -> Seq<LineView> {
    log_lines_during(log, events) + as_list(log_after(log, events).line_on_drain())
}

/// The log's file output is the deduplication of the events that arrive,
/// whatever the in-memory buffer holds or drops.
pub proof fn law_file_output_ignores_buffer(log: LogView, events: Seq<EventView>)
    ensures
        match log.file {
            Some(file) => {
                &&& log_after(log, events).file == Some(file_after(file, events))
                &&& log_lines_during(log, events) == lines_during(file, events)
                &&& log_lines_of_run(log, events) == lines_of_run(file, events)
            },
            None => {
                &&& log_after(log, events).file is None
                &&& log_lines_during(log, events).len() == 0
                &&& log_lines_of_run(log, events).len() == 0
            },
        },
    decreases events.len(),
{
    if events.len() > 0 {
        law_file_output_ignores_buffer(log, events.drop_last());
    }
}

/// The in-memory buffer is unaffected by deduplication and by file output: it
/// depends on the events alone.
pub proof fn law_buffer_ignores_file_output(a: LogView, b: LogView, events: Seq<EventView>)
    requires
        a.events == b.events,
    ensures
        log_after(a, events).events == log_after(b, events).events,
    decreases events.len(),
{
    if events.len() > 0 {
        law_buffer_ignores_file_output(a, b, events.drop_last());
    }
}

/// The buffer never holds more than its limit, and the open file entry is
/// always one that the deduplication built.
pub proof fn law_log_stays_well_formed(log: LogView, events: Seq<EventView>)
    requires
        log.wf(),
    ensures
        log_after(log, events).wf(),
        log_after(log, events).drained().wf(),
    decreases events.len(),
{
    if events.len() > 0 {
        law_log_stays_well_formed(log, events.drop_last());
    }
}

/// The buffer keeps the events in the order of their arrival, each of them, up
/// to its limit; those beyond it are dropped.
pub proof fn law_buffer_keeps_first_events(log: LogView, events: Seq<EventView>)
    requires
        log.events.len() <= MAX_AUDIT_EVENTS,
    ensures
        log_after(log, events).events == (log.events + events).take(
            if log.events.len() + events.len() <= MAX_AUDIT_EVENTS {
                (log.events.len() + events.len()) as int
            } else {
                MAX_AUDIT_EVENTS as int
            },
        ),
    decreases events.len(),
{
    if events.len() > 0 {
        law_buffer_keeps_first_events(log, events.drop_last());
    }
}

/// A drain leaves nothing behind: a second one finds no events and writes no line.
pub proof fn law_drain_leaves_nothing(log: LogView)
    ensures
        log.drained().events.len() == 0,
        log.drained().line_on_drain() is None,
        log.drained().drained() == log.drained(),
{
}

/// A session from start to drain: the drain hands out the events in order, up
/// to the buffer's limit, and the lines of the log file account for every
/// event, those that the buffer dropped too.
pub proof fn law_session(config: NetworkAuditConfig, events: Seq<EventView>)
    ensures
        ({
            let log = LogView {
                events: Seq::empty(),
                file: Some(FileView { config, pending: None }),
            };
            let kept = if events.len() <= MAX_AUDIT_EVENTS {
                events.len() as int
            } else {
                MAX_AUDIT_EVENTS as int
            };
            &&& log_after(log, events).events == events.take(kept)
            &&& total_count(log_lines_of_run(log, events)) == events.len()
            &&& forall|k: int|
                0 <= k < log_lines_of_run(log, events).len() ==> #[trigger] line_is_group(
                    log_lines_of_run(log, events),
                    k,
                    config,
                    events,
                )
        }),
{
    let file = FileView { config, pending: None };
    let log = LogView { events: Seq::empty(), file: Some(file) };
    law_buffer_keeps_first_events(log, events);
    assert(log.events + events =~= events);
    law_file_output_ignores_buffer(log, events);
    law_lines_partition_events(file, events);
}

/// An allowed and a denied request are never collapsed into one line.
pub proof fn law_allowed_and_denied_stay_apart(
    t1: u64,
    t2: u64,
    m1: ProxyMode,
    m2: ProxyMode,
    host1: Seq<char>,
    host2: Seq<char>,
    port1: u16,
    port2: u16,
    method: Seq<char>,
    reason: Seq<char>,
)
    ensures
        !same_group(
            allowed(t1, m1, host1, port1, method),
            denied(t2, m2, host2, port2, reason),
        ),
        !same_group(
            denied(t2, m2, host2, port2, reason),
            allowed(t1, m1, host1, port1, method),
        ),
{
}

/// Distinct proxy modes are recorded as distinct modes.
pub proof fn law_recorded_modes_are_distinct(a: ProxyMode, b: ProxyMode)
    requires
        mode_of(a) == mode_of(b),
    ensures
        a == b,
{
}

/// Distinct proxy modes have distinct names.
pub proof fn law_mode_names_are_distinct(a: ProxyMode, b: ProxyMode)
    requires
        a.label() == b.label(),
    ensures
        a == b,
{
    reveal_strlit("connect");
    reveal_strlit("reverse");
    reveal_strlit("external");
    assert("connect"@[0] == 'c' && "reverse"@[0] == 'r' && "external"@[0] == 'e');
}

/// A later moment never gets an earlier timestamp, and one before the Unix
/// epoch gets none later than one after it.
pub proof fn law_timestamps_are_ordered(a: (u64, u32), b: (u64, u32))
    requires
        a.1 < NANOS_PER_SEC,
        a.0 < b.0 || (a.0 == b.0 && a.1 <= b.1),
    ensures
        timestamp(Some(a)) <= timestamp(Some(b)),
        timestamp(None) <= timestamp(Some(a)),
{
}

} // verus!
