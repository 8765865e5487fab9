//! What holds of the reader over several lines and steps.
use vstd::prelude::*;
use vstd::utf8::{decode_utf8, valid_utf8};
use crate::backoff::{adaptive_wait, adaptive_wait_law, to_anchor, TimeOfHour, NANOS_PER_MILLI};
use crate::event_source::{apply_line, cleared, next, InputView, Phase, SourceView, StepView};
use crate::grammar::{field_name_of, field_of, is_dispatch, FieldName};
use crate::text::parse_u32_spec;

verus! {

/// The state after the lines, in order, none of them a dispatch boundary.
pub open spec fn apply_lines(s: SourceView, lines: Seq<Seq<char>>) -> SourceView
    decreases lines.len(),
{
    if lines.len() == 0 {
        s
    } else {
        apply_line(apply_lines(s, lines.drop_last()), lines.last())
    }
}

/// Whether a line is a field of this name.
pub open spec fn is_field(line: Seq<char>, name: FieldName) -> bool {
    match field_of(line) {
        Some((n, _)) => field_name_of(n) == name,
        None => false,
    }
}

/// The content of each `data` field among the lines, each followed by one
/// line feed, in order.
pub open spec fn data_of(lines: Seq<Seq<char>>) -> Seq<char>
    decreases lines.len(),
{
    if lines.len() == 0 {
        Seq::empty()
    } else {
        let rest = data_of(lines.drop_last());
        match field_of(lines.last()) {
            Some((n, c)) => if field_name_of(n) == FieldName::Data {
                rest + c.push('\n')
            } else {
                rest
            },
            None => rest,
        }
    }
}

/// Lines change neither the phase nor the address; lines that are not `id`
/// fields keep the last identifier.
proof fn lemma_apply_lines_keeps(s: SourceView, lines: Seq<Seq<char>>)
    ensures
        apply_lines(s, lines).phase == s.phase,
        apply_lines(s, lines).long_sleep == s.long_sleep,
        (forall|i: int| 0 <= i < lines.len() ==> !is_field(#[trigger] lines[i], FieldName::Id))
            ==> apply_lines(s, lines).last_event_id == s.last_event_id,
    decreases lines.len(),
{
    if lines.len() > 0 {
        let init = lines.drop_last();
        lemma_apply_lines_keeps(s, init);
        if forall|i: int| 0 <= i < lines.len() ==> !is_field(#[trigger] lines[i], FieldName::Id) {
            assert forall|i: int| 0 <= i < init.len() implies !is_field(
                #[trigger] init[i],
                FieldName::Id,
            ) by {
                assert(init[i] == lines[i]);
            }
            assert(!is_field(lines[lines.len() - 1], FieldName::Id));
        }
    }
}

proof fn lemma_apply_lines_data(s: SourceView, lines: Seq<Seq<char>>)
    ensures
        apply_lines(s, lines).data == s.data + data_of(lines),
    decreases lines.len(),
{
    if lines.len() == 0 {
        assert(s.data + Seq::<char>::empty() =~= s.data);
    } else {
        lemma_apply_lines_data(s, lines.drop_last());
        match field_of(lines.last()) {
            Some((n, c)) => {
                if field_name_of(n) == FieldName::Data {
                    assert(s.data + data_of(lines.drop_last()) + c.push('\n') =~= s.data + (
                    data_of(lines.drop_last()) + c.push('\n')));
                }
            },
            None => {},
        }
    }
}

/// A record read from an empty start is delivered at its dispatch boundary
/// with the content of each of its `data` fields, each followed by one line
/// feed, in the order received.
pub proof fn record_data_law(s: SourceView, lines: Seq<Seq<char>>, b: Seq<u8>)
    requires
        s.phase != Phase::Finished,
        b.len() > 0,
        valid_utf8(b),
        is_dispatch(decode_utf8(b)),
    ensures
        next(apply_lines(cleared(s), lines), InputView::Line(b)).1 is Deliver,
        next(apply_lines(cleared(s), lines), InputView::Line(b)).1->Deliver_0.data
            == data_of(lines),
{
    lemma_apply_lines_keeps(cleared(s), lines);
    lemma_apply_lines_data(cleared(s), lines);
    assert(Seq::<char>::empty() + data_of(lines) =~= data_of(lines));
}

/// A record without an `id` field is delivered with the identifier that held
/// before it.
pub proof fn sticky_id_law(s: SourceView, lines: Seq<Seq<char>>, b: Seq<u8>)
    requires
        s.phase != Phase::Finished,
        b.len() > 0,
        valid_utf8(b),
        is_dispatch(decode_utf8(b)),
        forall|i: int| 0 <= i < lines.len() ==> !is_field(#[trigger] lines[i], FieldName::Id),
    ensures
        next(apply_lines(s, lines), InputView::Line(b)).1 is Deliver,
        next(apply_lines(s, lines), InputView::Line(b)).1->Deliver_0.last_event_id
            == s.last_event_id,
{
    lemma_apply_lines_keeps(s, lines);
}

/// An `id` field whose content holds a null character changes nothing.
pub proof fn null_id_law(s: SourceView, line: Seq<char>)
    requires
        is_field(line, FieldName::Id),
        field_of(line).unwrap().1.contains('\0'),
    ensures
        apply_line(s, line) == s,
{
}

/// A `retry` field with a decimal number sets the base wait, which the next
/// reconnect then waits (or feeds to the adaptive wait); other content leaves
/// the wait as it was.
pub proof fn retry_law(s: SourceView, line: Seq<char>, now: TimeOfHour)
    requires
        is_field(line, FieldName::Retry),
        s.phase != Phase::Finished,
    ensures
        ({
            let c = field_of(line).unwrap().1;
            let ms = match parse_u32_spec(c) {
                Some(n) => n,
                None => s.delay_ms,
            };
            &&& apply_line(s, line).delay_ms == ms
            &&& !s.long_sleep ==> next(apply_line(s, line), InputView::TransportFailure(now)).1
                == StepView::Sleep(ms * NANOS_PER_MILLI)
            &&& s.long_sleep ==> next(apply_line(s, line), InputView::TransportFailure(now)).1
                == StepView::Sleep(adaptive_wait(ms * NANOS_PER_MILLI, now))
        }),
{
}

/// A comment line changes nothing.
pub proof fn comment_law(s: SourceView, line: Seq<char>)
    requires
        line.len() > 0,
        line[0] == ':',
    ensures
        apply_line(s, line) == s,
{
    assert(exists|i: int| 0 <= i < line.len() && line[i] == ':') by {
        assert(line[0] == ':');
    }
}

/// A line without a colon changes nothing.
pub proof fn no_colon_law(s: SourceView, line: Seq<char>)
    requires
        !line.contains(':'),
    ensures
        apply_line(s, line) == s,
{
}

/// After a transport failure and a reconnect, a record's message holds only
/// the `data` read after the failure; the identifier and the wait survive.
pub proof fn failure_discards_record_law(
    s: SourceView,
    now: TimeOfHour,
    lines: Seq<Seq<char>>,
)
    requires
        s.phase != Phase::Finished,
    ensures
        ({
            let after = next(s, InputView::TransportFailure(now)).0;
            &&& after.last_event_id == s.last_event_id
            &&& after.delay_ms == s.delay_ms
            &&& after.event is None
            &&& apply_lines(after, lines).data == data_of(lines)
        }),
{
    let after = next(s, InputView::TransportFailure(now)).0;
    lemma_apply_lines_data(after, lines);
    assert(Seq::<char>::empty() + data_of(lines) =~= data_of(lines));
}

/// A 204 answer ends the sequence, and for good: every later input ends it
/// again and changes nothing.
pub proof fn no_content_law(s: SourceView, later: InputView)
    requires
        s.phase != Phase::Finished,
    ensures
        next(s, InputView::NoContent).1 == StepView::End,
        next(next(s, InputView::NoContent).0, later) == (
            next(s, InputView::NoContent).0,
            StepView::End,
        ),
{
}

/// In the adaptive mode, a transport failure at a time when the anchor is more
/// than twice the base wait away waits longer than the base; once the anchor
/// has passed, it waits the base itself.
pub proof fn adaptive_failure_law(s: SourceView, now: TimeOfHour)
    requires
        s.phase != Phase::Finished,
        s.long_sleep,
        now.wf(),
    ensures
        to_anchor(now) > 2 * (s.delay_ms * NANOS_PER_MILLI) ==> next(
            s,
            InputView::TransportFailure(now),
        ).1->Sleep_0 > s.delay_ms * NANOS_PER_MILLI,
        to_anchor(now) < 0 ==> next(s, InputView::TransportFailure(now)).1 == StepView::Sleep(
            s.delay_ms * NANOS_PER_MILLI,
        ),
{
    adaptive_wait_law(s.delay_ms * NANOS_PER_MILLI, now);
}

} // verus!
