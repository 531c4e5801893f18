//! What holds of a recorder, and of a buffer, over every sequence of operations
//! on it.
use crate::buffer::{AttributeType, MetricItemView, MetricKind, MetricValueView};
use crate::clock;
use crate::envelope;
use crate::json::{Json, JsonNumber};
use crate::keys;
use crate::recorder;
use crate::recorder::{BuilderView, RecorderView};
use crate::trace;
use crate::units;
use std::time::Duration;
use vstd::prelude::*;

verus! {

/// An operation on a recorder.
pub enum Event {
    /// An item is recorded.
    Record(MetricItemView),
    /// The buffer is flushed, by hand or by the flush task.
    Flush,
    /// The recorder is shut down.
    ShutDown,
    /// An operation on the named metric is dropped.
    Drop(Seq<char>),
    /// The named metric is described, with a unit or without one.
    Describe(Seq<char>, Option<metrics::Unit>),
}

impl Event {
    /// The operation describes the metric `name` with a unit.
    pub open spec fn gives_unit(self, name: Seq<char>) -> bool {
        match self {
            Event::Describe(n, Some(_)) => n == name,
            _ => false,
        }
    }
}

impl RecorderView {
    /// The state after an operation.
    pub open spec fn step(self, event: Event) -> RecorderView {
        match event {
            Event::Record(item) => self.after_record(item),
            Event::Flush => self.after_flush(),
            Event::ShutDown => self.after_shut_down(),
            Event::Drop(name) => self.after_warning(name),
            Event::Describe(name, unit) => self.after_description(name, unit),
        }
    }

    /// The batch that an operation sends; empty where it sends nothing.
    pub open spec fn sent_by(self, event: Event) -> Seq<MetricItemView> {
        match event {
            Event::Record(item) => self.sent_by_record(item),
            Event::Flush | Event::ShutDown => self.pending,
            Event::Drop(_) | Event::Describe(_, _) => Seq::empty(),
        }
    }

    /// The state after a sequence of operations.
    pub open spec fn run(self, events: Seq<Event>) -> RecorderView
        decreases events.len(),
    {
        if events.len() == 0 {
            self
        } else {
            self.run(events.drop_last()).step(events.last())
        }
    }

    /// All items that a sequence of operations sends, in the order of sending.
    pub open spec fn all_sent(self, events: Seq<Event>) -> Seq<MetricItemView>
        decreases events.len(),
    {
        if events.len() == 0 {
            Seq::empty()
        } else {
            self.all_sent(events.drop_last()) + self.run(events.drop_last()).sent_by(events.last())
        }
    }

    /// The items that are recorded before the shutdown, in order.
    pub open spec fn accepted(self, events: Seq<Event>) -> Seq<MetricItemView>
        decreases events.len(),
    {
        if events.len() == 0 {
            Seq::empty()
        } else {
            let before = self.accepted(events.drop_last());
            match events.last() {
                Event::Record(item) if !self.run(events.drop_last()).shutdown => before.push(item),
                _ => before,
            }
        }
    }

    /// How many warnings on the metric `name` a sequence of operations gives.
    pub open spec fn warnings(self, events: Seq<Event>, name: Seq<char>) -> nat
        decreases events.len(),
    {
        if events.len() == 0 {
            0
        } else {
            let before = self.warnings(events.drop_last(), name);
            if events.last() == Event::Drop(name) && !self.run(events.drop_last()).warned.contains(
                name,
            ) {
                before + 1
            } else {
                before
            }
        }
    }

    /// The buffer holds less than what triggers a flush.
    pub open spec fn below_limit(self) -> bool {
        self.pending.len() == 0 || self.pending.len() < self.max_buffer_size
    }
}

/// Nothing is lost, repeated, merged or reordered: what was pending and then
/// what was recorded before the shutdown is exactly what was sent and then
/// what is still pending.
pub proof fn law_every_item_is_sent_once(state: RecorderView, events: Seq<Event>)
    ensures
        state.pending + state.accepted(events) == state.all_sent(events) + state.run(
            events,
        ).pending,
    decreases events.len(),
{
    if events.len() > 0 {
        let front = events.drop_last();
        law_every_item_is_sent_once(state, front);
        if let Event::Record(item) = events.last() {
            if !state.run(front).shutdown {
                assert(state.pending + state.accepted(events) =~= (state.pending
                    + state.accepted(front)).push(item));
            }
        }
    }
    assert(state.pending + state.accepted(events) =~= state.all_sent(events) + state.run(
        events,
    ).pending);
}

/// After a flush or a shutdown nothing is pending: everything that was
/// recorded up to then has been sent.
pub proof fn law_a_flush_leaves_nothing_behind(
    state: RecorderView,
    events: Seq<Event>,
    last: Event,
)
    requires
        last == Event::Flush || last == Event::ShutDown,
    ensures
        state.run(events.push(last)).pending.len() == 0,
        state.pending + state.accepted(events) == state.all_sent(events.push(last)),
{
    let all = events.push(last);
    assert(all.drop_last() =~= events);
    law_every_item_is_sent_once(state, all);
    assert(state.accepted(all) == state.accepted(events));
    assert(state.all_sent(all) + state.run(all).pending =~= state.all_sent(all));
}

/// A second flush sends nothing.
pub proof fn law_a_second_flush_sends_nothing(
    state: RecorderView,
    sent: Option<sentry::Envelope>,
)
    requires
        recorder::ships(sent, state.after_flush().pending),
    ensures
        sent is None,
        state.after_flush().after_flush() == state.after_flush(),
{
}

/// A recorder that was built with a configuration never holds as many items as
/// trigger a flush, whatever is done with it.
pub proof fn law_the_buffer_stays_below_its_limit(config: BuilderView, events: Seq<Event>)
    ensures
        config.build().run(events).below_limit(),
    decreases events.len(),
{
    if events.len() > 0 {
        law_the_buffer_stays_below_its_limit(config, events.drop_last());
        law_configuration_is_kept(config.build(), events);
        law_configuration_is_kept(config.build(), events.drop_last());
    }
}

/// A flush is triggered as soon as the buffer reaches its limit, so a batch
/// that recording an item sends has exactly as many items as the limit says
/// (one, where the limit is zero), and that item is its last.
pub proof fn law_a_size_flush_sends_a_full_batch(
    config: BuilderView,
    events: Seq<Event>,
    item: MetricItemView,
)
    ensures
        ({
            let state = config.build().run(events);
            let batch = state.sent_by_record(item);
            let limit = if config.max_buffer_size == 0 {
                1
            } else {
                config.max_buffer_size as nat
            };
            &&& batch.len() > 0 ==> batch.len() == limit && batch.last() == item
            &&& !state.shutdown && state.pending.len() + 1 == limit ==> batch.len() > 0
        }),
{
    law_the_buffer_stays_below_its_limit(config, events);
    law_configuration_is_kept(config.build(), events);
}

/// No operation changes the configuration.
pub proof fn law_configuration_is_kept(state: RecorderView, events: Seq<Event>)
    ensures
        state.run(events).config() == state.config(),
    decreases events.len(),
{
    if events.len() > 0 {
        law_configuration_is_kept(state, events.drop_last());
    }
}

/// The shutdown is final: after it nothing is recorded and nothing more is
/// sent.
pub proof fn law_nothing_is_recorded_after_the_shutdown(
    state: RecorderView,
    before: Seq<Event>,
    after: Seq<Event>,
)
    ensures
        ({
            let ended = state.run(before).after_shut_down();
            &&& ended.run(after).shutdown
            &&& ended.run(after).pending.len() == 0
            &&& ended.accepted(after).len() == 0
            &&& ended.all_sent(after).len() == 0
        }),
    decreases after.len(),
{
    if after.len() > 0 {
        law_nothing_is_recorded_after_the_shutdown(state, before, after.drop_last());
    }
}

/// However often operations on a metric are dropped, one warning is given for
/// it: at the first drop, and not at all for a metric that had one before.
pub proof fn law_one_warning_per_metric(state: RecorderView, events: Seq<Event>, name: Seq<char>)
    ensures
        state.run(events).warned.contains(name) <==> state.warned.contains(name)
            || events.contains(Event::Drop(name)),
        state.warnings(events, name) == if !state.warned.contains(name) && events.contains(
            Event::Drop(name),
        ) {
            1nat
        } else {
            0nat
        },
    decreases events.len(),
{
    if events.len() > 0 {
        let front = events.drop_last();
        law_one_warning_per_metric(state, front, name);
        let wanted = Event::Drop(name);
        assert(events.contains(wanted) <==> front.contains(wanted) || events.last() == wanted) by {
            if events.contains(wanted) && events.last() != wanted {
                let i = choose|i: int| 0 <= i < events.len() && events[i] == wanted;
                assert(front[i] == wanted);
            }
            if front.contains(wanted) {
                let i = choose|i: int| 0 <= i < front.len() && front[i] == wanted;
                assert(events[i] == wanted);
            }
            if events.last() == wanted {
                assert(events[events.len() - 1] == wanted);
            }
        }
    }
}

/// A metric has the unit that it was last described with, whatever else
/// happens in between; under which kind it was described does not matter.
pub proof fn law_the_last_description_wins(
    state: RecorderView,
    name: Seq<char>,
    unit: metrics::Unit,
    later: Seq<Event>,
)
    requires
        forall|i: int| 0 <= i < later.len() ==> !(#[trigger] later[i]).gives_unit(name),
    ensures
        state.after_description(name, Some(unit)).run(later).unit_for(name) == units::unit_view(
            unit,
        ).wire_name(),
{
    let described = state.after_description(name, Some(unit));
    lemma_description_is_kept(described, name, later);
}

/// A metric that was never described with a unit has the default unit.
pub proof fn law_an_undescribed_metric_has_the_default_unit(
    config: BuilderView,
    events: Seq<Event>,
    name: Seq<char>,
)
    requires
        forall|i: int| 0 <= i < events.len() ==> !(#[trigger] events[i]).gives_unit(name),
    ensures
        config.build().run(events).unit_for(name) == config.default_unit,
{
    lemma_description_is_kept(config.build(), name, events);
    law_configuration_is_kept(config.build(), events);
}

/// What is known of the unit of a metric changes only when the metric is
/// described with a unit.
proof fn lemma_description_is_kept(state: RecorderView, name: Seq<char>, events: Seq<Event>)
    requires
        forall|i: int| 0 <= i < events.len() ==> !(#[trigger] events[i]).gives_unit(name),
    ensures
        state.run(events).descriptions.contains_key(name) == state.descriptions.contains_key(name),
        state.run(events).descriptions[name] == state.descriptions[name],
    decreases events.len(),
{
    if events.len() > 0 {
        let front = events.drop_last();
        assert forall|i: int| 0 <= i < front.len() implies !(#[trigger] front[i]).gives_unit(name) by {
            assert(events[i] == front[i]);
        }
        lemma_description_is_kept(state, name, front);
        assert(!events[events.len() - 1].gives_unit(name));
    }
}

/// A recorder starts with its configuration, with nothing pending, nothing
/// described and no warning given, and it records.
pub proof fn law_a_new_recorder_is_blank(config: BuilderView)
    ensures
        config.build().config() == config,
        config.build().max_buffer_size == config.max_buffer_size,
        config.build().flush_interval == config.flush_interval,
        config.build().default_unit == config.default_unit,
        config.build().pending.len() == 0,
        forall|name: Seq<char>| !#[trigger] config.build().descriptions.contains_key(name),
        forall|name: Seq<char>| !#[trigger] config.build().warned.contains(name),
        !config.build().shutdown,
{
}

/// By default a recorder sends 100 items at a time, flushes every ten seconds
/// and calls the unit of an undescribed metric `none`.
pub proof fn law_the_default_configuration(config: BuilderView)
    ensures
        config.is_default() <==> config.max_buffer_size == 100 && clock::duration_nanos(
            config.flush_interval,
        ) == 10_000_000_000 && config.default_unit == "none"@,
{
}

/// The item of an operation is made of the operation: the metric's name, the
/// kind, the value, the time and both ids as they are given, the unit of the
/// metric, and every label of the metric as an attribute.
pub proof fn law_an_item_is_made_of_its_operation(
    state: RecorderView,
    kind: MetricKind,
    key: metrics::Key,
    value: MetricValueView,
    timestamp: Option<JsonNumber>,
    trace_id: Option<Seq<char>>,
    span_id: Option<Seq<char>>,
)
    ensures
        ({
            let item = state.item(kind, key, value, timestamp, trace_id, span_id);
            &&& item.timestamp == timestamp
            &&& item.trace_id == trace_id
            &&& item.span_id == span_id
            &&& item.name == keys::key_name(key)
            &&& item.value == value
            &&& item.kind == kind
            &&& state.descriptions.contains_key(item.name) ==> item.unit == units::unit_view(
                state.descriptions[item.name],
            ).wire_name()
            &&& !state.descriptions.contains_key(item.name) ==> item.unit == state.default_unit
            &&& item.attributes.len() == keys::key_labels(key).len()
            &&& forall|i: int|
                0 <= i < item.attributes.len() ==> (#[trigger] item.attributes[i]).key
                    == keys::key_labels(key)[i].0 && item.attributes[i].value == Json::Text(
                    keys::key_labels(key)[i].1,
                ) && item.attributes[i].ty == AttributeType::String
        }),
{
}

/// The item of an operation carries the trace id and the span id of the active
/// span and the time of the clock, whatever the metric is.
pub proof fn law_an_item_carries_the_active_span_and_the_time(
    state: RecorderView,
    kind: MetricKind,
    key: metrics::Key,
    value: MetricValueView,
    since: Option<Duration>,
    active: Option<(sentry::protocol::TraceId, sentry::protocol::SpanId)>,
)
    ensures
        ({
            let item = state.item_at(kind, key, value, since, active);
            &&& item == state.item(
                kind,
                key,
                value,
                item.timestamp,
                item.trace_id,
                item.span_id,
            )
            &&& item.timestamp == Some(clock::timestamp(since))
            &&& active matches Some(ids) ==> item.trace_id == Some(trace::trace_id_text(ids.0))
                && item.span_id == Some(trace::span_id_text(ids.1))
            &&& active is None ==> item.trace_id is None && item.span_id is None
        }),
{
}

/// A recorded operation is stamped with a time that the system clock gave and
/// with the ids of the active span, and it is then either pending, behind what
/// was pending before, or sent behind it. After the shutdown an operation has
/// no effect.
pub proof fn law_a_recorded_operation_is_pending_or_sent(
    before: RecorderView,
    after: RecorderView,
    sent: Option<sentry::Envelope>,
    kind: MetricKind,
    key: metrics::Key,
    value: MetricValueView,
    active: Option<(sentry::protocol::TraceId, sentry::protocol::SpanId)>,
)
    requires
        recorder::recorded(before, after, sent, kind, key, value, active),
    ensures
        before.shutdown ==> after == before && sent is None,
        !before.shutdown ==> exists|since: Option<Duration>, item: MetricItemView|
            {
                &&& #[trigger] clock::is_clock_reading(since)
                &&& item == #[trigger] before.item(
                    kind,
                    key,
                    value,
                    item.timestamp,
                    item.trace_id,
                    item.span_id,
                )
                &&& item.timestamp == Some(clock::timestamp(since))
                &&& item.trace_id == trace::trace_id_of(active)
                &&& item.span_id == trace::span_id_of(active)
                &&& sent is None ==> after.pending == before.pending.push(item)
                &&& sent matches Some(e) ==> after.pending.len() == 0
                    && envelope::envelope_content(e) == envelope::envelope_text(
                    before.pending.push(item),
                )
            },
        !before.shutdown ==> (sent is Some <==> before.pending.len() + 1 >= before.max_buffer_size),
        after.shutdown == before.shutdown,
        after.descriptions == before.descriptions,
        after.warned == before.warned,
        after.config() == before.config(),
{
    if !before.shutdown {
        let since = choose|since: Option<Duration>|
            {
                let item = #[trigger] before.item_at(kind, key, value, since, active);
                &&& clock::is_clock_reading(since)
                &&& after == before.after_record(item)
                &&& recorder::ships(sent, before.sent_by_record(item))
            };
        let item = before.item_at(kind, key, value, since, active);
        assert(clock::is_clock_reading(since));
        assert(item == before.item(
            kind,
            key,
            value,
            item.timestamp,
            item.trace_id,
            item.span_id,
        ));
    }
}

/// Recording an item adds it behind what is pending; where the buffer is then
/// full, everything pending is sent and none of it stays. Nothing else changes,
/// and after the shutdown nothing changes at all.
pub proof fn law_recording_changes_the_buffer_alone(state: RecorderView, item: MetricItemView)
    ensures
        !state.shutdown && state.pending.len() + 1 < state.max_buffer_size ==> state.after_record(
            item,
        ).pending == state.pending.push(item) && state.sent_by_record(item).len() == 0,
        !state.shutdown && state.pending.len() + 1 >= state.max_buffer_size
            ==> state.after_record(item).pending.len() == 0 && state.sent_by_record(item)
            == state.pending.push(item),
        state.shutdown ==> state.after_record(item).pending == state.pending
            && state.sent_by_record(item).len() == 0,
        state.after_record(item).shutdown == state.shutdown,
        state.after_record(item).descriptions == state.descriptions,
        state.after_record(item).warned == state.warned,
        state.after_record(item).max_buffer_size == state.max_buffer_size,
        state.after_record(item).flush_interval == state.flush_interval,
        state.after_record(item).default_unit == state.default_unit,
{
}

/// A flush empties the buffer and changes nothing else: recording goes on as
/// before.
pub proof fn law_a_flush_changes_the_buffer_alone(state: RecorderView, item: MetricItemView)
    ensures
        state.after_flush().pending.len() == 0,
        state.after_flush().shutdown == state.shutdown,
        state.after_flush().descriptions == state.descriptions,
        state.after_flush().warned == state.warned,
        state.after_flush().max_buffer_size == state.max_buffer_size,
        state.after_flush().flush_interval == state.flush_interval,
        state.after_flush().default_unit == state.default_unit,
        !state.shutdown ==> state.after_flush().sent_by_record(item)
            + state.after_flush().after_record(item).pending == seq![item],
{
    if !state.shutdown {
        assert(state.after_flush().sent_by_record(item) + state.after_flush().after_record(
            item,
        ).pending =~= seq![item]);
    }
}

/// The shutdown empties the buffer and ends the recording; what was described
/// and warned of stays.
pub proof fn law_the_shutdown_ends_the_recording(state: RecorderView, item: MetricItemView)
    ensures
        state.after_shut_down().pending.len() == 0,
        state.after_shut_down().shutdown,
        state.after_shut_down().descriptions == state.descriptions,
        state.after_shut_down().warned == state.warned,
        state.after_shut_down().max_buffer_size == state.max_buffer_size,
        state.after_shut_down().flush_interval == state.flush_interval,
        state.after_shut_down().default_unit == state.default_unit,
        state.after_shut_down().after_record(item) == state.after_shut_down(),
        state.after_shut_down().sent_by_record(item).len() == 0,
{
}

/// A dropped operation marks its metric, and no other, as warned of, and
/// changes nothing else. Its own message is given at the first drop of the
/// metric, and none at a later one.
pub proof fn law_a_drop_marks_its_metric_alone(
    before: RecorderView,
    after: RecorderView,
    warning: Option<&'static str>,
    name: Seq<char>,
    msg: &'static str,
)
    requires
        recorder::dropped(before, after, warning, name, msg),
    ensures
        warning is Some <==> !before.warned.contains(name),
        warning matches Some(m) ==> m == msg,
        forall|n: Seq<char>| #[trigger]
            after.warned.contains(n) <==> before.warned.contains(n) || n == name,
        after.pending == before.pending,
        after.shutdown == before.shutdown,
        after.descriptions == before.descriptions,
        after.max_buffer_size == before.max_buffer_size,
        after.flush_interval == before.flush_interval,
        after.default_unit == before.default_unit,
{
}

/// A description sets the unit of its metric, and of no other, and changes
/// nothing else; a description without a unit changes nothing.
pub proof fn law_a_description_sets_one_unit(
    state: RecorderView,
    name: Seq<char>,
    unit: Option<metrics::Unit>,
    other: Seq<char>,
)
    ensures
        ({
            let after = state.after_description(name, unit);
            &&& unit matches Some(u) ==> after.unit_for(name) == units::unit_view(u).wire_name()
            &&& unit is None ==> after == state
            &&& other != name ==> after.unit_for(other) == state.unit_for(other)
            &&& after.pending == state.pending
            &&& after.shutdown == state.shutdown
            &&& after.warned == state.warned
            &&& after.max_buffer_size == state.max_buffer_size
            &&& after.flush_interval == state.flush_interval
            &&& after.default_unit == state.default_unit
        }),
{
}

/// The unit of a metric is the wire name of the unit it was described with, or
/// the default unit.
pub proof fn law_a_metric_has_its_described_unit(state: RecorderView, name: Seq<char>)
    ensures
        state.descriptions.contains_key(name) ==> state.unit_for(name) == units::unit_view(
            state.descriptions[name],
        ).wire_name(),
        !state.descriptions.contains_key(name) ==> state.unit_for(name) == state.default_unit,
{
}

/// What is sent for a batch is the envelope of that batch, and nothing where
/// the batch is empty.
pub proof fn law_a_batch_is_sent_unless_it_is_empty(
    sent: Option<sentry::Envelope>,
    batch: Seq<MetricItemView>,
)
    requires
        recorder::ships(sent, batch),
    ensures
        sent is Some <==> batch.len() > 0,
        sent matches Some(e) ==> envelope::envelope_content(e) == envelope::envelope_text(batch)
            && envelope::well_framed(envelope::envelope_content(e), batch),
{
}

/// The items that a sequence of operations records, in order.
pub open spec fn recorded_items(events: Seq<Event>) -> Seq<MetricItemView>
    decreases events.len(),
{
    if events.len() == 0 {
        Seq::empty()
    } else {
        match events.last() {
            Event::Record(item) => recorded_items(events.drop_last()).push(item),
            _ => recorded_items(events.drop_last()),
        }
    }
}

/// A recorder is shut down by the shutdown and by nothing else.
pub proof fn law_only_the_shutdown_shuts_down(config: BuilderView, events: Seq<Event>)
    ensures
        config.build().run(events).shutdown <==> events.contains(Event::ShutDown),
    decreases events.len(),
{
    if events.len() > 0 {
        let front = events.drop_last();
        law_only_the_shutdown_shuts_down(config, front);
        assert(events.contains(Event::ShutDown) <==> front.contains(Event::ShutDown)
            || events.last() == Event::ShutDown) by {
            if events.contains(Event::ShutDown) && events.last() != Event::ShutDown {
                let i = choose|i: int| 0 <= i < events.len() && events[i] == Event::ShutDown;
                assert(front[i] == Event::ShutDown);
            }
            if front.contains(Event::ShutDown) {
                let i = choose|i: int| 0 <= i < front.len() && front[i] == Event::ShutDown;
                assert(events[i] == Event::ShutDown);
            }
            if events.last() == Event::ShutDown {
                assert(events[events.len() - 1] == Event::ShutDown);
            }
        }
    }
}

/// Until the shutdown every recorded item is accepted, in order, and is sent
/// by the next flush at the latest.
pub proof fn law_every_item_is_sent_before_the_shutdown(config: BuilderView, events: Seq<Event>)
    requires
        !events.contains(Event::ShutDown),
    ensures
        config.build().accepted(events) == recorded_items(events),
        config.build().all_sent(events.push(Event::Flush)) == recorded_items(events),
        config.build().all_sent(events) + config.build().run(events).pending == recorded_items(
            events,
        ),
{
    lemma_all_items_are_accepted(config, events);
    law_a_flush_leaves_nothing_behind(config.build(), events, Event::Flush);
    law_every_item_is_sent_once(config.build(), events);
    assert(config.build().pending + recorded_items(events) =~= recorded_items(events));
}

/// Until the shutdown every recorded item is accepted, in order.
proof fn lemma_all_items_are_accepted(config: BuilderView, events: Seq<Event>)
    requires
        !events.contains(Event::ShutDown),
    ensures
        config.build().accepted(events) == recorded_items(events),
    decreases events.len(),
{
    if events.len() > 0 {
        let front = events.drop_last();
        assert(!front.contains(Event::ShutDown)) by {
            if front.contains(Event::ShutDown) {
                let i = choose|i: int| 0 <= i < front.len() && front[i] == Event::ShutDown;
                assert(events[i] == Event::ShutDown);
            }
        }
        lemma_all_items_are_accepted(config, front);
        law_only_the_shutdown_shuts_down(config, front);
    }
}

/// An operation on a buffer.
pub enum BufferStep {
    /// An item is pushed.
    Push(MetricItemView),
    /// Everything in the buffer is drained.
    Drain,
}

/// What a buffer that held `start` holds after a sequence of operations.
pub open spec fn buffer_after(start: Seq<MetricItemView>, steps: Seq<BufferStep>) -> Seq<
    MetricItemView,
>
    decreases steps.len(),
{
    if steps.len() == 0 {
        start
    } else {
        match steps.last() {
            BufferStep::Push(item) => buffer_after(start, steps.drop_last()).push(item),
            BufferStep::Drain => Seq::empty(),
        }
    }
}

/// The batches that the drains in a sequence of operations return, in order,
/// for a buffer that held `start`.
pub open spec fn drained_batches(start: Seq<MetricItemView>, steps: Seq<BufferStep>) -> Seq<
    Seq<MetricItemView>,
>
    decreases steps.len(),
{
    if steps.len() == 0 {
        Seq::empty()
    } else {
        let before = drained_batches(start, steps.drop_last());
        match steps.last() {
            BufferStep::Push(_) => before,
            BufferStep::Drain => before.push(buffer_after(start, steps.drop_last())),
        }
    }
}

/// The items that a sequence of operations pushes, in order.
pub open spec fn pushed(steps: Seq<BufferStep>) -> Seq<MetricItemView>
    decreases steps.len(),
{
    if steps.len() == 0 {
        Seq::empty()
    } else {
        match steps.last() {
            BufferStep::Push(item) => pushed(steps.drop_last()).push(item),
            BufferStep::Drain => pushed(steps.drop_last()),
        }
    }
}

/// Whatever is pushed to and drained from a buffer: the drained batches joined
/// in order, followed by what is left, are what the buffer held at first and
/// then the pushed items in order. So each item is in exactly one batch, or
/// left.
pub proof fn law_every_pushed_item_is_drained_once(
    start: Seq<MetricItemView>,
    steps: Seq<BufferStep>,
)
    ensures
        start + pushed(steps) == drained_batches(start, steps).flatten() + buffer_after(
            start,
            steps,
        ),
    decreases steps.len(),
{
    if steps.len() > 0 {
        let front = steps.drop_last();
        let before = drained_batches(start, front);
        law_every_pushed_item_is_drained_once(start, front);
        match steps.last() {
            BufferStep::Push(item) => {
                assert(start + pushed(steps) =~= (start + pushed(front)).push(item));
            },
            BufferStep::Drain => {
                before.lemma_flatten_push(buffer_after(start, front));
            },
        }
    }
    assert(start + pushed(steps) =~= drained_batches(start, steps).flatten() + buffer_after(
        start,
        steps,
    ));
}

/// After a last drain a buffer that started empty is empty again, and the
/// drained batches joined in order are the pushed items in order. A drain of an
/// empty buffer returns nothing.
pub proof fn law_a_last_drain_leaves_nothing_behind(steps: Seq<BufferStep>)
    ensures
        ({
            let all = steps.push(BufferStep::Drain);
            &&& buffer_after(Seq::empty(), all).len() == 0
            &&& drained_batches(Seq::empty(), all).flatten() == pushed(steps)
            &&& buffer_after(Seq::empty(), steps).len() == 0 ==> drained_batches(
                Seq::empty(),
                all,
            ).last().len() == 0
        }),
{
    let all = steps.push(BufferStep::Drain);
    assert(all.drop_last() =~= steps);
    law_every_pushed_item_is_drained_once(Seq::empty(), all);
    assert(Seq::<MetricItemView>::empty() + pushed(all) =~= pushed(steps));
    assert(drained_batches(Seq::empty(), all).flatten() + buffer_after(Seq::empty(), all)
        =~= drained_batches(Seq::empty(), all).flatten());
}

} // verus!
