//! What the consumer guarantees about the events it hands on: their order,
//! how often a cursor is persisted, and which cursor that is.

use crate::changefeed::{
    after_events, decoded, initial_feed, item_step, run, AttemptEnd, FeedView, ItemView, RowView,
    RunView, StepView,
};
use crate::event::{CursorView, EventView, PublishView};
use crate::options::{query_text, OptionsView};
use crate::publisher::{
    action_for, actions_for, drained, has_stop, lemma_drained_without_stop, ActionView,
    ChannelState,
};
use vstd::prelude::*;

verus! {

/// The row that a stream item decodes to, if it is a row and can be decoded.
pub open spec fn row_of(item: ItemView) -> Option<RowView> {
    match item {
        ItemView::Row(data) => match decoded(data) {
            Ok(row) => Some(row),
            Err(_) => None,
        },
        _ => None,
    }
}

/// Whether the item is a change row that can be decoded.
pub open spec fn is_change(item: ItemView) -> bool {
    row_of(item) matches Some(RowView::Change { .. })
}

/// Whether the item is a checkpoint row that can be decoded.
pub open spec fn is_checkpoint(item: ItemView) -> bool {
    row_of(item) matches Some(RowView::Checkpoint { .. })
}

/// Whether every item is a change row or a checkpoint row.
pub open spec fn all_rows(items: Seq<ItemView>) -> bool {
    forall|i: int| 0 <= i < items.len() ==> is_change(#[trigger] items[i]) || is_checkpoint(items[i])
}

/// The event that hands on a change row.
pub open spec fn publish_of(item: ItemView) -> EventView {
    match row_of(item) {
        Some(RowView::Change { table, updated, payload }) => EventView::Publish(
            PublishView { table_name: table, payload },
        ),
        _ => EventView::Stop,
    }
}

/// The events that hand on a run of change rows, one for each, in their order.
pub open spec fn publishes_of(changes: Seq<ItemView>) -> Seq<EventView> {
    Seq::new(changes.len(), |i: int| publish_of(changes[i]))
}

/// The `updated` timestamp of the latest change among `items` that carries
/// one, or `initial` where none does.
pub open spec fn latest_timestamp(initial: Seq<char>, items: Seq<ItemView>) -> Seq<char>
    decreases items.len(),
{
    if items.len() == 0 {
        initial
    } else {
        match row_of(items.last()) {
            Some(RowView::Change { updated: Some(timestamp), .. }) => timestamp,
            _ => latest_timestamp(initial, items.drop_last()),
        }
    }
}

/// The watermark of the latest checkpoint among `items`, or `initial` where
/// there is none.
pub open spec fn latest_resolved(initial: Option<Seq<char>>, items: Seq<ItemView>) -> Option<
    Seq<char>,
>
    decreases items.len(),
{
    if items.len() == 0 {
        initial
    } else {
        match row_of(items.last()) {
            Some(RowView::Checkpoint { resolved }) => Some(resolved),
            _ => latest_resolved(initial, items.drop_last()),
        }
    }
}

/// Whether no change is pending after `items`: the last row is a checkpoint,
/// or there is no row and none was pending before.
pub open spec fn saved_after(initial: bool, items: Seq<ItemView>) -> bool {
    if items.len() == 0 {
        initial
    } else {
        is_checkpoint(items.last())
    }
}

/// The state of a consumer that started in `s` and has taken `items`.
pub open spec fn state_after(s: FeedView, items: Seq<ItemView>) -> FeedView {
    FeedView {
        options: OptionsView { cursor: latest_resolved(s.options.cursor, items), ..s.options },
        cursor_saved: saved_after(s.cursor_saved, items),
        cursor: latest_timestamp(s.cursor, items),
    }
}

/// What the last of `items` adds to the bus, given the items before it: a
/// change is handed on; a checkpoint hands on the timestamp of the latest
/// change before it, and only if a change is pending.
pub open spec fn emitted_by_last(s: FeedView, items: Seq<ItemView>) -> Seq<EventView>
    recommends
        items.len() > 0,
{
    let before = items.drop_last();
    if is_change(items.last()) {
        seq![publish_of(items.last())]
    } else if is_checkpoint(items.last()) && !saved_after(s.cursor_saved, before) {
        seq![
            EventView::Cursor(
                CursorView {
                    table_name: s.options.table_name,
                    cursor: latest_timestamp(s.cursor, before),
                },
            ),
        ]
    } else {
        Seq::empty()
    }
}

/// The events that a consumer that started in `s` hands on for `items`.
pub open spec fn emitted(s: FeedView, items: Seq<ItemView>) -> Seq<EventView>
    decreases items.len(),
{
    if items.len() == 0 {
        Seq::empty()
    } else {
        emitted(s, items.drop_last()) + emitted_by_last(s, items)
    }
}

/// Consuming `a` and then `b` is consuming `a + b`, unless `a` ends the
/// attempt.
pub proof fn lemma_run_append(s: FeedView, a: Seq<ItemView>, b: Seq<ItemView>)
    ensures
        run(s, a + b) == if run(s, a).end == AttemptEnd::Drained {
            after_events(run(s, a).events, run(run(s, a).state, b))
        } else {
            run(s, a)
        },
    decreases a.len(),
{
    if a.len() == 0 {
        assert(a + b =~= b);
        assert(Seq::<EventView>::empty() + run(s, b).events =~= run(s, b).events);
    } else {
        assert((a + b)[0] == a[0]);
        assert((a + b).drop_first() =~= a.drop_first() + b);
        let (next, step) = item_step(s, a[0]);
        match step {
            StepView::Forward(event) => {
                lemma_run_append(next, a.drop_first(), b);
                let head = run(next, a.drop_first());
                if head.end == AttemptEnd::Drained {
                    let tail = run(head.state, b);
                    assert(seq![event] + (head.events + tail.events) =~= (seq![event]
                        + head.events) + tail.events);
                }
            },
            StepView::Skip => {
                lemma_run_append(next, a.drop_first(), b);
            },
            _ => {},
        }
    }
}

/// Consuming one item is one step.
pub proof fn lemma_run_one(s: FeedView, item: ItemView)
    ensures
        run(s, seq![item]) == match item_step(s, item).1 {
            StepView::Forward(event) => RunView {
                state: item_step(s, item).0,
                events: seq![event],
                end: AttemptEnd::Drained,
            },
            StepView::Skip => RunView {
                state: item_step(s, item).0,
                events: Seq::empty(),
                end: AttemptEnd::Drained,
            },
            StepView::Reopen(cause) => RunView {
                state: item_step(s, item).0,
                events: Seq::empty(),
                end: AttemptEnd::Reopen(cause),
            },
            StepView::Abort(error) => RunView {
                state: item_step(s, item).0,
                events: seq![EventView::Stop],
                end: AttemptEnd::Aborted(error),
            },
        },
{
    reveal_with_fuel(run, 2);
    let items = seq![item];
    assert(items[0] == item);
    assert(items.drop_first() =~= Seq::<ItemView>::empty());
    let (next, step) = item_step(s, item);
    match step {
        StepView::Forward(event) => {
            assert(seq![event] + Seq::<EventView>::empty() =~= seq![event]);
        },
        _ => {},
    }
}

/// A run of change rows and checkpoint rows is consumed to its end; the state
/// after it and the events it hands on are those of [`state_after`] and
/// [`emitted`].
pub proof fn lemma_run_of_rows(s: FeedView, items: Seq<ItemView>)
    requires
        all_rows(items),
    ensures
        run(s, items) == (RunView {
            state: state_after(s, items),
            events: emitted(s, items),
            end: AttemptEnd::Drained,
        }),
    decreases items.len(),
{
    if items.len() == 0 {
    } else {
        let before = items.drop_last();
        let last = items.last();
        assert(all_rows(before)) by {
            assert forall|i: int| 0 <= i < before.len() implies is_change(#[trigger] before[i])
                || is_checkpoint(before[i]) by {
                assert(before[i] == items[i]);
            }
        }
        lemma_run_of_rows(s, before);
        assert(items =~= before + seq![last]);
        lemma_run_append(s, before, seq![last]);
        lemma_run_one(state_after(s, before), last);
        assert(is_change(last) || is_checkpoint(last));
    }
}

/// What a run of changes alone hands on and leaves behind.
proof fn lemma_changes_alone(s: FeedView, changes: Seq<ItemView>)
    requires
        forall|i: int| 0 <= i < changes.len() ==> is_change(#[trigger] changes[i]),
    ensures
        emitted(s, changes) == publishes_of(changes),
        latest_resolved(s.options.cursor, changes) == s.options.cursor,
    decreases changes.len(),
{
    if changes.len() == 0 {
        assert(publishes_of(changes) =~= Seq::<EventView>::empty());
    } else {
        let before = changes.drop_last();
        assert forall|i: int| 0 <= i < before.len() implies is_change(#[trigger] before[i]) by {
            assert(before[i] == changes[i]);
        }
        lemma_changes_alone(s, before);
        assert(is_change(changes.last()));
        assert(publishes_of(changes) =~= publishes_of(before) + seq![publish_of(changes.last())]);
    }
}

/// What a run of checkpoints alone hands on and leaves behind.
proof fn lemma_checkpoints_alone(s: FeedView, checkpoints: Seq<ItemView>)
    requires
        forall|i: int| 0 <= i < checkpoints.len() ==> is_checkpoint(#[trigger] checkpoints[i]),
    ensures
        latest_timestamp(s.cursor, checkpoints) == s.cursor,
        emitted(s, checkpoints) == if s.cursor_saved || checkpoints.len() == 0 {
            Seq::<EventView>::empty()
        } else {
            seq![
                EventView::Cursor(
                    CursorView { table_name: s.options.table_name, cursor: s.cursor },
                ),
            ]
        },
    decreases checkpoints.len(),
{
    if checkpoints.len() == 0 {
    } else {
        let before = checkpoints.drop_last();
        assert forall|i: int| 0 <= i < before.len() implies is_checkpoint(
            #[trigger] before[i],
        ) by {
            assert(before[i] == checkpoints[i]);
        }
        lemma_checkpoints_alone(s, before);
        assert(is_checkpoint(checkpoints.last()));
        if before.len() > 0 {
            assert(is_checkpoint(before.last()));
            assert(emitted(s, before) + Seq::<EventView>::empty() =~= emitted(s, before));
        } else {
            assert(emitted(s, before) + emitted_by_last(s, checkpoints) =~= emitted_by_last(
                s,
                checkpoints,
            ));
        }
    }
}

/// Order of delivery. When a consumer in any state takes a run of change rows
/// and then a checkpoint row, it hands on one `Publish` event for each change,
/// in the order in which the rows arrived, and the `Cursor` event, if there is
/// one, comes after all of them. There is one unless no change is pending,
/// and it carries the timestamp of the latest change. Afterwards the resume
/// token is the watermark of the checkpoint.
pub proof fn changes_precede_their_cursor(
    s: FeedView,
    changes: Seq<ItemView>,
    checkpoint: ItemView,
)
    requires
        forall|i: int| 0 <= i < changes.len() ==> is_change(#[trigger] changes[i]),
        is_checkpoint(checkpoint),
    ensures
        run(s, changes.push(checkpoint)).end == AttemptEnd::Drained,
        run(s, changes.push(checkpoint)).events == publishes_of(changes) + if changes.len() == 0
            && s.cursor_saved {
            Seq::<EventView>::empty()
        } else {
            seq![
                EventView::Cursor(
                    CursorView {
                        table_name: s.options.table_name,
                        cursor: latest_timestamp(s.cursor, changes),
                    },
                ),
            ]
        },
        row_of(checkpoint) matches Some(RowView::Checkpoint { resolved }) && run(
            s,
            changes.push(checkpoint),
        ).state.options.cursor == Some(resolved),
{
    let items = changes.push(checkpoint);
    assert(all_rows(items)) by {
        assert forall|i: int| 0 <= i < items.len() implies is_change(#[trigger] items[i])
            || is_checkpoint(items[i]) by {
            if i < changes.len() {
                assert(items[i] == changes[i]);
            }
        }
    }
    lemma_run_of_rows(s, items);
    assert(items.drop_last() =~= changes);
    assert(items.last() == checkpoint);
    lemma_changes_alone(s, changes);
    if changes.len() > 0 {
        assert(is_change(changes.last()));
    }
}

/// Checkpoints are persisted once. When a consumer in any state takes a run
/// of checkpoint rows with no change row among them, it hands on at most one
/// `Cursor` event: one if a change was pending before the run, none otherwise.
pub proof fn checkpoints_persist_at_most_once(s: FeedView, checkpoints: Seq<ItemView>)
    requires
        forall|i: int| 0 <= i < checkpoints.len() ==> is_checkpoint(#[trigger] checkpoints[i]),
    ensures
        run(s, checkpoints).end == AttemptEnd::Drained,
        run(s, checkpoints).events.len() <= 1,
        run(s, checkpoints).events == if s.cursor_saved || checkpoints.len() == 0 {
            Seq::<EventView>::empty()
        } else {
            seq![
                EventView::Cursor(
                    CursorView { table_name: s.options.table_name, cursor: s.cursor },
                ),
            ]
        },
{
    assert(all_rows(checkpoints));
    lemma_run_of_rows(s, checkpoints);
    lemma_checkpoints_alone(s, checkpoints);
}

/// Resuming. A consumer that starts with the token that the cursor store
/// holds for its table opens its first subscription with that token as the
/// cursor.
pub proof fn resume_opens_at_stored_token(table_name: Seq<char>, token: Seq<char>)
    ensures
        query_text(initial_feed(table_name, Some(token)).options) == "SUBSCRIBE CHANGES FOR "@
            + table_name + " WITH updated, resolved='10s'"@ + ", cursor='"@ + token + "'"@ + ";"@,
{
    let options = initial_feed(table_name, Some(token)).options;
    assert(query_text(options) =~= "SUBSCRIBE CHANGES FOR "@ + table_name
        + " WITH updated, resolved='10s'"@ + ", cursor='"@ + token + "'"@ + ";"@) by {
        assert(crate::options::envelope_clause(options.envelope) =~= Seq::<char>::empty());
    }
}

/// The persisted cursor never runs ahead. When a consumer that has just
/// started takes any run of change rows and checkpoint rows and then one more
/// checkpoint row, this checkpoint hands on a `Cursor` event only if the row
/// before it is a change, which has been handed on before it, and the cursor
/// it carries is the timestamp of the latest change handed on so far that
/// has one, or the empty token if none has.
pub proof fn persisted_cursor_is_latest_forwarded(
    table_name: Seq<char>,
    token: Option<Seq<char>>,
    items: Seq<ItemView>,
    checkpoint: ItemView,
)
    requires
        all_rows(items),
        is_checkpoint(checkpoint),
    ensures
        run(initial_feed(table_name, token), items).events == emitted(
            initial_feed(table_name, token),
            items,
        ),
        run(initial_feed(table_name, token), items.push(checkpoint)).events == emitted(
            initial_feed(table_name, token),
            items,
        ) + if items.len() > 0 && is_change(items.last()) {
            seq![
                EventView::Cursor(
                    CursorView {
                        table_name,
                        cursor: latest_timestamp(Seq::<char>::empty(), items),
                    },
                ),
            ]
        } else {
            Seq::<EventView>::empty()
        },
{
    let s = initial_feed(table_name, token);
    let all = items.push(checkpoint);
    assert(all_rows(all)) by {
        assert forall|i: int| 0 <= i < all.len() implies is_change(#[trigger] all[i])
            || is_checkpoint(all[i]) by {
            if i < items.len() {
                assert(all[i] == items[i]);
            }
        }
    }
    lemma_run_of_rows(s, items);
    lemma_run_of_rows(s, all);
    assert(all.drop_last() =~= items);
    assert(all.last() == checkpoint);
    if items.len() > 0 {
        assert(is_change(items.last()) || is_checkpoint(items.last()));
    }
}

/// A lost connection does not lose the place. Whatever ends a subscription
/// attempt without being fatal leaves the consumer as it was, so that the
/// next request carries the resume token that the consumer held.
pub proof fn reopening_keeps_the_resume_token(s: FeedView, item: ItemView)
    requires
        item_step(s, item).1 is Reopen,
    ensures
        item_step(s, item).0 == s,
        query_text(item_step(s, item).0.options) == query_text(s.options),
{
}

/// The publisher sees what the consumer saw, in the same order. When a
/// consumer takes a run of change rows and then a checkpoint row and its
/// events reach a publisher that has not given up, the publisher publishes
/// each change, in the order in which the rows arrived, and persists the
/// cursor, if there is one, after all of them.
pub proof fn publisher_sees_changes_in_order(
    s: FeedView,
    changes: Seq<ItemView>,
    checkpoint: ItemView,
    channel: ChannelState,
)
    requires
        forall|i: int| 0 <= i < changes.len() ==> is_change(#[trigger] changes[i]),
        is_checkpoint(checkpoint),
        channel != ChannelState::Closed,
    ensures
        ({
            let actions = drained(channel, run(s, changes.push(checkpoint)).events);
            &&& changes.len() <= actions.len() <= changes.len() + 1
            &&& forall|i: int|
                0 <= i < changes.len() ==> #[trigger] actions[i] == action_for(
                    channel,
                    Some(publish_of(changes[i])),
                ) && actions[i] is Publish
            &&& actions.len() == changes.len() + 1 ==> actions[changes.len() as int]
                == ActionView::Persist(
                CursorView {
                    table_name: s.options.table_name,
                    cursor: latest_timestamp(s.cursor, changes),
                },
            )
            &&& actions.len() == changes.len() <==> changes.len() == 0 && s.cursor_saved
        }),
{
    changes_precede_their_cursor(s, changes, checkpoint);
    let events = run(s, changes.push(checkpoint)).events;
    assert forall|i: int| 0 <= i < changes.len() implies #[trigger] events[i] == publish_of(
        changes[i],
    ) && events[i] is Publish by {
        assert(is_change(changes[i]));
        assert(publishes_of(changes)[i] == publish_of(changes[i]));
    }
    assert(!has_stop(events)) by {
        if has_stop(events) {
            let i = choose|i: int| 0 <= i < events.len() && #[trigger] events[i] is Stop;
            if i < changes.len() {
                assert(events[i] is Publish);
            }
        }
    }
    lemma_drained_without_stop(channel, events);
    assert forall|i: int| 0 <= i < changes.len() implies #[trigger] actions_for(
        channel,
        events,
    )[i] == action_for(channel, Some(publish_of(changes[i]))) by {
        assert(events[i] == publish_of(changes[i]));
    }
}

} // verus!
