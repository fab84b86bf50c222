//! What holds of the queue controller, stated over its model and proved.
//!
//! A script is judged against a pipeline that follows its state machine:
//! [`pipeline_requests`] are the requests that reach the pipeline, and
//! `after_script` tells the status they lead to when all of them succeed.
use crate::item::QueueItem;
use crate::pipeline::after_request;
use crate::pipeline::after_script;
use crate::pipeline::lemma_start_reaches_playing;
use crate::pipeline::lemma_stop_reaches_null;
use crate::pipeline::lemma_pause_reaches_paused;
use crate::pipeline::lemma_seek_reaches_target;
use crate::pipeline::seek_plan;
use crate::pipeline::script_allowed;
use crate::pipeline::start_script;
use crate::pipeline::stop_script;
use crate::pipeline::PipelineError;
use crate::pipeline::PipelineRequest;
use crate::pipeline::PipelineStatus;
use crate::pipeline::PlaybackState;
use crate::queue::completion_script;
use crate::queue::lift;
use crate::queue::load_script;
use crate::queue::other_than;
use crate::queue::without_id;
use crate::queue::BusMessage;
use crate::queue::Operation;
use crate::queue::Failure;
use crate::queue::Pending;
use crate::queue::Planned;
use crate::queue::QueueError;
use crate::queue::QueueState;
use crate::queue::Reply;
use crate::queue::Request;
use vstd::prelude::*;

verus! {

/// The requests of a script that go to the pipeline, in order.
pub open spec fn pipeline_requests(script: Seq<Request>) -> Seq<PipelineRequest>
    decreases script.len(),
{
    if script.len() == 0 {
        seq![]
    } else {
        match script.first() {
            Request::Pipeline(request) => seq![request] + pipeline_requests(script.drop_first()),
            Request::Complete(_) => pipeline_requests(script.drop_first()),
        }
    }
}

/// The items that a script reports as completed, in order.
pub open spec fn completions(script: Seq<Request>) -> Seq<QueueItem>
    decreases script.len(),
{
    if script.len() == 0 {
        seq![]
    } else {
        match script.first() {
            Request::Pipeline(_) => completions(script.drop_first()),
            Request::Complete(item) => seq![item] + completions(script.drop_first()),
        }
    }
}

/// The state after each of `items` was appended in turn.
pub open spec fn add_all(state: QueueState, items: Seq<QueueItem>) -> QueueState
    decreases items.len(),
{
    if items.len() == 0 {
        state
    } else {
        add_all(state, items.drop_last()).add(items.last())
    }
}

/// The pipeline's share of a script made of two parts is made of the shares
/// of the parts, and so are its completions.
pub proof fn lemma_parts_of_concat(a: Seq<Request>, b: Seq<Request>)
    ensures
        pipeline_requests(a + b) == pipeline_requests(a) + pipeline_requests(b),
        completions(a + b) == completions(a) + completions(b),
    decreases a.len(),
{
    if a.len() == 0 {
        assert(a + b =~= b);
        assert(pipeline_requests(a) + pipeline_requests(b) =~= pipeline_requests(b));
        assert(completions(a) + completions(b) =~= completions(b));
    } else {
        assert((a + b).drop_first() =~= a.drop_first() + b);
        assert((a + b).first() == a.first());
        lemma_parts_of_concat(a.drop_first(), b);
        match a.first() {
            Request::Pipeline(request) => {
                assert(pipeline_requests(a + b) =~= pipeline_requests(a) + pipeline_requests(b));
            },
            Request::Complete(item) => {
                assert(completions(a + b) =~= completions(a) + completions(b));
            },
        }
    }
}

/// A pipeline script that is handed to the caller reaches the pipeline
/// whole, and reports nothing as completed.
pub proof fn lemma_parts_of_lift(script: Seq<PipelineRequest>)
    ensures
        pipeline_requests(lift(script)) == script,
        completions(lift(script)) == Seq::<QueueItem>::empty(),
    decreases script.len(),
{
    if script.len() == 0 {
    } else {
        assert(lift(script).drop_first() =~= lift(script.drop_first()));
        lemma_parts_of_lift(script.drop_first());
        assert(pipeline_requests(lift(script)) =~= script);
    }
}

/// What a completion script holds: the outgoing item where a callback waits
/// for it, and nothing for the pipeline.
pub proof fn lemma_parts_of_completion(current: Option<QueueItem>)
    ensures
        pipeline_requests(completion_script(current)) == Seq::<PipelineRequest>::empty(),
        completions(completion_script(current)) == match current {
            Some(item) => if item.has_callback {
                seq![item]
            } else {
                seq![]
            },
            None => seq![],
        },
{
    reveal_with_fuel(pipeline_requests, 2);
    reveal_with_fuel(completions, 2);
    let script = completion_script(current);
    if script.len() == 1 {
        assert(script.drop_first() =~= seq![]);
        assert(completions(script) =~= seq![current->Some_0]);
    }
}

/// Carrying out a script of two parts is carrying out the first and then the
/// second, and the script is admitted where both are in their turn.
pub proof fn lemma_script_concat(status: PipelineStatus, a: Seq<PipelineRequest>, b: Seq<
    PipelineRequest,
>)
    ensures
        after_script(status, a + b) == after_script(after_script(status, a), b),
        script_allowed(status, a + b) == (script_allowed(status, a) && script_allowed(
            after_script(status, a),
            b,
        )),
    decreases a.len(),
{
    if a.len() == 0 {
        assert(a + b =~= b);
    } else {
        assert((a + b).drop_first() =~= a.drop_first() + b);
        assert((a + b).first() == a.first());
        lemma_script_concat(after_request(status, a.first()), a.drop_first(), b);
    }
}

/// Loading an item into an idle pipeline asks for nothing that the state
/// machine forbids and leaves the pipeline playing that item's locator; no
/// completion is reported.
pub proof fn lemma_load_reaches_playing(status: PipelineStatus, item: QueueItem)
    requires
        status.state == PlaybackState::Null,
    ensures
        script_allowed(status, pipeline_requests(load_script(item))),
        after_script(status, pipeline_requests(load_script(item))) == (PipelineStatus {
            state: PlaybackState::Playing,
            source: Some(item.uri),
            ..status
        }),
        completions(load_script(item)) == Seq::<QueueItem>::empty(),
{
    let set = seq![Request::Pipeline(PipelineRequest::SetSource(item.uri))];
    let start = start_script(PlaybackState::Null);
    lemma_parts_of_concat(set, lift(start));
    lemma_parts_of_lift(start);
    reveal_with_fuel(pipeline_requests, 2);
    reveal_with_fuel(completions, 2);
    assert(set.drop_first() =~= seq![]);
    let source = seq![PipelineRequest::SetSource(item.uri)];
    assert(pipeline_requests(set) =~= source);
    assert(completions(set) =~= seq![]);
    assert(completions(load_script(item)) =~= seq![]);
    let loaded = PipelineStatus { source: Some(item.uri), ..status };
    reveal_with_fuel(after_script, 2);
    reveal_with_fuel(script_allowed, 2);
    assert(source.drop_first() =~= seq![]);
    assert(after_script(status, source) == loaded);
    assert(script_allowed(status, source));
    lemma_script_concat(status, source, start);
    lemma_start_reaches_playing(loaded);
}

/// Items that are added one after the other stand in the queue in the order
/// of their adding, behind what was queued before. Added to an empty queue,
/// they are the queue.
pub proof fn lemma_adds_keep_order(state: QueueState, items: Seq<QueueItem>)
    ensures
        add_all(state, items).queue == state.queue + items,
        add_all(state, items).queue.len() == state.queue.len() + items.len(),
        add_all(state, items).current == state.current,
        add_all(state, items).pending == state.pending,
        state.queue.len() == 0 ==> add_all(state, items).queue == items,
    decreases items.len(),
{
    if items.len() == 0 {
        assert(state.queue + items =~= state.queue);
    } else {
        lemma_adds_keep_order(state, items.drop_last());
        assert(items.drop_last().push(items.last()) =~= items);
        assert((state.queue + items.drop_last()).push(items.last()) =~= state.queue + items);
    }
    if state.queue.len() == 0 {
        assert(state.queue + items =~= items);
    }
}

/// Removing an identifier that no queued item carries changes nothing.
pub proof fn lemma_remove_absent(state: QueueState, id: u128)
    requires
        forall|i: int| 0 <= i < state.queue.len() ==> state.queue[i].id != id,
    ensures
        state.remove(id) == state,
{
    lemma_filter_all(state.queue, id);
}

/// A queue whose items all carry another identifier than `id` passes the
/// filter whole.
proof fn lemma_filter_all(queue: Seq<QueueItem>, id: u128)
    requires
        forall|i: int| 0 <= i < queue.len() ==> queue[i].id != id,
    ensures
        without_id(queue, id) == queue,
    decreases queue.len(),
{
    reveal(Seq::filter);
    if queue.len() > 0 {
        lemma_filter_all(queue.drop_last(), id);
        assert(queue.drop_last().push(queue.last()) =~= queue);
    }
}

/// Removing the identifier of the one queued item that carries it takes out
/// exactly that item, wherever it stands, and leaves the others in their
/// order.
pub proof fn lemma_remove_present(state: QueueState, id: u128, k: int)
    requires
        0 <= k < state.queue.len(),
        state.queue[k].id == id,
        forall|i: int| 0 <= i < state.queue.len() && i != k ==> state.queue[i].id != id,
    ensures
        state.remove(id).queue == state.queue.remove(k),
        state.remove(id).queue.len() == state.queue.len() - 1,
        state.remove(id).current == state.current,
{
    let queue = state.queue;
    let before = queue.subrange(0, k);
    let after = queue.subrange(k + 1, queue.len() as int);
    let one = seq![queue[k]];
    assert(queue =~= before + one + after);
    Seq::filter_distributes_over_add(before + one, after, other_than(id));
    Seq::filter_distributes_over_add(before, one, other_than(id));
    lemma_filter_all(before, id);
    lemma_filter_all(after, id);
    assert(one.filter(other_than(id)) =~= Seq::<QueueItem>::empty()) by {
        reveal_with_fuel(Seq::filter, 2);
        assert(one.drop_last() =~= Seq::<QueueItem>::empty());
    }
    assert(queue.remove(k) =~= before + after);
    assert(without_id(queue, id) =~= before + after);
}

/// Whatever is removed, each item that stays carries another identifier,
/// none that carries another is lost, and the queue does not grow.
pub proof fn lemma_remove_keeps_others(state: QueueState, id: u128)
    ensures
        forall|i: int|
            0 <= i < state.remove(id).queue.len() ==> (#[trigger] state.remove(id).queue[i]).id
                != id,
        forall|i: int|
            0 <= i < state.queue.len() && state.queue[i].id != id ==> state.remove(
                id,
            ).queue.contains(#[trigger] state.queue[i]),
        state.remove(id).queue.len() <= state.queue.len(),
{
    broadcast use vstd::seq_lib::group_filter_ensures;

    assert forall|i: int| 0 <= i < state.queue.len() && state.queue[i].id != id implies state.remove(
        id,
    ).queue.contains(#[trigger] state.queue[i]) by {
        assert(other_than(id)(state.queue[i]));
    }
}

/// A start on an idle pipeline with nothing queued reports that no item is
/// left and changes nothing.
pub proof fn lemma_start_on_empty_queue(state: QueueState, status: PipelineStatus)
    requires
        state.pending == Pending::Idle,
        state.queue.len() == 0,
        status.state == PlaybackState::Null,
    ensures
        state.start(status) == (state, Planned::Finished(Err(QueueError::NoMoreItems))),
{
}

/// A start whose script fails, at whichever request, puts the item that it
/// took back at the head: the queue is what it was, nothing became current,
/// and the pipeline's report is handed on.
pub proof fn lemma_failed_start_restores(
    state: QueueState,
    status: PipelineStatus,
    failure: Failure,
)
    requires
        state.pending == Pending::Idle,
        state.queue.len() > 0,
        status.state == PlaybackState::Null,
    ensures
        state.start(status).1 == Planned::Perform(load_script(state.queue[0])),
        state.start(status).0.finish(Err(failure)) == (
            state,
            Err::<Reply, _>(QueueError::Pipeline(PipelineError::Failed(failure.report))),
        ),
{
    assert(seq![state.queue[0]] + state.queue.drop_first() =~= state.queue);
}

/// A start whose script succeeds makes the head of the queue current and
/// leaves the rest queued, with the pipeline playing it.
pub proof fn lemma_start_plays_head(state: QueueState, status: PipelineStatus)
    requires
        state.pending == Pending::Idle,
        state.queue.len() > 0,
        status.state == PlaybackState::Null,
    ensures
        state.start(status).1 == Planned::Perform(load_script(state.queue[0])),
        state.start(status).0.finish(Ok(())) == (
            QueueState {
                queue: state.queue.drop_first(),
                current: Some(state.queue[0]),
                pending: Pending::Idle,
            },
            Ok::<_, QueueError>(Reply::NowPlaying(Some(state.queue[0]))),
        ),
        script_allowed(status, pipeline_requests(load_script(state.queue[0]))),
        after_script(status, pipeline_requests(load_script(state.queue[0]))).state
            == PlaybackState::Playing,
{
    lemma_load_reaches_playing(status, state.queue[0]);
}

/// A pause while the pipeline does not play is refused: no request is
/// issued, so the pipeline stays as it is, and the controller is unchanged.
pub proof fn lemma_pause_needs_playing(state: QueueState, status: PipelineStatus)
    requires
        state.pending == Pending::Idle,
        status.state != PlaybackState::Playing,
    ensures
        state.pause(status) == (state, Planned::Finished(Err(QueueError::NotPlaying))),
{
}

/// A seek while the pipeline does not play is refused, and the controller is
/// unchanged.
pub proof fn lemma_seek_needs_playing(state: QueueState, delta: i64, status: PipelineStatus)
    requires
        state.pending == Pending::Idle,
        status.state != PlaybackState::Playing,
    ensures
        state.seek(delta, status) == (
            state,
            Planned::Finished(Err(QueueError::Pipeline(PipelineError::SeekNotPlaying))),
        ),
{
}

/// A skip with one item queued and nothing playing makes that item current,
/// empties the queue and leaves the pipeline playing. The item has only
/// become current, so it is not reported as completed.
pub proof fn lemma_skip_single_item(item: QueueItem, status: PipelineStatus)
    requires
        status.state == PlaybackState::Null,
    ensures
        ({
            let state = QueueState { queue: seq![item], current: None, pending: Pending::Idle };
            &&& state.skip(status).1 == Planned::Perform(load_script(item))
            &&& state.skip(status).0.finish(Ok(())) == (
                QueueState {
                    queue: Seq::<QueueItem>::empty(),
                    current: Some(item),
                    pending: Pending::Idle,
                },
                Ok::<_, QueueError>(Reply::Skipped),
            )
        }),
        script_allowed(status, pipeline_requests(load_script(item))),
        after_script(status, pipeline_requests(load_script(item))).state == PlaybackState::Playing,
        completions(load_script(item)) == Seq::<QueueItem>::empty(),
{
    let state = QueueState { queue: seq![item], current: None, pending: Pending::Idle };
    lemma_load_reaches_playing(status, item);
    assert(lift(stop_script(status.state)) =~= seq![]);
    assert(state.skip_script(status) =~= load_script(item));
    assert(load_script(item).len() == 3);
    assert(state.tail() =~= Seq::<QueueItem>::empty());
}

/// A stop never reports an item as completed, whether it ends at once or
/// performs a script, and whether that script succeeds or fails.
pub proof fn lemma_stop_completes_nothing(state: QueueState, status: PipelineStatus)
    ensures
        match state.stop(status).1 {
            Planned::Perform(script) => completions(script) == Seq::<QueueItem>::empty(),
            Planned::Finished(_) => true,
        },
{
    lemma_parts_of_lift(stop_script(status.state));
}

/// A stop that succeeds gives up the current item and leaves the queue as
/// it is; its script takes the pipeline to `Null` by admitted transitions.
pub proof fn lemma_stop_clears_current(state: QueueState, status: PipelineStatus)
    requires
        state.pending == Pending::Idle,
        status.state != PlaybackState::Null,
    ensures
        state.stop(status).1 == Planned::Perform(lift(stop_script(status.state))),
        state.stop(status).0.finish(Ok(())) == (
            QueueState { current: None, ..state },
            Ok::<_, QueueError>(Reply::Stopped),
        ),
        script_allowed(status, pipeline_requests(lift(stop_script(status.state)))),
        after_script(status, pipeline_requests(lift(stop_script(status.state)))).state
            == PlaybackState::Null,
{
    lemma_parts_of_lift(stop_script(status.state));
    lemma_stop_reaches_null(status);
}

/// While the script of one start is being performed a second start is
/// turned away and takes nothing from the queue. Once the first has ended
/// and the pipeline plays, a second start leaves the queue alone as well: of
/// two starts one item becomes current, and every other stays queued.
pub proof fn lemma_second_start_takes_nothing(
    state: QueueState,
    status: PipelineStatus,
    later: PipelineStatus,
)
    requires
        state.pending == Pending::Idle,
        state.queue.len() >= 1,
        status.state == PlaybackState::Null,
    ensures
        ({
            let begun = state.start(status).0;
            let played = begun.finish(Ok(())).0;
            let playing = after_script(status, pipeline_requests(load_script(state.queue[0])));
            &&& begun.start(later) == (begun, Planned::Finished(Err(QueueError::Busy)))
            &&& played.current == Some(state.queue[0])
            &&& played.queue == state.queue.drop_first()
            &&& played.start(playing) == (
                played,
                Planned::Finished(Ok(Reply::NowPlaying(Some(state.queue[0])))),
            )
        }),
{
    lemma_load_reaches_playing(status, state.queue[0]);
}

/// At the end of the stream of item `a`, with `b` alone in the queue, the
/// controller stops the pipeline, reports `a` as completed where a callback
/// waits for it, loads `b` and starts: `b` is current, the queue is empty
/// and the pipeline plays.
pub proof fn lemma_end_of_stream_advances(a: QueueItem, b: QueueItem, status: PipelineStatus)
    requires
        status.state == PlaybackState::Playing,
    ensures
        ({
            let state = QueueState { queue: seq![b], current: Some(a), pending: Pending::Idle };
            let script = state.skip_script(status);
            &&& state.message(BusMessage::EndOfStream, status).1 == Some(Planned::Perform(script))
            &&& state.message(BusMessage::EndOfStream, status).0.finish(Ok(())) == (
                QueueState {
                    queue: Seq::<QueueItem>::empty(),
                    current: Some(b),
                    pending: Pending::Idle,
                },
                Ok::<_, QueueError>(Reply::Skipped),
            )
            &&& completions(script) == if a.has_callback {
                seq![a]
            } else {
                seq![]
            }
            &&& script_allowed(status, pipeline_requests(script))
            &&& after_script(status, pipeline_requests(script)).state == PlaybackState::Playing
            &&& after_script(status, pipeline_requests(script)).source == Some(b.uri)
        }),
{
    let state = QueueState { queue: seq![b], current: Some(a), pending: Pending::Idle };
    lemma_skip_script_parts(state, status);
    assert(state.tail() =~= Seq::<QueueItem>::empty());
    assert(state.skip_script(status).len() > 0);
}

/// What the script of a skip asks of the pipeline and what it reports: the
/// stop, then the outgoing item's completion, then the load of the head.
pub proof fn lemma_skip_script_parts(state: QueueState, status: PipelineStatus)
    ensures
        completions(state.skip_script(status)) == completions(completion_script(state.current)),
        pipeline_requests(state.skip_script(status)) == stop_script(status.state) + match state.head() {
            Some(item) => pipeline_requests(load_script(item)),
            None => seq![],
        },
        script_allowed(status, pipeline_requests(state.skip_script(status))),
        after_script(status, pipeline_requests(state.skip_script(status))) == match state.head() {
            Some(item) => PipelineStatus {
                state: PlaybackState::Playing,
                source: Some(item.uri),
                ..status
            },
            None => PipelineStatus { state: PlaybackState::Null, ..status },
        },
        completions(completion_script(state.current)) == match state.current {
            Some(item) => if item.has_callback {
                seq![item]
            } else {
                seq![]
            },
            None => seq![],
        },
{
    let stop = stop_script(status.state);
    let done = completion_script(state.current);
    let load = match state.head() {
        Some(item) => load_script(item),
        None => seq![],
    };
    lemma_parts_of_concat(lift(stop) + done, load);
    lemma_parts_of_concat(lift(stop), done);
    lemma_parts_of_lift(stop);
    lemma_parts_of_completion(state.current);
    lemma_stop_reaches_null(status);
    let stopped = PipelineStatus { state: PlaybackState::Null, ..status };
    assert(pipeline_requests(state.skip_script(status)) =~= stop + pipeline_requests(load));
    assert(completions(state.skip_script(status)) =~= completions(done)) by {
        match state.head() {
            Some(item) => {
                lemma_load_reaches_playing(stopped, item);
            },
            None => {},
        }
    }
    lemma_script_concat(status, stop, pipeline_requests(load));
    match state.head() {
        Some(item) => {
            lemma_load_reaches_playing(stopped, item);
        },
        None => {
            assert(pipeline_requests(load) =~= seq![]);
        },
    }
}

/// Whether a controller at rest and a pipeline agree: an item is current
/// only while the pipeline is not idle.
pub open spec fn consistent(state: QueueState, status: PipelineStatus) -> bool {
    state.pending == Pending::Idle && (state.current is Some ==> status.state
        != PlaybackState::Null)
}

/// The state that an operation aims at: the one in which a pipeline is
/// that has carried out the operation's script.
pub open spec fn aimed_state(
    state: QueueState,
    operation: Operation,
    status: PipelineStatus,
) -> PlaybackState {
    match operation {
        Operation::Start => PlaybackState::Playing,
        Operation::Stop => PlaybackState::Null,
        Operation::Pause => PlaybackState::Paused,
        Operation::Skip => if state.queue.len() > 0 {
            PlaybackState::Playing
        } else {
            PlaybackState::Null
        },
        Operation::Seek(_) => status.state,
    }
}

/// The item that an operation reports as completed: the one that a skip
/// finds current, where a callback waits for it, and none otherwise.
pub open spec fn completed_by(state: QueueState, operation: Operation) -> Seq<QueueItem> {
    if operation == Operation::Skip && state.current is Some
        && state.current->Some_0.has_callback {
        seq![state.current->Some_0]
    } else {
        seq![]
    }
}

/// What the script of an operation is made of, whatever the operation, the
/// controller and the pipeline's status: each request to the pipeline is
/// admitted in the status that the requests before it lead to, the requests
/// together take the pipeline to the state that the operation aims at, and
/// the completions are those of the operation.
pub proof fn lemma_script_of_operation(
    state: QueueState,
    operation: Operation,
    status: PipelineStatus,
)
    ensures
        match state.begin(operation, status).1 {
            Planned::Perform(script) => {
                &&& script_allowed(status, pipeline_requests(script))
                &&& after_script(status, pipeline_requests(script)).state == aimed_state(
                    state,
                    operation,
                    status,
                )
                &&& completions(script) == completed_by(state, operation)
            },
            Planned::Finished(_) => true,
        },
{
    match operation {
        Operation::Start => {
            if state.queue.len() > 0 && status.state == PlaybackState::Null {
                lemma_load_reaches_playing(status, state.queue[0]);
            }
            lemma_parts_of_lift(start_script(PlaybackState::Paused));
            lemma_start_reaches_playing(status);
        },
        Operation::Stop => {
            lemma_parts_of_lift(stop_script(status.state));
            lemma_stop_reaches_null(status);
        },
        Operation::Pause => {
            let script = seq![PipelineRequest::SetState(PlaybackState::Paused)];
            lemma_parts_of_lift(script);
            if status.state == PlaybackState::Playing {
                lemma_pause_reaches_paused(status);
            }
        },
        Operation::Skip => {
            lemma_skip_script_parts(state, status);
        },
        Operation::Seek(delta) => {
            if seek_plan(status, delta) is Ok {
                let script = seq![PipelineRequest::SeekTo(seek_plan(status, delta)->Ok_0)];
                lemma_parts_of_lift(script);
                lemma_seek_reaches_target(status, delta);
            }
        },
    }
}

/// The controller never asks the pipeline for what its state machine
/// forbids: whatever the operation and whatever the pipeline's status, each
/// request of the script is admitted in the status that the requests before
/// it lead to.
pub proof fn lemma_scripts_are_admitted(
    state: QueueState,
    operation: Operation,
    status: PipelineStatus,
)
    ensures
        match state.begin(operation, status).1 {
            Planned::Perform(script) => script_allowed(status, pipeline_requests(script)),
            Planned::Finished(_) => true,
        },
{
    lemma_script_of_operation(state, operation, status);
}

/// An operation that ends at once, or whose script succeeds, keeps
/// controller and pipeline in agreement.
pub proof fn lemma_success_keeps_consistent(
    state: QueueState,
    operation: Operation,
    status: PipelineStatus,
)
    requires
        consistent(state, status),
    ensures
        match state.begin(operation, status).1 {
            Planned::Perform(script) => consistent(
                state.begin(operation, status).0.finish(Ok(())).0,
                after_script(status, pipeline_requests(script)),
            ),
            Planned::Finished(_) => consistent(state.begin(operation, status).0, status),
        },
{
    lemma_script_of_operation(state, operation, status);
}

/// A stop that is broken off before its last transition leaves the pipeline
/// out of `Null`.
proof fn lemma_stop_prefix(status: PipelineStatus, i: int)
    requires
        status.state != PlaybackState::Null,
        0 <= i < 2,
    ensures
        after_script(status, stop_script(status.state).take(i)).state != PlaybackState::Null,
        pipeline_requests(lift(stop_script(status.state)).take(i)) == stop_script(
            status.state,
        ).take(i),
{
    let stop = stop_script(status.state);
    assert(lift(stop).take(i) =~= lift(stop.take(i)));
    lemma_parts_of_lift(stop.take(i));
    reveal_with_fuel(after_script, 2);
    if i == 1 {
        assert(stop.take(1) =~= seq![PipelineRequest::SetState(PlaybackState::Ready)]);
        assert(stop.take(1).drop_first() =~= seq![]);
    } else {
        assert(stop.take(0) =~= seq![]);
    }
}

/// An operation whose script fails at one of its requests to the pipeline,
/// the requests before it having succeeded, keeps controller and pipeline
/// in agreement.
pub proof fn lemma_failure_keeps_consistent(
    state: QueueState,
    operation: Operation,
    status: PipelineStatus,
    failure: Failure,
)
    requires
        consistent(state, status),
        state.begin(operation, status).1 is Perform,
        failure.index < state.begin(operation, status).1->Perform_0.len(),
        state.begin(operation, status).1->Perform_0[failure.index as int] is Pipeline,
    ensures
        consistent(
            state.begin(operation, status).0.finish(Err(failure)).0,
            after_script(
                status,
                pipeline_requests(
                    state.begin(operation, status).1->Perform_0.take(failure.index as int),
                ),
            ),
        ),
{
    let script = state.begin(operation, status).1->Perform_0;
    let i = failure.index as int;
    let stop = stop_script(status.state);
    match operation {
        Operation::Start => {
            if status.state == PlaybackState::Paused {
                assert(script.take(0) =~= seq![]);
            }
        },
        Operation::Stop => {
            lemma_stop_prefix(status, i);
        },
        Operation::Pause => {
            assert(script.take(0) =~= seq![]);
        },
        Operation::Skip => {
            if i < stop.len() {
                assert(script.take(i) =~= lift(stop).take(i));
                lemma_stop_prefix(status, i);
            }
        },
        Operation::Seek(delta) => {
            assert(script.take(0) =~= seq![]);
        },
    }
}

/// A skip is a stop followed by a start. Where the scripts succeed, the
/// skip leaves the controller as a stop and then a start on the stopped
/// pipeline leave it, and asks the pipeline for the same requests in the
/// same order.
pub proof fn lemma_skip_is_stop_then_start(state: QueueState, status: PipelineStatus)
    requires
        state.pending == Pending::Idle,
        status.state != PlaybackState::Null,
        state.queue.len() > 0,
    ensures
        ({
            let stopped = state.stop(status).0.finish(Ok(())).0;
            let idle = after_script(status, stop_script(status.state));
            let started = stopped.start(idle).0.finish(Ok(())).0;
            &&& idle.state == PlaybackState::Null
            &&& state.skip(status).0.finish(Ok(())).0 == started
            &&& state.skip(status).1 is Perform
            &&& pipeline_requests(state.skip(status).1->Perform_0) == stop_script(status.state)
                + pipeline_requests(stopped.start(idle).1->Perform_0)
        }),
{
    lemma_stop_reaches_null(status);
    lemma_skip_script_parts(state, status);
}

/// An item is reported as completed only by a skip, and only the item that
/// the skip found current, where a callback waits for it. No other
/// operation reports a completion.
pub proof fn lemma_only_skip_completes(
    state: QueueState,
    operation: Operation,
    status: PipelineStatus,
)
    ensures
        match state.begin(operation, status).1 {
            Planned::Perform(script) => completions(script) == completed_by(state, operation),
            Planned::Finished(_) => true,
        },
        operation != Operation::Skip ==> completed_by(state, operation) == Seq::<
            QueueItem,
        >::empty(),
{
    lemma_script_of_operation(state, operation, status);
}

/// A completion stands in a skip's script behind the requests that stop the
/// pipeline: where one of those fails, the callback is not invoked and the
/// item stays current.
pub proof fn lemma_completion_follows_stop(state: QueueState, status: PipelineStatus, i: int)
    requires
        0 <= i < stop_script(status.state).len(),
    ensures
        state.skip_script(status)[i] is Pipeline,
        completions(state.skip_script(status).take(i)) == Seq::<QueueItem>::empty(),
{
    let stop = stop_script(status.state);
    assert(state.skip_script(status).take(i) =~= lift(stop.take(i)));
    lemma_parts_of_lift(stop.take(i));
}

/// No operation loses a queued item, however its script ends: afterwards
/// the queue is what it was, or its head has become the current item and
/// the rest is queued as before.
pub proof fn lemma_queued_items_are_kept(
    state: QueueState,
    operation: Operation,
    status: PipelineStatus,
    outcome: Result<(), Failure>,
)
    requires
        state.pending == Pending::Idle,
    ensures
        ({
            let begun = state.begin(operation, status).0;
            let ended = if state.begin(operation, status).1 is Perform {
                begun.finish(outcome).0
            } else {
                begun
            };
            &&& ended.pending == Pending::Idle
            &&& ended.queue == state.queue || (state.queue.len() > 0 && ended.queue
                == state.queue.drop_first() && ended.current == Some(state.queue[0]))
        }),
{
    if state.queue.len() > 0 {
        assert(seq![state.queue[0]] + state.queue.drop_first() =~= state.queue);
    }
}

/// An item is completed at most once. Once the stop of a skip has
/// succeeded, so that the outgoing item was reported as completed, the
/// controller holds that item no more, neither as current nor in the queue,
/// and so cannot report it again; this holds of an item that stands nowhere
/// else in the queue. Where the stop fails, the item stays current.
pub proof fn lemma_completed_item_leaves(
    state: QueueState,
    status: PipelineStatus,
    outcome: Result<(), Failure>,
)
    requires
        state.pending == Pending::Idle,
        state.current is Some,
        !state.queue.contains(state.current->Some_0),
        state.skip(status).1 is Perform,
    ensures
        ({
            let ended = state.skip(status).0.finish(outcome).0;
            let stopped = outcome is Ok || outcome->Err_0.index >= stop_script(status.state).len();
            &&& stopped ==> ended.current != state.current && !ended.queue.contains(
                state.current->Some_0,
            )
            &&& !stopped ==> ended.current == state.current && ended.queue == state.queue
        }),
{
    let outgoing = state.current->Some_0;
    let ended = state.skip(status).0.finish(outcome).0;
    if state.queue.len() > 0 {
        assert(seq![state.queue[0]] + state.queue.drop_first() =~= state.queue);
        assert(state.queue.contains(state.queue[0]));
        assert forall|i: int| 0 <= i < state.queue.drop_first().len() implies state.queue.drop_first()[i]
            != outgoing by {
            assert(state.queue.contains(state.queue[i + 1]));
        }
    }
}

/// One operation of a run: what is asked for, and the failure that the
/// pipeline answers with, if it fails.
pub ghost struct Turn {
    pub operation: Operation,
    pub failure: Option<Failure>,
}

/// Whether a failure can befall a script: it names one of the script's
/// requests to the pipeline.
pub open spec fn can_fail_with(script: Seq<Request>, failure: Failure) -> bool {
    failure.index < script.len() && script[failure.index as int] is Pipeline
}

/// The controller and the pipeline after one operation was carried through
/// against a pipeline that follows its state machine: the script is
/// performed up to the request that fails, or whole.
pub open spec fn carried_through(state: QueueState, status: PipelineStatus, turn: Turn) -> (
    QueueState,
    PipelineStatus,
) {
    let begun = state.begin(turn.operation, status).0;
    match state.begin(turn.operation, status).1 {
        Planned::Finished(_) => (begun, status),
        Planned::Perform(script) => match turn.failure {
            Some(failure) => if can_fail_with(script, failure) {
                (
                    begun.finish(Err(failure)).0,
                    after_script(status, pipeline_requests(script.take(failure.index as int))),
                )
            } else {
                (begun.finish(Ok(())).0, after_script(status, pipeline_requests(script)))
            },
            None => (begun.finish(Ok(())).0, after_script(status, pipeline_requests(script))),
        },
    }
}

/// The controller and the pipeline after a run of operations.
pub open spec fn after_run(state: QueueState, status: PipelineStatus, turns: Seq<Turn>) -> (
    QueueState,
    PipelineStatus,
)
    decreases turns.len(),
{
    if turns.len() == 0 {
        (state, status)
    } else {
        let next = carried_through(state, status, turns.first());
        after_run(next.0, next.1, turns.drop_first())
    }
}

/// Through every run of operations, whichever of them fail and wherever,
/// controller and pipeline stay in agreement: an item is current only while
/// the pipeline is not idle. A controller that was just made agrees with
/// every pipeline.
pub proof fn lemma_run_keeps_consistent(state: QueueState, status: PipelineStatus, turns: Seq<Turn>)
    requires
        consistent(state, status),
    ensures
        consistent(after_run(state, status, turns).0, after_run(state, status, turns).1),
        consistent(QueueState::empty(), status),
    decreases turns.len(),
{
    if turns.len() > 0 {
        let turn = turns.first();
        lemma_success_keeps_consistent(state, turn.operation, status);
        match (state.begin(turn.operation, status).1, turn.failure) {
            (Planned::Perform(script), Some(failure)) => {
                if can_fail_with(script, failure) {
                    lemma_failure_keeps_consistent(state, turn.operation, status, failure);
                }
            },
            _ => {},
        }
        let next = carried_through(state, status, turn);
        lemma_run_keeps_consistent(next.0, next.1, turns.drop_first());
    }
}

} // verus!
