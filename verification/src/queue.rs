//! The queue controller: an ordered queue of media items, the item that is
//! playing, and the decisions that drive the pipeline through them.
//!
//! The controller performs no work on the pipeline. A playback operation
//! begins with the pipeline's observed status and answers with a [`Step`]:
//! either the operation is finished, or a script of [`Request`]s is to be
//! performed, in order and up to the first failure, and its outcome handed to
//! [`PlayQueue::finish`]. The caller keeps the controller locked from the
//! beginning of an operation to its end.
use crate::item::normalize_locator;
use crate::item::locator_text;
use crate::item::is_random_id;
use crate::item::QueueItem;
use crate::pipeline::pause_pipeline;
use crate::pipeline::seek_pipeline;
use crate::pipeline::seek_plan;
use crate::pipeline::set_source_uri;
use crate::pipeline::start_pipeline;
use crate::pipeline::start_script;
use crate::pipeline::stop_pipeline;
use crate::pipeline::stop_script;
use crate::pipeline::PipelineError;
use crate::pipeline::PipelineRequest;
use crate::pipeline::PipelineStatus;
use crate::pipeline::PlaybackState;
use std::collections::VecDeque;
use vstd::prelude::*;

verus! {

/// One thing that the caller is asked to do.
#[derive(Debug, PartialEq, Eq)]
pub enum Request {
    /// Hand the request to the pipeline. It may fail.
    Pipeline(PipelineRequest),
    /// Hand the completion callback of this item to the background executor.
    /// This cannot fail; what the callback returns concerns nobody.
    Complete(QueueItem),
}

/// The first request of a script that the pipeline refused.
#[derive(Debug, PartialEq, Eq)]
pub struct Failure {
    /// Position of the refused request in the script.
    pub index: usize,
    /// What the pipeline reported.
    pub report: String,
}

/// Why a queue operation did not succeed.
#[derive(Debug, PartialEq, Eq)]
pub enum QueueError {
    /// Playback was to begin and the queue is empty.
    NoMoreItems,
    /// Pause was asked for while nothing is playing.
    NotPlaying,
    /// The locator of a new item is no URL.
    InvalidUri,
    /// The identifier of an item to remove is no UUID.
    InvalidId,
    /// An operation was begun before the one before it was finished.
    Busy,
    /// An outcome was reported and no script is waiting for one.
    NothingPending,
    /// The pipeline driver refused, or the pipeline failed.
    Pipeline(PipelineError),
}

/// What a playback operation that succeeded answers.
#[derive(Debug, PartialEq, Eq)]
pub enum Reply {
    /// Playback runs; the item is the one that is current.
    NowPlaying(Option<QueueItem>),
    /// Playback was stopped.
    Stopped,
    /// Playback was paused.
    Paused,
    /// The controller advanced to the next item.
    Skipped,
    /// A seek was made to this absolute position, in seconds.
    Position(u64),
}

/// How a playback operation goes on.
#[derive(Debug, PartialEq, Eq)]
pub enum Step {
    /// The script is to be performed and its outcome reported.
    Perform(Vec<Request>),
    /// The operation is over.
    Finished(Result<Reply, QueueError>),
}

/// The operation whose script is being performed.
#[derive(Debug, PartialEq, Eq)]
pub enum Pending {
    /// None.
    Idle,
    /// A start. The item was taken from the head of the queue and becomes
    /// current if the script succeeds; there is none where a paused pipeline
    /// resumes.
    Start(Option<QueueItem>),
    /// A stop.
    Stop,
    /// A pause.
    Pause,
    /// A seek to the given position.
    Seek(u64),
    /// A skip. The first `stop_len` requests of its script stop the pipeline;
    /// `next` was taken from the head of the queue.
    Skip { stop_len: usize, next: Option<QueueItem> },
}

/// A playback operation.
#[derive(Clone, Copy, Debug, PartialEq, Eq, Structural)]
pub enum Operation {
    Start,
    Stop,
    Pause,
    Skip,
    /// Seek by the given number of seconds, forward or back.
    Seek(i64),
}

/// A message on the pipeline's bus, as far as the controller cares.
#[derive(Clone, Copy, Debug, PartialEq, Eq, Structural)]
pub enum BusMessage {
    /// The current source has finished producing data.
    EndOfStream,
    /// Anything else.
    Other,
}

/// The queue controller.
pub struct PlayQueue {
    uris: VecDeque<QueueItem>,
    current_item: Option<QueueItem>,
    pending: Pending,
}

/// What a [`PlayQueue`] holds.
pub ghost struct QueueState {
    /// The queued items; the first is the next to play.
    pub queue: Seq<QueueItem>,
    /// The item that is loaded into the pipeline.
    pub current: Option<QueueItem>,
    /// The operation in progress.
    pub pending: Pending,
}

/// A [`Step`], with its script as a sequence.
pub ghost enum Planned {
    Perform(Seq<Request>),
    Finished(Result<Reply, QueueError>),
}

impl View for PlayQueue {
    type V = QueueState;

    closed spec fn view(&self) -> QueueState {
        QueueState { queue: self.uris@, current: self.current_item, pending: self.pending }
    }
}

impl View for Step {
    type V = Planned;

    open spec fn view(&self) -> Planned {
        match self {
            Step::Perform(script) => Planned::Perform(script@),
            Step::Finished(result) => Planned::Finished(*result),
        }
    }
}

/// The requests of a pipeline script, as requests to the caller.
pub open spec fn lift(script: Seq<PipelineRequest>) -> Seq<Request> {
    script.map_values(|request: PipelineRequest| Request::Pipeline(request))
}

/// The script that loads `item` into an idle pipeline and starts it.
pub open spec fn load_script(item: QueueItem) -> Seq<Request> {
    seq![Request::Pipeline(PipelineRequest::SetSource(item.uri))] + lift(
        start_script(PlaybackState::Null),
    )
}

/// The request that an item's leaving by completion gives rise to.
pub open spec fn completion_script(current: Option<QueueItem>) -> Seq<Request> {
    match current {
        Some(item) => if item.has_callback {
            seq![Request::Complete(item)]
        } else {
            seq![]
        },
        None => seq![],
    }
}

/// The queue with `item`, if there is one, put back at its head.
pub open spec fn restored(queue: Seq<QueueItem>, item: Option<QueueItem>) -> Seq<QueueItem> {
    match item {
        Some(item) => seq![item] + queue,
        None => queue,
    }
}

/// The test that an item carries another identifier than `id`.
pub open spec fn other_than(id: u128) -> spec_fn(QueueItem) -> bool {
    |item: QueueItem| item.id != id
}

/// The queue without the items that carry `id`.
pub open spec fn without_id(queue: Seq<QueueItem>, id: u128) -> Seq<QueueItem> {
    queue.filter(other_than(id))
}

impl QueueState {
    /// The state of a controller that was just made.
    pub open spec fn empty() -> QueueState {
        QueueState { queue: seq![], current: None, pending: Pending::Idle }
    }

    /// The head of the queue, if there is one.
    pub open spec fn head(self) -> Option<QueueItem> {
        if self.queue.len() > 0 {
            Some(self.queue[0])
        } else {
            None
        }
    }

    /// The queue behind its head.
    pub open spec fn tail(self) -> Seq<QueueItem> {
        if self.queue.len() > 0 {
            self.queue.drop_first()
        } else {
            self.queue
        }
    }

    /// The state after `item` was appended.
    pub open spec fn add(self, item: QueueItem) -> QueueState {
        QueueState { queue: self.queue.push(item), ..self }
    }

    /// The state after the items that carry `id` were removed from the queue.
    pub open spec fn remove(self, id: u128) -> QueueState {
        QueueState { queue: without_id(self.queue, id), ..self }
    }

    /// What a start answers, and the state it leaves.
    pub open spec fn start(self, status: PipelineStatus) -> (QueueState, Planned) {
        if self.pending != Pending::Idle {
            (self, Planned::Finished(Err(QueueError::Busy)))
        } else if status.state == PlaybackState::Null {
            match self.head() {
                None => (self, Planned::Finished(Err(QueueError::NoMoreItems))),
                Some(item) => (
                    QueueState { queue: self.tail(), pending: Pending::Start(Some(item)), ..self },
                    Planned::Perform(load_script(item)),
                ),
            }
        } else if status.state == PlaybackState::Paused {
            if status.source is None {
                (self, Planned::Finished(Err(QueueError::Pipeline(PipelineError::NoSource))))
            } else {
                (
                    QueueState { pending: Pending::Start(None), ..self },
                    Planned::Perform(lift(start_script(PlaybackState::Paused))),
                )
            }
        } else {
            (self, Planned::Finished(Ok(Reply::NowPlaying(self.current))))
        }
    }

    /// What a stop answers, and the state it leaves.
    pub open spec fn stop(self, status: PipelineStatus) -> (QueueState, Planned) {
        if self.pending != Pending::Idle {
            (self, Planned::Finished(Err(QueueError::Busy)))
        } else if status.state == PlaybackState::Null {
            (QueueState { current: None, ..self }, Planned::Finished(Ok(Reply::Stopped)))
        } else {
            (
                QueueState { pending: Pending::Stop, ..self },
                Planned::Perform(lift(stop_script(status.state))),
            )
        }
    }

    /// What a pause answers, and the state it leaves.
    pub open spec fn pause(self, status: PipelineStatus) -> (QueueState, Planned) {
        if self.pending != Pending::Idle {
            (self, Planned::Finished(Err(QueueError::Busy)))
        } else if status.state != PlaybackState::Playing {
            (self, Planned::Finished(Err(QueueError::NotPlaying)))
        } else {
            (
                QueueState { pending: Pending::Pause, ..self },
                Planned::Perform(
                    lift(seq![PipelineRequest::SetState(PlaybackState::Paused)]),
                ),
            )
        }
    }

    /// What a seek by `delta` seconds answers, and the state it leaves.
    pub open spec fn seek(self, delta: i64, status: PipelineStatus) -> (QueueState, Planned) {
        if self.pending != Pending::Idle {
            (self, Planned::Finished(Err(QueueError::Busy)))
        } else {
            match seek_plan(status, delta) {
                Err(e) => (self, Planned::Finished(Err(QueueError::Pipeline(e)))),
                Ok(target) => (
                    QueueState { pending: Pending::Seek(target), ..self },
                    Planned::Perform(lift(seq![PipelineRequest::SeekTo(target)])),
                ),
            }
        }
    }

    /// The script of a skip: stop the pipeline, report the outgoing item as
    /// completed, load the head of the queue and start.
    pub open spec fn skip_script(self, status: PipelineStatus) -> Seq<Request> {
        lift(stop_script(status.state)) + completion_script(self.current) + match self.head() {
            Some(item) => load_script(item),
            None => seq![],
        }
    }

    /// What a skip answers, and the state it leaves.
    pub open spec fn skip(self, status: PipelineStatus) -> (QueueState, Planned) {
        if self.pending != Pending::Idle {
            (self, Planned::Finished(Err(QueueError::Busy)))
        } else if self.skip_script(status).len() == 0 {
            (
                QueueState { current: None, ..self },
                Planned::Finished(Err(QueueError::NoMoreItems)),
            )
        } else {
            (
                QueueState {
                    queue: self.tail(),
                    pending: Pending::Skip {
                        stop_len: stop_script(status.state).len() as usize,
                        next: self.head(),
                    },
                    ..self
                },
                Planned::Perform(self.skip_script(status)),
            )
        }
    }

    /// What `operation` answers, and the state it leaves.
    pub open spec fn begin(self, operation: Operation, status: PipelineStatus) -> (
        QueueState,
        Planned,
    ) {
        match operation {
            Operation::Start => self.start(status),
            Operation::Stop => self.stop(status),
            Operation::Pause => self.pause(status),
            Operation::Skip => self.skip(status),
            Operation::Seek(delta) => self.seek(delta, status),
        }
    }

    /// What the controller does with a bus message: an end of stream is a
    /// skip, anything else is ignored.
    pub open spec fn message(self, message: BusMessage, status: PipelineStatus) -> (
        QueueState,
        Option<Planned>,
    ) {
        match message {
            BusMessage::EndOfStream => (self.skip(status).0, Some(self.skip(status).1)),
            BusMessage::Other => (self, None),
        }
    }

    /// What the operation in progress answers to the outcome of its script,
    /// and the state it leaves.
    pub open spec fn finish(self, outcome: Result<(), Failure>) -> (
        QueueState,
        Result<Reply, QueueError>,
    ) {
        let idle = QueueState { pending: Pending::Idle, ..self };
        match self.pending {
            Pending::Idle => (self, Err(QueueError::NothingPending)),
            Pending::Start(item) => match outcome {
                Ok(_) => match item {
                    Some(item) => (
                        QueueState { current: Some(item), ..idle },
                        Ok(Reply::NowPlaying(Some(item))),
                    ),
                    None => (idle, Ok(Reply::NowPlaying(self.current))),
                },
                Err(failure) => (
                    QueueState { queue: restored(self.queue, item), ..idle },
                    Err(QueueError::Pipeline(PipelineError::Failed(failure.report))),
                ),
            },
            Pending::Stop => match outcome {
                Ok(_) => (QueueState { current: None, ..idle }, Ok(Reply::Stopped)),
                Err(failure) => (
                    idle,
                    Err(QueueError::Pipeline(PipelineError::Failed(failure.report))),
                ),
            },
            Pending::Pause => match outcome {
                Ok(_) => (idle, Ok(Reply::Paused)),
                Err(failure) => (
                    idle,
                    Err(QueueError::Pipeline(PipelineError::Failed(failure.report))),
                ),
            },
            Pending::Seek(target) => match outcome {
                Ok(_) => (idle, Ok(Reply::Position(target))),
                Err(failure) => (
                    idle,
                    Err(QueueError::Pipeline(PipelineError::Failed(failure.report))),
                ),
            },
            Pending::Skip { stop_len, next } => match outcome {
                Ok(_) => match next {
                    Some(item) => (QueueState { current: Some(item), ..idle }, Ok(Reply::Skipped)),
                    None => (QueueState { current: None, ..idle }, Err(QueueError::NoMoreItems)),
                },
                Err(failure) => (
                    QueueState {
                        queue: restored(self.queue, next),
                        current: if failure.index < stop_len {
                            self.current
                        } else {
                            None
                        },
                        ..idle
                    },
                    Err(QueueError::Pipeline(PipelineError::Failed(failure.report))),
                ),
            },
        }
    }
}

impl QueueError {
    /// The text shown to a user for this error.
    pub fn message(&self) -> (r: String)
        ensures
            r@ == self.message_text(),
    {
        match self {
            QueueError::NoMoreItems => "no more items left in the queue".to_owned(),
            QueueError::NotPlaying => "video is not currently playing".to_owned(),
            QueueError::InvalidUri => "locator is not a valid URI".to_owned(),
            QueueError::InvalidId => "identifier is not a valid UUID".to_owned(),
            QueueError::Busy => "another playback operation is in progress".to_owned(),
            QueueError::NothingPending => "no playback operation is in progress".to_owned(),
            QueueError::Pipeline(e) => e.message(),
        }
    }

    /// The characters of [`QueueError::message`].
    pub open spec fn message_text(&self) -> Seq<char> {
        match self {
            QueueError::NoMoreItems => "no more items left in the queue"@,
            QueueError::NotPlaying => "video is not currently playing"@,
            QueueError::InvalidUri => "locator is not a valid URI"@,
            QueueError::InvalidId => "identifier is not a valid UUID"@,
            QueueError::Busy => "another playback operation is in progress"@,
            QueueError::NothingPending => "no playback operation is in progress"@,
            QueueError::Pipeline(e) => e.message_text(),
        }
    }
}

/// Turns a pipeline script into requests to the caller.
fn lift_script(script: &Vec<PipelineRequest>) -> (requests: Vec<Request>)
    ensures
        requests@ == lift(script@),
{
    let mut requests: Vec<Request> = Vec::new();
    let mut i: usize = 0;
    while i < script.len()
        invariant
            i <= script.len(),
            requests@ == lift(script@.take(i as int)),
        decreases script.len() - i,
    {
        requests.push(Request::Pipeline(script[i].clone()));
        assert(script@.take(i + 1) =~= script@.take(i as int).push(script@[i as int]));
        assert(requests@ =~= lift(script@.take(i + 1)));
        i += 1;
    }
    assert(script@.take(i as int) =~= script@);
    requests
}

/// Appends `more` to `script`.
fn extend_script(script: &mut Vec<Request>, more: Vec<Request>)
    ensures
        final(script)@ == old(script)@ + more@,
{
    let mut more = more;
    script.append(&mut more);
}

/// The requests that load `item` into an idle pipeline and start it.
fn load_requests(item: &QueueItem) -> (requests: Vec<Request>)
    ensures
        requests@ == load_script(*item),
{
    let mut requests: Vec<Request> = Vec::new();
    requests.push(Request::Pipeline(set_source_uri(item.uri.clone())));
    let loaded = PipelineStatus {
        state: PlaybackState::Null,
        source: Some(item.uri.clone()),
        position: None,
    };
    match start_pipeline(&loaded) {
        Ok((script, _)) => {
            extend_script(&mut requests, lift_script(&script));
        },
        Err(_) => {},
    }
    assert(requests@ =~= load_script(*item));
    requests
}

/// The request that reports `current` as completed, where a callback waits
/// for that.
fn completion_requests(current: &Option<QueueItem>) -> (requests: Vec<Request>)
    ensures
        requests@ == completion_script(*current),
{
    let mut requests: Vec<Request> = Vec::new();
    match current {
        Some(item) => {
            if item.has_callback {
                requests.push(Request::Complete(item.clone()));
            }
        },
        None => {},
    }
    assert(requests@ =~= completion_script(*current));
    requests
}

/// The error that reports a failed script.
fn failed(failure: Failure) -> (e: QueueError)
    ensures
        e == QueueError::Pipeline(PipelineError::Failed(failure.report)),
{
    QueueError::Pipeline(PipelineError::Failed(failure.report))
}

impl PlayQueue {
    /// Makes a controller with an empty queue and nothing playing.
    pub fn new() -> (queue: PlayQueue)
        ensures
            queue@ == QueueState::empty(),
    {
        PlayQueue { uris: VecDeque::new(), current_item: None, pending: Pending::Idle }
    }

    /// Appends `item` to the queue and returns a copy of it.
    pub fn add_item(&mut self, item: QueueItem) -> (added: QueueItem)
        ensures
            added == item,
            final(self)@ == old(self)@.add(item),
    {
        let added = item.clone();
        self.uris.push_back(item);
        added
    }

    /// Queues the medium at `uri` under `display_name` and returns the new
    /// item. A locator that begins with `/` is taken as a local path. The
    /// only failure is a locator that is no URL; the queue is then unchanged.
    pub fn add_uri(&mut self, uri: String, display_name: String, has_callback: bool) -> (r: Result<
        QueueItem,
        QueueError,
    >)
        ensures
            locator_text(uri@) is None ==> r == Err::<QueueItem, _>(QueueError::InvalidUri)
                && final(self)@ == old(self)@,
            locator_text(uri@) is Some ==> r is Ok && final(self)@ == old(self)@.add(r->Ok_0)
                && r->Ok_0.display_name == display_name && r->Ok_0.uri@ == locator_text(
                uri@,
            )->Some_0 && r->Ok_0.has_callback == has_callback && is_random_id(r->Ok_0.id),
    {
        match normalize_locator(uri.as_str()) {
            None => Err(QueueError::InvalidUri),
            Some(locator) => {
                let item = QueueItem::new(display_name, locator, has_callback);
                Ok(self.add_item(item))
            },
        }
    }

    /// Removes the items that carry `id` from the queue, wherever they
    /// stand; the others keep their order. An identifier that no queued item
    /// carries is no error.
    pub fn remove_uri(&mut self, id: u128) -> (r: Result<(), QueueError>)
        ensures
            r is Ok,
            final(self)@ == old(self)@.remove(id),
    {
        let mut kept: VecDeque<QueueItem> = VecDeque::new();
        assert(kept@ + without_id(self.uris@, id) =~= without_id(self.uris@, id));
        while self.uris.len() > 0
            invariant
                self.current_item == old(self).current_item,
                self.pending == old(self).pending,
                without_id(old(self).uris@, id) == kept@ + without_id(self.uris@, id),
            decreases self.uris.len(),
        {
            let ghost before = self.uris@;
            let ghost had = kept@;
            match self.uris.pop_front() {
                Some(item) => {
                    proof {
                        assert(before =~= seq![item] + self.uris@);
                        self.uris@.lemma_filter_prepend(item, other_than(id));
                    }
                    if item.id != id {
                        kept.push_back(item);
                        assert(kept@ + without_id(self.uris@, id) =~= had + (seq![item] + without_id(
                            self.uris@,
                            id,
                        )));
                    } else {
                        assert(kept@ + without_id(self.uris@, id) =~= had + (Seq::<
                            QueueItem,
                        >::empty() + without_id(self.uris@, id)));
                    }
                },
                None => {},
            }
        }
        assert(without_id(self.uris@, id) =~= Seq::<QueueItem>::empty()) by {
            reveal(Seq::filter);
        }
        assert(kept@ + Seq::<QueueItem>::empty() =~= kept@);
        self.uris = kept;
        Ok(())
    }

    /// The queued items in playback order, the next to play first.
    pub fn get_queue_items(&self) -> (items: Vec<QueueItem>)
        ensures
            items@ == self@.queue,
    {
        let mut items: Vec<QueueItem> = Vec::new();
        let mut i: usize = 0;
        while i < self.uris.len()
            invariant
                i <= self.uris.len(),
                items@ == self.uris@.take(i as int),
            decreases self.uris.len() - i,
        {
            items.push(self.uris[i].clone());
            assert(self.uris@.take(i + 1) =~= self.uris@.take(i as int).push(self.uris@[i as int]));
            i += 1;
        }
        assert(self.uris@.take(i as int) =~= self.uris@);
        items
    }

    /// The item that is loaded into the pipeline, if there is one.
    pub fn get_current_item(&self) -> (item: Option<QueueItem>)
        ensures
            item == self@.current,
    {
        match &self.current_item {
            Some(item) => Some(item.clone()),
            None => None,
        }
    }

    /// Whether no operation is in progress.
    pub fn is_idle(&self) -> (idle: bool)
        ensures
            idle == (self@.pending == Pending::Idle),
    {
        match &self.pending {
            Pending::Idle => true,
            _ => false,
        }
    }

    /// Takes the head of the queue.
    fn queue_next_item(&mut self) -> (item: Option<QueueItem>)
        ensures
            item == old(self)@.head(),
            final(self)@ == (QueueState { queue: old(self)@.tail(), ..old(self)@ }),
    {
        let item = self.uris.pop_front();
        proof {
            if old(self).uris@.len() > 0 {
                assert(self.uris@ =~= old(self).uris@.drop_first());
            }
        }
        item
    }

    /// Begins playback. An idle pipeline gets the head of the queue loaded
    /// and is started; the item stays out of the queue until the script's
    /// outcome is known. A paused pipeline resumes. A pipeline that is ready
    /// or plays is left alone.
    pub fn start_playback(&mut self, status: &PipelineStatus) -> (step: Step)
        ensures
            (final(self)@, step@) == old(self)@.start(*status),
    {
        if !self.is_idle() {
            return Step::Finished(Err(QueueError::Busy));
        }
        match status.state {
            PlaybackState::Null => match self.queue_next_item() {
                None => Step::Finished(Err(QueueError::NoMoreItems)),
                Some(item) => {
                    let script = load_requests(&item);
                    self.pending = Pending::Start(Some(item));
                    Step::Perform(script)
                },
            },
            PlaybackState::Paused => match start_pipeline(status) {
                Err(e) => Step::Finished(Err(QueueError::Pipeline(e))),
                Ok((script, _)) => {
                    self.pending = Pending::Start(None);
                    Step::Perform(lift_script(&script))
                },
            },
            _ => Step::Finished(Ok(Reply::NowPlaying(self.get_current_item()))),
        }
    }

    /// Stops playback. The current item is given up once the pipeline has
    /// stopped; it is not reported as completed.
    pub fn stop_playback(&mut self, status: &PipelineStatus) -> (step: Step)
        ensures
            (final(self)@, step@) == old(self)@.stop(*status),
    {
        if !self.is_idle() {
            return Step::Finished(Err(QueueError::Busy));
        }
        let script = stop_pipeline(status);
        if script.len() == 0 {
            self.current_item = None;
            Step::Finished(Ok(Reply::Stopped))
        } else {
            self.pending = Pending::Stop;
            Step::Perform(lift_script(&script))
        }
    }

    /// Pauses playback, which only a playing pipeline admits.
    pub fn pause_playback(&mut self, status: &PipelineStatus) -> (step: Step)
        ensures
            (final(self)@, step@) == old(self)@.pause(*status),
    {
        if !self.is_idle() {
            return Step::Finished(Err(QueueError::Busy));
        }
        match pause_pipeline(status) {
            Err(_) => Step::Finished(Err(QueueError::NotPlaying)),
            Ok(script) => {
                self.pending = Pending::Pause;
                Step::Perform(lift_script(&script))
            },
        }
    }

    /// Seeks by `seek_seconds` relative to the current position.
    pub fn seek_video(&mut self, seek_seconds: i64, status: &PipelineStatus) -> (step: Step)
        ensures
            (final(self)@, step@) == old(self)@.seek(seek_seconds, *status),
    {
        if !self.is_idle() {
            return Step::Finished(Err(QueueError::Busy));
        }
        match seek_pipeline(status, seek_seconds) {
            Err(e) => Step::Finished(Err(QueueError::Pipeline(e))),
            Ok((script, target)) => {
                self.pending = Pending::Seek(target);
                Step::Perform(lift_script(&script))
            },
        }
    }

    /// Advances to the next item: stops the pipeline, reports the outgoing
    /// item as completed, loads the head of the queue and starts.
    pub fn skip_video(&mut self, status: &PipelineStatus) -> (step: Step)
        ensures
            (final(self)@, step@) == old(self)@.skip(*status),
    {
        if !self.is_idle() {
            return Step::Finished(Err(QueueError::Busy));
        }
        let stop = stop_pipeline(status);
        let stop_len = stop.len();
        let mut script = lift_script(&stop);
        extend_script(&mut script, completion_requests(&self.current_item));
        let next = self.queue_next_item();
        match &next {
            Some(item) => {
                extend_script(&mut script, load_requests(item));
            },
            None => {},
        }
        assert(script@ =~= old(self)@.skip_script(*status));
        if script.len() == 0 {
            self.current_item = None;
            Step::Finished(Err(QueueError::NoMoreItems))
        } else {
            self.pending = Pending::Skip { stop_len, next };
            Step::Perform(script)
        }
    }

    /// Begins `operation`.
    pub fn begin(&mut self, operation: Operation, status: &PipelineStatus) -> (step: Step)
        ensures
            (final(self)@, step@) == old(self)@.begin(operation, *status),
    {
        match operation {
            Operation::Start => self.start_playback(status),
            Operation::Stop => self.stop_playback(status),
            Operation::Pause => self.pause_playback(status),
            Operation::Skip => self.skip_video(status),
            Operation::Seek(delta) => self.seek_video(delta, status),
        }
    }

    /// Reacts to a message on the pipeline's bus: at the end of the stream
    /// the controller advances as for a skip; any other message is ignored.
    pub fn handle_message(&mut self, message: BusMessage, status: &PipelineStatus) -> (step: Option<
        Step,
    >)
        ensures
            final(self)@ == old(self)@.message(message, *status).0,
            step is Some <==> old(self)@.message(message, *status).1 is Some,
            step is Some ==> step->Some_0@ == old(self)@.message(message, *status).1->Some_0,
    {
        match message {
            BusMessage::EndOfStream => Some(self.skip_video(status)),
            BusMessage::Other => None,
        }
    }

    /// Ends the operation in progress with the outcome of its script.
    ///
    /// A start that failed puts its item back at the head of the queue. A
    /// stop that succeeded gives up the current item. A skip does both,
    /// according to the part of its script that failed.
    pub fn finish(&mut self, outcome: Result<(), Failure>) -> (r: Result<Reply, QueueError>)
        ensures
            (final(self)@, r) == old(self)@.finish(outcome),
    {
        let mut pending = Pending::Idle;
        std::mem::swap(&mut self.pending, &mut pending);
        match pending {
            Pending::Idle => Err(QueueError::NothingPending),
            Pending::Start(item) => match outcome {
                Ok(_) => match item {
                    Some(item) => {
                        let playing = item.clone();
                        self.current_item = Some(item);
                        Ok(Reply::NowPlaying(Some(playing)))
                    },
                    None => Ok(Reply::NowPlaying(self.get_current_item())),
                },
                Err(failure) => {
                    self.restore(item);
                    Err(failed(failure))
                },
            },
            Pending::Stop => match outcome {
                Ok(_) => {
                    self.current_item = None;
                    Ok(Reply::Stopped)
                },
                Err(failure) => Err(failed(failure)),
            },
            Pending::Pause => match outcome {
                Ok(_) => Ok(Reply::Paused),
                Err(failure) => Err(failed(failure)),
            },
            Pending::Seek(target) => match outcome {
                Ok(_) => Ok(Reply::Position(target)),
                Err(failure) => Err(failed(failure)),
            },
            Pending::Skip { stop_len, next } => match outcome {
                Ok(_) => match next {
                    Some(item) => {
                        self.current_item = Some(item);
                        Ok(Reply::Skipped)
                    },
                    None => {
                        self.current_item = None;
                        Err(QueueError::NoMoreItems)
                    },
                },
                Err(failure) => {
                    self.restore(next);
                    if failure.index >= stop_len {
                        self.current_item = None;
                    }
                    Err(failed(failure))
                },
            },
        }
    }

    /// Puts `item`, if there is one, back at the head of the queue.
    fn restore(&mut self, item: Option<QueueItem>)
        ensures
            final(self)@ == (QueueState {
                queue: restored(old(self)@.queue, item),
                ..old(self)@
            }),
    {
        match item {
            Some(item) => {
                self.uris.push_front(item);
            },
            None => {},
        }
    }
}

} // verus!
