//! The pipeline driver: which primitive requests each playback operation
//! issues to the media pipeline, decided from the pipeline's observed status.
//!
//! The driver never touches the pipeline itself. It produces a script, a
//! sequence of [`PipelineRequest`]s that the caller performs in order,
//! stopping at the first one that the pipeline refuses.
use crate::text::starts_with;
use crate::text::text_starts_with;
use vstd::prelude::*;

verus! {

/// Lifecycle state of the media pipeline.
#[derive(Clone, Copy, Debug, PartialEq, Eq, Structural)]
pub enum PlaybackState {
    Null,
    Ready,
    Paused,
    Playing,
}

/// Largest position, in whole seconds, that a pipeline clock counting
/// nanoseconds in 64 bits can hold.
pub const MAX_POSITION_SECONDS: u64 = 18_446_744_073;

/// What the caller observed of the pipeline just before an operation.
#[derive(Debug, PartialEq, Eq)]
pub struct PipelineStatus {
    /// Current lifecycle state.
    pub state: PlaybackState,
    /// Input location that is set on the source element, if any.
    pub source: Option<String>,
    /// Playback position in seconds, where the pipeline can tell it.
    pub position: Option<u64>,
}

/// One primitive request to the pipeline.
#[derive(Debug, PartialEq, Eq)]
pub enum PipelineRequest {
    /// Rewrite the input location.
    SetSource(String),
    /// Move to the given lifecycle state.
    SetState(PlaybackState),
    /// Flushing seek to an absolute position in seconds.
    SeekTo(u64),
}

/// Why the driver refused an operation, or what the pipeline reported.
#[derive(Debug, PartialEq, Eq)]
pub enum PipelineError {
    /// No input location is set on the source element.
    NoSource,
    /// Pause was asked for while the stream is not playing.
    NotPlaying,
    /// Seek was asked for while the stream is not playing.
    SeekNotPlaying,
    /// The pipeline cannot tell its current position.
    NoPosition,
    /// The seek target lies before the start or beyond the clock's range.
    SeekOutOfRange,
    /// The pipeline refused a request; the text is its own report.
    Failed(String),
}

impl Clone for PipelineRequest {
    fn clone(&self) -> (r: Self)
        ensures
            r == *self,
    {
        match self {
            PipelineRequest::SetSource(uri) => PipelineRequest::SetSource(uri.clone()),
            PipelineRequest::SetState(state) => PipelineRequest::SetState(*state),
            PipelineRequest::SeekTo(position) => PipelineRequest::SeekTo(*position),
        }
    }
}

impl Clone for PipelineError {
    fn clone(&self) -> (r: Self)
        ensures
            r == *self,
    {
        match self {
            PipelineError::NoSource => PipelineError::NoSource,
            PipelineError::NotPlaying => PipelineError::NotPlaying,
            PipelineError::SeekNotPlaying => PipelineError::SeekNotPlaying,
            PipelineError::NoPosition => PipelineError::NoPosition,
            PipelineError::SeekOutOfRange => PipelineError::SeekOutOfRange,
            PipelineError::Failed(report) => PipelineError::Failed(report.clone()),
        }
    }
}

/// The transitions of the pipeline's state machine.
pub open spec fn transition_allowed(from: PlaybackState, to: PlaybackState) -> bool {
    match (from, to) {
        (PlaybackState::Null, PlaybackState::Ready) => true,
        (PlaybackState::Ready, PlaybackState::Ready) => true,
        (PlaybackState::Ready, PlaybackState::Playing) => true,
        (PlaybackState::Ready, PlaybackState::Null) => true,
        (PlaybackState::Paused, PlaybackState::Playing) => true,
        (PlaybackState::Paused, PlaybackState::Ready) => true,
        (PlaybackState::Playing, PlaybackState::Paused) => true,
        (PlaybackState::Playing, PlaybackState::Ready) => true,
        _ => false,
    }
}

/// Whether the state machine admits `request` in the given status: a
/// transition must be one of the machine's, the source is set on an idle
/// pipeline only, and a seek needs a playing pipeline and a position that
/// the clock can hold.
pub open spec fn request_allowed(status: PipelineStatus, request: PipelineRequest) -> bool {
    match request {
        PipelineRequest::SetSource(_) => status.state == PlaybackState::Null,
        PipelineRequest::SetState(target) => transition_allowed(status.state, target),
        PipelineRequest::SeekTo(position) => status.state == PlaybackState::Playing
            && position <= MAX_POSITION_SECONDS,
    }
}

/// The status of a pipeline that has carried out `request`.
pub open spec fn after_request(status: PipelineStatus, request: PipelineRequest) -> PipelineStatus {
    match request {
        PipelineRequest::SetSource(uri) => PipelineStatus { source: Some(uri), ..status },
        PipelineRequest::SetState(target) => PipelineStatus { state: target, ..status },
        PipelineRequest::SeekTo(position) => PipelineStatus { position: Some(position), ..status },
    }
}

/// The status of a pipeline that has carried out every request of `script`.
pub open spec fn after_script(status: PipelineStatus, script: Seq<PipelineRequest>) -> PipelineStatus
    decreases script.len(),
{
    if script.len() == 0 {
        status
    } else {
        after_script(after_request(status, script.first()), script.drop_first())
    }
}

/// Whether the state machine admits each request of `script` in the status
/// that the requests before it lead to.
pub open spec fn script_allowed(status: PipelineStatus, script: Seq<PipelineRequest>) -> bool
    decreases script.len(),
{
    if script.len() == 0 {
        true
    } else {
        request_allowed(status, script.first()) && script_allowed(
            after_request(status, script.first()),
            script.drop_first(),
        )
    }
}

/// The transitions that bring a pipeline in `state` to `Playing`.
pub open spec fn start_script(state: PlaybackState) -> Seq<PipelineRequest> {
    match state {
        PlaybackState::Playing => seq![],
        PlaybackState::Paused => seq![PipelineRequest::SetState(PlaybackState::Playing)],
        _ => seq![
            PipelineRequest::SetState(PlaybackState::Ready),
            PipelineRequest::SetState(PlaybackState::Playing),
        ],
    }
}

/// The transitions that bring a pipeline in `state` to `Null`.
pub open spec fn stop_script(state: PlaybackState) -> Seq<PipelineRequest> {
    match state {
        PlaybackState::Null => seq![],
        _ => seq![
            PipelineRequest::SetState(PlaybackState::Ready),
            PipelineRequest::SetState(PlaybackState::Null),
        ],
    }
}

/// The position that a seek by `delta` seconds from `position` aims at, where
/// it lies within the clock's range.
pub open spec fn seek_target(position: u64, delta: i64) -> Option<u64> {
    if 0 <= position + delta <= MAX_POSITION_SECONDS {
        Some((position + delta) as u64)
    } else {
        None
    }
}

impl PipelineError {
    /// The text shown to a user for this error.
    pub fn message(&self) -> (r: String)
        ensures
            r@ == self.message_text(),
    {
        match self {
            PipelineError::NoSource => "unable to get source element from pipeline".to_owned(),
            PipelineError::NotPlaying => "stream is not playing. unable to pause".to_owned(),
            PipelineError::SeekNotPlaying => "cannot seek on non-playing stream".to_owned(),
            PipelineError::NoPosition => "unable to get current position".to_owned(),
            PipelineError::SeekOutOfRange => "seek target is outside of the stream".to_owned(),
            PipelineError::Failed(report) => report.clone(),
        }
    }

    /// The characters of [`PipelineError::message`].
    pub open spec fn message_text(&self) -> Seq<char> {
        match self {
            PipelineError::NoSource => "unable to get source element from pipeline"@,
            PipelineError::NotPlaying => "stream is not playing. unable to pause"@,
            PipelineError::SeekNotPlaying => "cannot seek on non-playing stream"@,
            PipelineError::NoPosition => "unable to get current position"@,
            PipelineError::SeekOutOfRange => "seek target is outside of the stream"@,
            PipelineError::Failed(report) => report@,
        }
    }
}

/// Plans a start: the transitions to `Playing`, and the active source.
///
/// A pipeline that plays already needs no transition. Without a source
/// nothing can be started.
pub fn start_pipeline(status: &PipelineStatus) -> (r: Result<
    (Vec<PipelineRequest>, String),
    PipelineError,
>)
    ensures
        status.source is None ==> r == Err::<(Vec<PipelineRequest>, String), _>(
            PipelineError::NoSource,
        ),
        status.source is Some ==> r is Ok && r->Ok_0.0@ == start_script(status.state)
            && r->Ok_0.1 == status.source->Some_0,
{
    let source = match &status.source {
        Some(uri) => uri.clone(),
        None => {
            return Err(PipelineError::NoSource);
        },
    };
    let script = match status.state {
        PlaybackState::Playing => Vec::new(),
        PlaybackState::Paused => vec![PipelineRequest::SetState(PlaybackState::Playing)],
        _ => vec![
            PipelineRequest::SetState(PlaybackState::Ready),
            PipelineRequest::SetState(PlaybackState::Playing),
        ],
    };
    assert(script@ =~= start_script(status.state));
    Ok((script, source))
}

/// Plans a stop: the transitions to `Null`, none where the pipeline is there.
pub fn stop_pipeline(status: &PipelineStatus) -> (script: Vec<PipelineRequest>)
    ensures
        script@ == stop_script(status.state),
{
    let script = match status.state {
        PlaybackState::Null => Vec::new(),
        _ => vec![
            PipelineRequest::SetState(PlaybackState::Ready),
            PipelineRequest::SetState(PlaybackState::Null),
        ],
    };
    assert(script@ =~= stop_script(status.state));
    script
}

/// Plans a pause, which only a playing pipeline admits.
pub fn pause_pipeline(status: &PipelineStatus) -> (r: Result<Vec<PipelineRequest>, PipelineError>)
    ensures
        status.state == PlaybackState::Playing ==> r is Ok && r->Ok_0@ == seq![
            PipelineRequest::SetState(PlaybackState::Paused),
        ],
        status.state != PlaybackState::Playing ==> r == Err::<Vec<PipelineRequest>, _>(
            PipelineError::NotPlaying,
        ),
{
    if status.state != PlaybackState::Playing {
        return Err(PipelineError::NotPlaying);
    }
    let script = vec![PipelineRequest::SetState(PlaybackState::Paused)];
    assert(script@ =~= seq![PipelineRequest::SetState(PlaybackState::Paused)]);
    Ok(script)
}

/// What [`seek_pipeline`] answers for a status and a signed offset in seconds.
pub open spec fn seek_plan(status: PipelineStatus, delta: i64) -> Result<u64, PipelineError> {
    if status.state != PlaybackState::Playing {
        Err(PipelineError::SeekNotPlaying)
    } else {
        match status.position {
            None => Err(PipelineError::NoPosition),
            Some(position) => match seek_target(position, delta) {
                Some(target) => Ok(target),
                None => Err(PipelineError::SeekOutOfRange),
            },
        }
    }
}

/// Plans a seek by `delta` seconds relative to the current position: the
/// flushing seek to issue, and the absolute position it aims at.
///
/// Only a playing pipeline admits a seek. A target before the start of the
/// stream or beyond the clock's range is refused.
pub fn seek_pipeline(status: &PipelineStatus, delta: i64) -> (r: Result<
    (Vec<PipelineRequest>, u64),
    PipelineError,
>)
    ensures
        match seek_plan(*status, delta) {
            Ok(target) => r is Ok && r->Ok_0.1 == target && r->Ok_0.0@ == seq![
                PipelineRequest::SeekTo(target),
            ],
            Err(e) => r == Err::<(Vec<PipelineRequest>, u64), _>(e),
        },
{
    if status.state != PlaybackState::Playing {
        return Err(PipelineError::SeekNotPlaying);
    }
    let position = match status.position {
        Some(position) => position,
        None => {
            return Err(PipelineError::NoPosition);
        },
    };
    let sum: i128 = position as i128 + delta as i128;
    if sum < 0 || sum > MAX_POSITION_SECONDS as i128 {
        return Err(PipelineError::SeekOutOfRange);
    }
    let target: u64 = sum as u64;
    let script = vec![PipelineRequest::SeekTo(target)];
    assert(script@ =~= seq![PipelineRequest::SeekTo(target)]);
    Ok((script, target))
}

/// The request that rewrites the pipeline's input location to `uri`.
pub fn set_source_uri(uri: String) -> (request: PipelineRequest)
    ensures
        request == PipelineRequest::SetSource(uri),
{
    PipelineRequest::SetSource(uri)
}

/// A start plan asks only for transitions that the state machine admits,
/// and a pipeline that carries them out plays, with its source and position
/// untouched.
pub proof fn lemma_start_reaches_playing(status: PipelineStatus)
    ensures
        script_allowed(status, start_script(status.state)),
        after_script(status, start_script(status.state)) == (PipelineStatus {
            state: PlaybackState::Playing,
            ..status
        }),
{
    reveal_with_fuel(script_allowed, 3);
    reveal_with_fuel(after_script, 3);
    let script = start_script(status.state);
    if script.len() == 2 {
        assert(script.drop_first() =~= seq![PipelineRequest::SetState(PlaybackState::Playing)]);
        assert(script.drop_first().drop_first() =~= seq![]);
    } else if script.len() == 1 {
        assert(script.drop_first() =~= seq![]);
    }
}

/// A stop plan asks only for transitions that the state machine admits, and
/// a pipeline that carries them out is in `Null`, with its source and
/// position untouched.
pub proof fn lemma_stop_reaches_null(status: PipelineStatus)
    ensures
        script_allowed(status, stop_script(status.state)),
        after_script(status, stop_script(status.state)) == (PipelineStatus {
            state: PlaybackState::Null,
            ..status
        }),
{
    reveal_with_fuel(script_allowed, 3);
    reveal_with_fuel(after_script, 3);
    let script = stop_script(status.state);
    if script.len() == 2 {
        assert(script.drop_first() =~= seq![PipelineRequest::SetState(PlaybackState::Null)]);
        assert(script.drop_first().drop_first() =~= seq![]);
    }
}

/// The one transition of a pause plan is admitted from `Playing` and leaves
/// the pipeline in `Paused`.
pub proof fn lemma_pause_reaches_paused(status: PipelineStatus)
    requires
        status.state == PlaybackState::Playing,
    ensures
        script_allowed(status, seq![PipelineRequest::SetState(PlaybackState::Paused)]),
        after_script(status, seq![PipelineRequest::SetState(PlaybackState::Paused)]) == (
        PipelineStatus { state: PlaybackState::Paused, ..status }),
{
    reveal_with_fuel(script_allowed, 2);
    reveal_with_fuel(after_script, 2);
    let script = seq![PipelineRequest::SetState(PlaybackState::Paused)];
    assert(script.drop_first() =~= seq![]);
}

/// The flushing seek of a seek plan is admitted, and a pipeline that carries
/// it out is at the planned position, still playing.
pub proof fn lemma_seek_reaches_target(status: PipelineStatus, delta: i64)
    requires
        seek_plan(status, delta) is Ok,
    ensures
        script_allowed(status, seq![PipelineRequest::SeekTo(seek_plan(status, delta)->Ok_0)]),
        after_script(status, seq![PipelineRequest::SeekTo(seek_plan(status, delta)->Ok_0)]) == (
        PipelineStatus { position: Some(seek_plan(status, delta)->Ok_0), ..status }),
        seek_plan(status, delta)->Ok_0 == status.position->Some_0 + delta,
{
    reveal_with_fuel(script_allowed, 2);
    reveal_with_fuel(after_script, 2);
    let script = seq![PipelineRequest::SeekTo(seek_plan(status, delta)->Ok_0)];
    assert(script.drop_first() =~= seq![]);
}

/// The sink that takes a pad of the decoder.
#[derive(Clone, Copy, Debug, PartialEq, Eq, Structural)]
pub enum PadTarget {
    Video,
    Audio,
    Subtitle,
}

/// The beginning of the name of the capabilities that a sink takes.
pub open spec fn pad_target_mark(target: PadTarget) -> Seq<char> {
    match target {
        PadTarget::Video => "video/x-raw"@,
        PadTarget::Audio => "audio/x-raw"@,
        PadTarget::Subtitle => "text/x-raw"@,
    }
}

/// The sink that takes a pad whose capabilities carry the name `pad_type`:
/// raw video goes to the video sink, raw audio to the audio sink, raw text
/// to the subtitle sink, and anything else is left alone.
pub fn pad_target(pad_type: &str) -> (target: Option<PadTarget>)
    ensures
        target is Some ==> starts_with(pad_type@, pad_target_mark(target->Some_0)),
        forall|any: PadTarget|
            starts_with(pad_type@, #[trigger] pad_target_mark(any)) ==> target == Some(any),
{
    proof {
        reveal_strlit("video/x-raw");
        reveal_strlit("audio/x-raw");
        reveal_strlit("text/x-raw");
        assert forall|a: PadTarget, b: PadTarget|
            starts_with(pad_type@, pad_target_mark(a)) && starts_with(
                pad_type@,
                pad_target_mark(b),
            ) implies a == b by {
            assert(pad_type@.subrange(0, pad_target_mark(a).len() as int)[0] == pad_type@[0]);
            assert(pad_type@.subrange(0, pad_target_mark(b).len() as int)[0] == pad_type@[0]);
        }
    }
    if text_starts_with(pad_type, "video/x-raw") {
        assert(starts_with(pad_type@, pad_target_mark(PadTarget::Video)));
        Some(PadTarget::Video)
    } else if text_starts_with(pad_type, "audio/x-raw") {
        assert(starts_with(pad_type@, pad_target_mark(PadTarget::Audio)));
        Some(PadTarget::Audio)
    } else if text_starts_with(pad_type, "text/x-raw") {
        assert(starts_with(pad_type@, pad_target_mark(PadTarget::Subtitle)));
        Some(PadTarget::Subtitle)
    } else {
        None
    }
}

} // verus!
