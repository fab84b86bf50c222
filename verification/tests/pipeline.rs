use rustobot::pipeline::pause_pipeline;
use rustobot::pipeline::seek_pipeline;
use rustobot::pipeline::set_source_uri;
use rustobot::pipeline::start_pipeline;
use rustobot::pipeline::stop_pipeline;
use rustobot::pipeline::PipelineError;
use rustobot::pipeline::PipelineRequest;
use rustobot::pipeline::PipelineStatus;
use rustobot::pipeline::PlaybackState;
use rustobot::pipeline::MAX_POSITION_SECONDS;

fn status_in(state: PlaybackState) -> PipelineStatus {
    PipelineStatus { state, source: Some("file:///a.mkv".to_string()), position: Some(100) }
}

#[test]
fn start_from_null_goes_through_ready() {
    let plan = start_pipeline(&status_in(PlaybackState::Null));
    assert_eq!(
        plan,
        Ok((
            vec![
                PipelineRequest::SetState(PlaybackState::Ready),
                PipelineRequest::SetState(PlaybackState::Playing),
            ],
            "file:///a.mkv".to_string(),
        ))
    );
}

#[test]
fn start_from_ready_goes_through_ready() {
    let plan = start_pipeline(&status_in(PlaybackState::Ready)).unwrap();
    assert_eq!(
        plan.0,
        vec![
            PipelineRequest::SetState(PlaybackState::Ready),
            PipelineRequest::SetState(PlaybackState::Playing),
        ]
    );
}

#[test]
fn start_from_paused_resumes_directly() {
    let plan = start_pipeline(&status_in(PlaybackState::Paused)).unwrap();
    assert_eq!(plan.0, vec![PipelineRequest::SetState(PlaybackState::Playing)]);
    assert_eq!(plan.1, "file:///a.mkv");
}

#[test]
fn start_while_playing_is_a_no_op() {
    let plan = start_pipeline(&status_in(PlaybackState::Playing)).unwrap();
    assert_eq!(plan.0, vec![]);
    assert_eq!(plan.1, "file:///a.mkv");
}

#[test]
fn start_without_source_is_refused() {
    let status = PipelineStatus { state: PlaybackState::Null, source: None, position: None };
    assert_eq!(start_pipeline(&status), Err(PipelineError::NoSource));
}

#[test]
fn stop_goes_through_ready_to_null() {
    for state in [PlaybackState::Playing, PlaybackState::Paused, PlaybackState::Ready] {
        assert_eq!(
            stop_pipeline(&status_in(state)),
            vec![
                PipelineRequest::SetState(PlaybackState::Ready),
                PipelineRequest::SetState(PlaybackState::Null),
            ]
        );
    }
}

#[test]
fn stop_of_idle_pipeline_is_a_no_op() {
    assert_eq!(stop_pipeline(&status_in(PlaybackState::Null)), vec![]);
}

#[test]
fn pause_only_from_playing() {
    assert_eq!(
        pause_pipeline(&status_in(PlaybackState::Playing)),
        Ok(vec![PipelineRequest::SetState(PlaybackState::Paused)])
    );
    for state in [PlaybackState::Null, PlaybackState::Ready, PlaybackState::Paused] {
        assert_eq!(pause_pipeline(&status_in(state)), Err(PipelineError::NotPlaying));
    }
}

#[test]
fn seek_forward_adds_to_position() {
    assert_eq!(
        seek_pipeline(&status_in(PlaybackState::Playing), 60),
        Ok((vec![PipelineRequest::SeekTo(160)], 160))
    );
}

#[test]
fn seek_backward_subtracts_from_position() {
    assert_eq!(
        seek_pipeline(&status_in(PlaybackState::Playing), -60),
        Ok((vec![PipelineRequest::SeekTo(40)], 40))
    );
    assert_eq!(
        seek_pipeline(&status_in(PlaybackState::Playing), -100),
        Ok((vec![PipelineRequest::SeekTo(0)], 0))
    );
}

#[test]
fn seek_before_start_is_refused() {
    assert_eq!(
        seek_pipeline(&status_in(PlaybackState::Playing), -101),
        Err(PipelineError::SeekOutOfRange)
    );
    assert_eq!(
        seek_pipeline(&status_in(PlaybackState::Playing), i64::MIN),
        Err(PipelineError::SeekOutOfRange)
    );
}

#[test]
fn seek_beyond_clock_range_is_refused() {
    let status = PipelineStatus {
        state: PlaybackState::Playing,
        source: None,
        position: Some(MAX_POSITION_SECONDS - 5),
    };
    assert_eq!(
        seek_pipeline(&status, 5),
        Ok((vec![PipelineRequest::SeekTo(MAX_POSITION_SECONDS)], MAX_POSITION_SECONDS))
    );
    assert_eq!(seek_pipeline(&status, 6), Err(PipelineError::SeekOutOfRange));
    assert_eq!(seek_pipeline(&status, i64::MAX), Err(PipelineError::SeekOutOfRange));
    let far = PipelineStatus {
        state: PlaybackState::Playing,
        source: None,
        position: Some(u64::MAX),
    };
    assert_eq!(seek_pipeline(&far, 0), Err(PipelineError::SeekOutOfRange));
}

#[test]
fn max_position_fits_nanosecond_clock() {
    assert_eq!(MAX_POSITION_SECONDS, (u64::MAX - 1) / 1_000_000_000);
    assert!(MAX_POSITION_SECONDS.checked_mul(1_000_000_000).is_some());
    assert!((MAX_POSITION_SECONDS + 1).checked_mul(1_000_000_000).is_none());
}

#[test]
fn seek_needs_playing_pipeline() {
    for state in [PlaybackState::Null, PlaybackState::Ready, PlaybackState::Paused] {
        assert_eq!(seek_pipeline(&status_in(state), 10), Err(PipelineError::SeekNotPlaying));
    }
}

#[test]
fn seek_needs_known_position() {
    let status = PipelineStatus { state: PlaybackState::Playing, source: None, position: None };
    assert_eq!(seek_pipeline(&status, 10), Err(PipelineError::NoPosition));
}

#[test]
fn set_source_carries_the_locator() {
    assert_eq!(
        set_source_uri("file:///a.mkv".to_string()),
        PipelineRequest::SetSource("file:///a.mkv".to_string())
    );
}

#[test]
fn pipeline_error_messages() {
    assert_eq!(PipelineError::NoSource.message(), "unable to get source element from pipeline");
    assert_eq!(PipelineError::NotPlaying.message(), "stream is not playing. unable to pause");
    assert_eq!(PipelineError::SeekNotPlaying.message(), "cannot seek on non-playing stream");
    assert_eq!(PipelineError::NoPosition.message(), "unable to get current position");
    assert_eq!(PipelineError::SeekOutOfRange.message(), "seek target is outside of the stream");
    assert_eq!(PipelineError::Failed("boom".to_string()).message(), "boom");
}

#[test]
fn requests_and_errors_clone_equal() {
    let request = PipelineRequest::SetSource("x".to_string());
    assert_eq!(request.clone(), request);
    let error = PipelineError::Failed("y".to_string());
    assert_eq!(error.clone(), error);
}
