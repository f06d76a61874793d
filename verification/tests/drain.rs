use video_decode::decode::PullEvent;
use video_decode::drain::{drain, drain_start, drain_step, DrainState, MAX_DRAIN_ITERATIONS};
use video_decode::error::BackendError;
use video_decode::frame::{PixelFormat, RawFrame};

fn buffered_frame() -> RawFrame {
    RawFrame {
        format: PixelFormat::Other(12),
        width: 1920,
        height: 1080,
        pts: Some(0),
        pkt_dts: Some(0),
    }
}

#[test]
fn drain_stops_on_first_failed_pull() {
    // three buffered frames, then a failing pull: exactly 4 attempts, and
    // the failure is swallowed, not reported
    let pulls = vec![
        PullEvent::Frame(buffered_frame()),
        PullEvent::Frame(buffered_frame()),
        PullEvent::Frame(buffered_frame()),
        PullEvent::Failed(BackendError::Other(-541478725)),
    ];
    let state = drain(true, &pulls);
    assert_eq!(state.attempts, 4);
    assert!(state.finished);
}

#[test]
fn drain_is_bounded_against_endless_frames() {
    // a codec that would yield frames indefinitely: the drain stops at its
    // attempt bound
    let pulls = vec![PullEvent::Frame(buffered_frame()); 150];
    let state = drain(true, &pulls);
    assert_eq!(state.attempts, MAX_DRAIN_ITERATIONS);
    assert!(state.finished);
}

#[test]
fn drain_bound_is_one_hundred() {
    assert_eq!(MAX_DRAIN_ITERATIONS, 100);
}

#[test]
fn drain_skipped_when_eof_not_accepted() {
    let pulls = vec![PullEvent::Frame(buffered_frame()); 10];
    let state = drain(false, &pulls);
    assert_eq!(state.attempts, 0);
    assert!(state.finished);
}

#[test]
fn drain_continues_on_not_ready() {
    // "not enough data yet" does not stop the drain; only a failed pull or
    // the bound does
    let pulls = vec![PullEvent::NotReady; 3];
    let state = drain(true, &pulls);
    assert_eq!(state.attempts, 3);
    assert!(!state.finished);
}

#[test]
fn drain_step_counts_attempts() {
    let s0 = drain_start(true);
    assert_eq!(s0, DrainState { attempts: 0, finished: false });
    let s1 = drain_step(s0, PullEvent::Frame(buffered_frame()));
    assert_eq!(s1, DrainState { attempts: 1, finished: false });
    let s2 = drain_step(s1, PullEvent::Failed(BackendError::Other(-1)));
    assert_eq!(s2, DrainState { attempts: 2, finished: true });
}
