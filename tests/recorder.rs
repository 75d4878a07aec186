use lazyrec::frame_queue::{FrameQueue, FRAME_CHANNEL_CAPACITY};
use lazyrec::paths::mouse_data_path;
use lazyrec::recorder::{next_state, RecorderAction, RecorderError, RecordingMachine, RecordingState};

#[test]
fn test_mouse_data_path() {
    let p = "/tmp/recording.mp4";
    assert_eq!(mouse_data_path(p), "/tmp/recording_mouse.json".to_string());
}

#[test]
fn mouse_data_path_edge_cases() {
    assert_eq!(mouse_data_path("clip.mp4"), "clip_mouse.json");
    assert_eq!(mouse_data_path("/a/b.c/clip.final.mp4"), "/a/b.c/clip.final_mouse.json");
    assert_eq!(mouse_data_path("/a/.hidden"), "/a/.hidden_mouse.json");
    assert_eq!(mouse_data_path("/a/noext"), "/a/noext_mouse.json");
    assert_eq!(mouse_data_path("/a/"), "/a/recording_mouse.json");
}

#[test]
fn recording_machine_happy_path() {
    let mut m = RecordingMachine::new();
    assert_eq!(m.state(), RecordingState::Idle);
    assert!(m.pause(0).is_err());
    m.start(1000).unwrap();
    assert_eq!(m.state(), RecordingState::Recording);
    m.pause(3000).unwrap();
    assert_eq!(m.state(), RecordingState::Paused);
    m.resume(4000).unwrap();
    assert_eq!(m.state(), RecordingState::Recording);
    let duration = m.stop(6000).unwrap();
    assert_eq!(m.state(), RecordingState::Stopping);
    m.finish_stop().unwrap();
    assert_eq!(m.state(), RecordingState::Completed);
    assert_eq!(duration, 4000);
    let queue: FrameQueue<u32> = FrameQueue::new(FRAME_CHANNEL_CAPACITY);
    assert_eq!(queue.dropped_frames(), 0);
}

#[test]
fn recording_machine_invalid_transitions() {
    let mut m = RecordingMachine::new();
    assert!(m.pause(0).is_err());
    assert!(m.stop(0).is_err());
    assert!(m.resume(0).is_err());
    match m.pause(0) {
        Err(RecorderError::InvalidState { state, action }) => {
            assert_eq!(state, RecordingState::Idle);
            assert_eq!(action, "pause");
        }
        other => panic!("expected InvalidState, got {:?}", other),
    }
    assert_eq!(m.state(), RecordingState::Idle);
    m.start(0).unwrap();
    assert!(m.start(0).is_err());
    assert!(m.set_capture_dimensions(800, 600).is_err());
    assert_eq!(m.capture_size(), (1920, 1080));
}

#[test]
fn elapsed_excludes_pauses() {
    let mut m = RecordingMachine::new();
    assert_eq!(m.elapsed(5000), 0);
    m.start(1000).unwrap();
    assert_eq!(m.elapsed(1500), 500);
    assert_eq!(m.elapsed(500), 0);
    m.pause(2000).unwrap();
    assert_eq!(m.elapsed(2500), 1000);
    assert_eq!(m.elapsed(9000), 1000);
    m.resume(3000).unwrap();
    assert_eq!(m.elapsed(4000), 2000);
    assert!(m.accepts_frames());
}

#[test]
fn reset_and_fail() {
    let mut m = RecordingMachine::new();
    m.set_capture_dimensions(2560, 1440).unwrap();
    assert_eq!(m.capture_size(), (2560, 1440));
    m.start(10).unwrap();
    m.fail();
    assert_eq!(m.state(), RecordingState::Failed);
    assert!(!m.accepts_frames());
    m.reset();
    assert_eq!(m.state(), RecordingState::Idle);
    assert_eq!(m.elapsed(100), 0);
    assert!(m.finish_stop().is_err());
}

#[test]
fn transition_table() {
    assert_eq!(next_state(RecordingState::Idle, RecorderAction::Start), Some(RecordingState::Recording));
    assert_eq!(next_state(RecordingState::Paused, RecorderAction::Stop), Some(RecordingState::Stopping));
    assert_eq!(next_state(RecordingState::Stopping, RecorderAction::FinishStop), Some(RecordingState::Completed));
    assert_eq!(next_state(RecordingState::Completed, RecorderAction::Start), None);
    assert_eq!(next_state(RecordingState::Idle, RecorderAction::Resume), None);
}

#[test]
fn bounded_queue_drops_newest_when_full() {
    let mut q: FrameQueue<u32> = FrameQueue::new(2);
    assert!(q.try_push(1));
    assert!(q.try_push(2));
    assert!(!q.try_push(3));
    assert_eq!(q.dropped_frames(), 1);
    assert_eq!(q.pop(), Some(1));
    assert!(q.try_push(4));
    assert_eq!(q.pop(), Some(2));
    assert_eq!(q.pop(), Some(4));
    assert_eq!(q.pop(), None);
    assert_eq!(q.frames_enqueued(), 4);
    assert_eq!(q.frames_dequeued(), 3);
    assert_eq!(q.len(), 0);
}

#[test]
fn bounded_queue_accounting_holds_throughout() {
    let mut q: FrameQueue<u64> = FrameQueue::new(FRAME_CHANNEL_CAPACITY);
    assert_eq!(q.capacity(), 120);
    for i in 0..500u64 {
        q.try_push(i);
        if i % 3 == 0 {
            q.pop();
        }
        assert_eq!(
            q.frames_enqueued(),
            q.frames_dequeued() + q.len() as u64 + q.dropped_frames()
        );
        assert!(q.len() <= 120);
    }
    assert!(q.dropped_frames() > 0);
}

#[test]
fn settings_change_only_while_idle() {
    let mut m = RecordingMachine::new();
    assert!(m.require_idle("set target").is_ok());
    m.start(0).unwrap();
    match m.require_idle("set target") {
        Err(RecorderError::InvalidState { state, action }) => {
            assert_eq!(state, RecordingState::Recording);
            assert_eq!(action, "set target");
        }
        other => panic!("expected InvalidState, got {:?}", other),
    }
}

#[test]
fn offered_frames_count_only_while_accepting() {
    let mut m = RecordingMachine::new();
    let mut q: FrameQueue<u32> = FrameQueue::new(FRAME_CHANNEL_CAPACITY);
    assert!(!q.offer(0, m.accepts_frames()));
    m.start(0).unwrap();
    assert!(q.offer(1, m.accepts_frames()));
    m.pause(10).unwrap();
    assert!(!q.offer(2, m.accepts_frames()));
    m.resume(20).unwrap();
    assert!(q.offer(3, m.accepts_frames()));
    assert_eq!(q.frames_enqueued(), 2);
    assert_eq!(q.pop(), Some(1));
    assert_eq!(q.pop(), Some(3));
    assert_eq!(q.dropped_frames(), 0);
}

#[test]
fn pause_time_is_left_out() {
    let mut m = RecordingMachine::new();
    m.start(1000).unwrap();
    m.pause(1400).unwrap();
    assert_eq!(m.elapsed(1400), 400);
    assert_eq!(m.elapsed(5000), 400);
    m.resume(6000).unwrap();
    assert_eq!(m.elapsed(6000), 400);
    assert_eq!(m.elapsed(6250), 650);
    assert_eq!(m.stop(7000).unwrap(), 1400);
}
