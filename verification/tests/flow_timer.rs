use net_sentinel::capture::sniffer::CaptureState;

#[test]
fn first_frame_has_zero_iat() {
    let mut state = CaptureState::new();
    assert_eq!(state.update_and_get_iat(123_456_789), 0);
}

#[test]
fn first_frame_at_time_zero_has_zero_iat() {
    let mut state = CaptureState::new();
    assert_eq!(state.update_and_get_iat(0), 0);
}

#[test]
fn second_frame_has_the_gap_as_iat() {
    let mut state = CaptureState::new();
    state.update_and_get_iat(5_000_000_000);
    assert_eq!(state.update_and_get_iat(5_010_000_000), 10_000_000);
}

#[test]
fn iat_is_measured_from_the_frame_before() {
    let mut state = CaptureState::new();
    assert_eq!(state.update_and_get_iat(100), 0);
    assert_eq!(state.update_and_get_iat(350), 250);
    assert_eq!(state.update_and_get_iat(351), 1);
    assert_eq!(state.update_and_get_iat(351), 0);
    assert_eq!(state.update_and_get_iat(u64::MAX), u64::MAX - 351);
}

#[test]
fn clock_stepping_back_gives_zero_iat() {
    let mut state = CaptureState::new();
    state.update_and_get_iat(1_000);
    assert_eq!(state.update_and_get_iat(400), 0);
    assert_eq!(state.update_and_get_iat(450), 50);
}

#[test]
fn two_sessions_keep_separate_time() {
    let mut first = CaptureState::new();
    let mut second = CaptureState::new();
    first.update_and_get_iat(10);
    assert_eq!(second.update_and_get_iat(500), 0);
    assert_eq!(first.update_and_get_iat(30), 20);
}
