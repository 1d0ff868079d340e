use noise_engine_native::fence::{
    fence_is_signaled, fence_wait, fence_wait_multiple, interpret_status_query,
    interpret_wait_status, DriverWaitStatus, GraphicsFence, HostFence,
};
use noise_engine_native::interop::ResultErrorKind;

#[test]
fn wait_zero_on_unsignaled_fence_is_ok_false() {
    let fence = HostFence::new(1);
    let r = fence.wait(0).into_result();
    assert_eq!(r.unwrap(), false);
}

#[test]
fn wait_max_after_signal_is_ok_true() {
    let mut fence = HostFence::new(1);
    fence.complete();
    let r = fence.wait(u64::MAX).into_result();
    assert_eq!(r.unwrap(), true);
}

#[test]
fn is_signaled_tracks_completion() {
    let mut fence = HostFence::new(7);
    assert_eq!(fence.is_signaled().into_result().unwrap(), false);
    fence.complete();
    assert_eq!(fence.is_signaled().into_result().unwrap(), true);
}

#[test]
fn wait_all_requires_both_signaled() {
    let mut f1 = HostFence::new(2);
    let mut f2 = HostFence::new(2);
    assert_eq!(f1.wait_multiple(&[&f1, &f2], true, 10).unwrap(), false);
    f1.complete();
    assert_eq!(f1.wait_multiple(&[&f1, &f2], true, 10).unwrap(), false);
    f2.complete();
    assert_eq!(f1.wait_multiple(&[&f1, &f2], true, 10).unwrap(), true);
}

#[test]
fn wait_any_succeeds_as_soon_as_one_signals() {
    let mut f1 = HostFence::new(2);
    let f2 = HostFence::new(2);
    assert_eq!(f1.wait_multiple(&[&f1, &f2], false, 10).unwrap(), false);
    f1.complete();
    assert_eq!(f1.wait_multiple(&[&f1, &f2], false, 10).unwrap(), true);
}

#[test]
fn boundary_fence_calls_dispatch_through_the_interface() {
    let mut f1 = HostFence::new(4);
    assert_eq!(fence_wait(&f1, 0).into_result().unwrap(), false);
    assert_eq!(fence_is_signaled(&f1).into_result().unwrap(), false);
    f1.complete();
    assert_eq!(fence_wait(&f1, u64::MAX).into_result().unwrap(), true);
    let f2 = HostFence::new(4);
    assert_eq!(fence_wait_multiple(&f1, &[&f1, &f2], false, 5).unwrap(), true);
    assert_eq!(fence_wait_multiple(&f1, &[&f1, &f2], true, 5).unwrap(), false);
}

#[test]
fn completed_wait_status_maps_to_true() {
    let r = interpret_wait_status(DriverWaitStatus::Completed);
    assert_eq!(r.unwrap(), true);
}

#[test]
fn timed_out_wait_status_is_not_an_error() {
    let r = interpret_wait_status(DriverWaitStatus::TimedOut);
    assert_eq!(r.unwrap(), false);
}

#[test]
fn failed_wait_status_maps_to_device_error() {
    let r = interpret_wait_status(DriverWaitStatus::Failed(-4));
    let err = r.unwrap_err();
    assert_eq!(err.kind(), ResultErrorKind::Device);
    assert_eq!(err.kind().code(), 1);
}

#[test]
fn status_query_outcomes_map_to_boundary_results() {
    assert_eq!(interpret_status_query(Ok(true)).into_result().unwrap(), true);
    assert_eq!(interpret_status_query(Ok(false)).into_result().unwrap(), false);
    let err = interpret_status_query(Err(-1)).into_result().unwrap_err();
    assert_eq!(err.kind(), ResultErrorKind::Device);
}
