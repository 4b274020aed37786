use std::sync::atomic::AtomicBool;
use std::sync::Arc;
use std::time::Duration;
use std::time::Instant;

use thread_handle::is_interrupted;
use thread_handle::ThreadHandle;
use thread_handle::ThreadStatus;

/// Burns the clock for `ms` milliseconds without giving up the thread.
fn busy_wait_millis(ms: u64) {
    let start = Instant::now();
    while start.elapsed() < Duration::from_millis(ms) {
        std::hint::spin_loop();
    }
}

#[test]
fn test_status() {
    let handle = ThreadHandle::spawn("Test status".to_string(), move |_| {
        busy_wait_millis(1000);
    })
    .unwrap();
    busy_wait_millis(700);
    assert_eq!(ThreadStatus::Running, handle.status());
    busy_wait_millis(700);
    assert_eq!(ThreadStatus::Terminated, handle.status());
}

#[test]
fn test_join_ok() {
    let handle = ThreadHandle::spawn("Test join ok".to_string(), move |_| {
        busy_wait_millis(1000);
        17
    })
    .unwrap();
    assert_eq!(17, handle.join().unwrap().unwrap());
    assert!(handle.join().is_none());
}

#[test]
fn test_join_error() {
    let handle = ThreadHandle::spawn("Test join error".to_string(), move |_| {
        busy_wait_millis(1000);
        panic!("");
    })
    .unwrap();
    assert!(handle.join().unwrap().is_err());
    assert!(handle.join().is_none());
}

#[test]
fn test_interrupt() {
    let handle = ThreadHandle::spawn("Test interrupt".to_string(), move |interrupted| {
        let mut i: i32 = 0;
        while !is_interrupted(&interrupted) {
            busy_wait_millis(200);
            i = i + 1;
        }
        i
    })
    .unwrap();
    busy_wait_millis(1000);
    assert_eq!(false, handle.interrupt().unwrap());
    assert_eq!(true, handle.interrupt().unwrap());
    let result = handle.join().unwrap().unwrap();
    assert!(result > 0 && result < 10);
    assert!(handle.interrupt().is_err());
}

#[test]
fn sleeping_worker_runs_then_terminates_with_value() {
    let handle = ThreadHandle::spawn("sleep then value".to_string(), move |_| {
        busy_wait_millis(1000);
        17
    })
    .unwrap();
    busy_wait_millis(700);
    assert_eq!(ThreadStatus::Running, handle.status());
    busy_wait_millis(700);
    assert_eq!(ThreadStatus::Terminated, handle.status());
    assert_eq!(17, handle.join().unwrap().unwrap());
    assert!(handle.join().is_none());
}

#[test]
fn join_synchronizes_with_termination() {
    let handle = ThreadHandle::spawn("quick worker".to_string(), move |_| 42).unwrap();
    assert_eq!(42, handle.join().unwrap().unwrap());
    // After a completed join the worker has certainly terminated.
    assert_eq!(ThreadStatus::Terminated, handle.status());
    assert!(handle.interrupt().is_err());
    assert!(handle.join().is_none());
}

#[test]
fn panicking_worker_reports_abnormal_termination_once() {
    let handle = ThreadHandle::spawn("quick panic".to_string(), move |_| -> i32 {
        panic!("");
    })
    .unwrap();
    assert!(handle.join().unwrap().is_err());
    assert!(handle.join().is_none());
    assert_eq!(ThreadStatus::Terminated, handle.status());
}

#[test]
fn empty_name_is_accepted() {
    let handle = ThreadHandle::spawn(String::new(), move |_| 7).unwrap();
    assert_eq!(7, handle.join().unwrap().unwrap());
}

#[test]
fn worker_observes_flag_raised_by_interrupt() {
    let handle = ThreadHandle::spawn("flag reader".to_string(), move |interrupted| {
        while !is_interrupted(&interrupted) {
            busy_wait_millis(50);
        }
        true
    })
    .unwrap();
    busy_wait_millis(300);
    let previous = handle.interrupt().unwrap();
    assert_eq!(false, previous);
    assert_eq!(true, handle.join().unwrap().unwrap());
}

#[test]
fn status_from_liveness_maps_exactly() {
    assert_eq!(ThreadStatus::Running, thread_handle::status_from_liveness(true));
    assert_eq!(ThreadStatus::Terminated, thread_handle::status_from_liveness(false));
}

#[test]
fn previous_value_decodes_both_branches() {
    assert_eq!(false, thread_handle::previous_value(Ok(false)));
    assert_eq!(true, thread_handle::previous_value(Err(true)));
    assert_eq!(false, thread_handle::previous_value(Err(false)));
}

#[test]
fn is_interrupted_sees_the_flag_value() {
    let flag = Arc::new(AtomicBool::new(false));
    assert_eq!(false, is_interrupted(&flag));
    flag.store(true, std::sync::atomic::Ordering::Relaxed);
    assert_eq!(true, is_interrupted(&flag));
}

#[test]
fn concurrent_joins_deliver_exactly_once() {
    let handle = ThreadHandle::spawn("contended worker".to_string(), move |_| {
        busy_wait_millis(400);
        5
    })
    .unwrap();
    let shared = Arc::new(handle);
    let first = Arc::clone(&shared);
    let second = Arc::clone(&shared);
    let joiner_a = ThreadHandle::spawn("joiner a".to_string(), move |_| first.join().is_some())
        .unwrap();
    let joiner_b = ThreadHandle::spawn("joiner b".to_string(), move |_| second.join().is_some())
        .unwrap();
    let got_a = joiner_a.join().unwrap().unwrap();
    let got_b = joiner_b.join().unwrap().unwrap();
    assert!(got_a != got_b);
}

#[test]
fn interrupt_from_observation_maps_exactly() {
    assert!(thread_handle::interrupt_from_observation(None).is_err());
    let flag = Arc::new(AtomicBool::new(false));
    let first = thread_handle::interrupt_from_observation(Some(Arc::clone(&flag)));
    assert_eq!(false, first.unwrap());
    let second = thread_handle::interrupt_from_observation(Some(Arc::clone(&flag)));
    assert_eq!(true, second.unwrap());
    assert!(is_interrupted(&flag));
}

#[test]
fn panic_message_is_delivered_to_the_joiner() {
    let handle = ThreadHandle::spawn("messenger".to_string(), move |_| -> u32 {
        panic!("boom");
    })
    .unwrap();
    let payload = handle.join().unwrap().unwrap_err();
    assert_eq!(Some("boom".to_string()), payload.message);
}
