use gpu_locks::{
    GPULock, IoFailure, LockError, LockMode, LockName, LockReply, LockRequest, PriorityLock,
};

fn contended() -> Option<i32> {
    fs2::lock_contended_error().raw_os_error()
}

fn failure(os_code: Option<i32>) -> IoFailure {
    IoFailure { os_code }
}

#[test]
fn lock_files_have_their_names() {
    assert_eq!(LockName::Gpu.file_name(), "bellman.gpu.lock");
    assert_eq!(LockName::Priority.file_name(), "bellman.priority.lock");
}

#[test]
fn gpu_lock_asks_for_an_exclusive_blocking_lock_and_keeps_it() {
    assert_eq!(
        GPULock::lock_request(),
        LockRequest { name: LockName::Gpu, mode: LockMode::Exclusive, blocking: true, retain: true }
    );
}

#[test]
fn gpu_lock_is_held_when_granted() {
    let lock = GPULock::lock(LockReply::Acquired);
    assert!(lock.is_ok());
}

#[test]
fn gpu_lock_reports_a_file_that_cannot_be_created() {
    let lock = GPULock::lock(LockReply::CreateFailed(failure(Some(13))));
    assert_eq!(
        lock.err(),
        Some(LockError::Create { name: LockName::Gpu, failure: failure(Some(13)) })
    );
}

#[test]
fn gpu_lock_reports_a_request_that_failed() {
    let lock = GPULock::lock(LockReply::LockFailed(failure(None)));
    assert_eq!(
        lock.err(),
        Some(LockError::Lock { name: LockName::Gpu, failure: failure(None) })
    );
}

#[test]
fn gpu_lock_release_succeeds_or_reports() {
    let lock = GPULock::lock(LockReply::Acquired).unwrap();
    assert_eq!(lock.unlock(Ok(())), Ok(()));
    let lock = GPULock::lock(LockReply::Acquired).unwrap();
    assert_eq!(
        lock.unlock(Err(failure(Some(9)))),
        Err(LockError::Unlock { name: LockName::Gpu, failure: failure(Some(9)) })
    );
}

#[test]
fn priority_lock_asks_for_an_exclusive_blocking_lock_and_keeps_it() {
    assert_eq!(
        PriorityLock::lock_request(),
        LockRequest {
            name: LockName::Priority,
            mode: LockMode::Exclusive,
            blocking: true,
            retain: true
        }
    );
}

#[test]
fn priority_lock_is_held_when_granted() {
    assert!(PriorityLock::lock(LockReply::Acquired).is_ok());
}

#[test]
fn priority_lock_reports_faults_under_its_own_name() {
    assert_eq!(
        PriorityLock::lock(LockReply::CreateFailed(failure(Some(2)))).err(),
        Some(LockError::Create { name: LockName::Priority, failure: failure(Some(2)) })
    );
    assert_eq!(
        PriorityLock::lock(LockReply::LockFailed(failure(Some(5)))).err(),
        Some(LockError::Lock { name: LockName::Priority, failure: failure(Some(5)) })
    );
}

#[test]
fn priority_lock_release_succeeds_or_reports() {
    let lock = PriorityLock::lock(LockReply::Acquired).unwrap();
    assert_eq!(lock.unlock(Ok(())), Ok(()));
    let lock = PriorityLock::lock(LockReply::Acquired).unwrap();
    assert_eq!(
        lock.unlock(Err(failure(None))),
        Err(LockError::Unlock { name: LockName::Priority, failure: failure(None) })
    );
}

#[test]
fn wait_with_priority_touches_no_lock() {
    assert_eq!(PriorityLock::wait_request(true), None);
    assert_eq!(PriorityLock::wait(true, None), Ok(None));
}

#[test]
fn wait_with_priority_ignores_any_reply() {
    assert_eq!(PriorityLock::wait(true, Some(LockReply::CreateFailed(failure(None)))), Ok(None));
    assert_eq!(PriorityLock::wait(true, Some(LockReply::LockFailed(failure(Some(4))))), Ok(None));
}

#[test]
fn wait_without_priority_blocks_on_the_flag_and_keeps_nothing() {
    assert_eq!(
        PriorityLock::wait_request(false),
        Some(LockRequest {
            name: LockName::Priority,
            mode: LockMode::Exclusive,
            blocking: true,
            retain: false
        })
    );
}

#[test]
fn wait_goes_on_once_the_flag_was_granted() {
    assert_eq!(PriorityLock::wait(false, Some(LockReply::Acquired)), Ok(None));
}

#[test]
fn wait_goes_on_with_a_warning_when_the_request_failed() {
    assert_eq!(
        PriorityLock::wait(false, Some(LockReply::LockFailed(failure(Some(5))))),
        Ok(Some(failure(Some(5))))
    );
    assert_eq!(
        PriorityLock::wait(false, Some(LockReply::LockFailed(failure(contended())))),
        Ok(Some(failure(contended())))
    );
}

#[test]
fn wait_stops_when_the_file_cannot_be_created() {
    assert_eq!(
        PriorityLock::wait(false, Some(LockReply::CreateFailed(failure(Some(13))))),
        Err(LockError::Create { name: LockName::Priority, failure: failure(Some(13)) })
    );
}

#[test]
fn probe_with_priority_touches_no_lock() {
    assert_eq!(PriorityLock::probe_request(true), None);
}

#[test]
fn probe_without_priority_tries_a_shared_lock_and_keeps_nothing() {
    assert_eq!(
        PriorityLock::probe_request(false),
        Some(LockRequest {
            name: LockName::Priority,
            mode: LockMode::Shared,
            blocking: false,
            retain: false
        })
    );
}

#[test]
fn should_break_is_true_while_another_process_holds_the_flag() {
    let held = Some(LockReply::LockFailed(failure(contended())));
    assert_eq!(PriorityLock::should_break(false, held), Ok((true, None)));
}

#[test]
fn should_break_is_false_once_the_flag_is_down() {
    assert_eq!(PriorityLock::should_break(false, Some(LockReply::Acquired)), Ok((false, None)));
}

#[test]
fn should_break_with_priority_is_always_false() {
    let held = Some(LockReply::LockFailed(failure(contended())));
    assert_eq!(PriorityLock::should_break(true, held), Ok((false, None)));
    assert_eq!(PriorityLock::should_break(true, Some(LockReply::Acquired)), Ok((false, None)));
    assert_eq!(PriorityLock::should_break(true, None), Ok((false, None)));
    assert_eq!(
        PriorityLock::should_break(true, Some(LockReply::CreateFailed(failure(None)))),
        Ok((false, None))
    );
}

#[test]
fn should_break_passes_over_other_failures() {
    let code = contended().map(|code| code.wrapping_add(1));
    assert_eq!(
        PriorityLock::should_break(false, Some(LockReply::LockFailed(failure(code)))),
        Ok((false, Some(failure(code))))
    );
    assert_eq!(
        PriorityLock::should_break(false, Some(LockReply::LockFailed(failure(None)))),
        Ok((false, Some(failure(None))))
    );
}

#[test]
fn should_break_stops_when_the_file_cannot_be_created() {
    assert_eq!(
        PriorityLock::should_break(false, Some(LockReply::CreateFailed(failure(Some(30))))),
        Err(LockError::Create { name: LockName::Priority, failure: failure(Some(30)) })
    );
}

#[test]
fn should_break_without_a_probe_is_false() {
    assert_eq!(PriorityLock::should_break(false, None), Ok((false, None)));
}

#[test]
fn should_break_on_goes_by_the_code_it_is_given() {
    let reply = Some(LockReply::LockFailed(failure(Some(11))));
    assert_eq!(PriorityLock::should_break_on(false, reply, Some(11)), Ok((true, None)));
    assert_eq!(
        PriorityLock::should_break_on(false, reply, Some(35)),
        Ok((false, Some(failure(Some(11)))))
    );
    assert_eq!(PriorityLock::should_break_on(true, reply, Some(11)), Ok((false, None)));
}
