use topmost::activate::ActivationCall;
use topmost::activate::activation_calls;

fn final_timeout(calls: &[ActivationCall], initial: u32) -> u32 {
    let mut t = initial;
    for c in calls {
        if let ActivationCall::SetLockTimeout { value } = c {
            t = *value;
        }
    }
    t
}

fn attach_balance(calls: &[ActivationCall]) -> i64 {
    let mut b: i64 = 0;
    for c in calls {
        if let ActivationCall::AttachInput { join, .. } = c {
            b += if *join { 1 } else { -1 };
        }
    }
    b
}

#[test]
fn dead_target_is_a_noop() {
    let calls = activation_calls(42, false, 1, 2, 200_000);
    assert!(calls.is_empty());
}

#[test]
fn same_context_requests_directly() {
    let calls = activation_calls(42, true, 7, 7, 200_000);
    assert_eq!(calls, vec![ActivationCall::RequestForeground { target: 42 }]);
}

#[test]
fn cross_context_performs_the_full_dance() {
    let calls = activation_calls(42, true, 7, 9, 200_000);
    assert_eq!(
        calls,
        vec![
            ActivationCall::AttachInput { caller: 7, foreground: 9, join: true },
            ActivationCall::SetLockTimeout { value: 0 },
            ActivationCall::AllowNextForeground,
            ActivationCall::RequestForeground { target: 42 },
            ActivationCall::SetLockTimeout { value: 200_000 },
            ActivationCall::AttachInput { caller: 7, foreground: 9, join: false },
        ]
    );
}

#[test]
fn lock_timeout_always_restored() {
    for (live, caller, fg) in [(false, 1, 2), (true, 7, 7), (true, 7, 9)] {
        let calls = activation_calls(42, live, caller, fg, 123_456);
        assert_eq!(final_timeout(&calls, 123_456), 123_456);
    }
}

#[test]
fn attachments_always_parted_again() {
    for (live, caller, fg) in [(false, 1, 2), (true, 7, 7), (true, 7, 9)] {
        let calls = activation_calls(42, live, caller, fg, 0);
        assert_eq!(attach_balance(&calls), 0);
    }
}
