//! The foreground activator: the host-call sequence that brings a target
//! window to the foreground even when focus-stealing prevention would
//! refuse the request, and that restores the system-wide foreground-lock
//! timeout on every path.
//!
//! The host adapter probes the environment first — whether the target is
//! still a live window, the calling thread's identity, the identity of the
//! thread owning the current foreground window, and the present
//! foreground-lock timeout — and hands those plain values in; this module
//! decides the exact calls to perform, in order.

use vstd::prelude::*;

verus! {

/// One host call of the activation sequence.
#[derive(Debug, PartialEq, Eq, Structural)]
pub enum ActivationCall {
    /// Join (`join` true) or part (`join` false) the caller's input
    /// processing with that of the thread owning the foreground window.
    AttachInput { caller: u32, foreground: u32, join: bool },
    /// Write the system-wide foreground-lock timeout.
    SetLockTimeout { value: u32 },
    /// Permit the next foreground change that would otherwise be refused.
    AllowNextForeground,
    /// Ask the host to bring the target to the foreground; a refusal is
    /// logged and non-fatal, and changes none of the calls that follow.
    RequestForeground { target: u64 },
}

/// The value the system-wide foreground-lock timeout holds once the calls
/// have run, starting from `initial`: the last write wins.
pub open spec fn timeout_after(calls: Seq<ActivationCall>, initial: u32) -> u32
    decreases calls.len(),
{
    if calls.len() == 0 {
        initial
    } else {
        match calls.last() {
            ActivationCall::SetLockTimeout { value } => value,
            _ => timeout_after(calls.drop_last(), initial),
        }
    }
}

/// Input attachments still joined once the calls have run: each join adds
/// one, each part removes one.
pub open spec fn attach_balance(calls: Seq<ActivationCall>) -> int
    decreases calls.len(),
{
    if calls.len() == 0 {
        0
    } else {
        attach_balance(calls.drop_last()) + match calls.last() {
            ActivationCall::AttachInput { join, .. } => if join {
                1int
            } else {
                -1int
            },
            _ => 0int,
        }
    }
}

/// The activation sequence for a target window.
///
/// A dead target aborts silently: no calls. A target owned by the caller's
/// own input context needs no workaround: the foreground request alone.
/// A cross-context target takes the full dance: join input processing with
/// the foreground thread, zero the foreground-lock timeout, permit the next
/// foreground change, request it, then — whatever the request reported —
/// restore the saved timeout and part the input processing again.
pub open spec fn activation_model(
    target: u64,
    target_live: bool,
    caller: u32,
    foreground: u32,
    saved_timeout: u32,
) -> Seq<ActivationCall> {
    if !target_live {
        Seq::empty()
    } else if caller == foreground {
        seq![ActivationCall::RequestForeground { target }]
    } else {
        seq![
            ActivationCall::AttachInput { caller, foreground, join: true },
            ActivationCall::SetLockTimeout { value: 0 },
            ActivationCall::AllowNextForeground,
            ActivationCall::RequestForeground { target },
            ActivationCall::SetLockTimeout { value: saved_timeout },
            ActivationCall::AttachInput { caller, foreground, join: false },
        ]
    }
}

/// Foreground-lock-timeout restoration: after any activation — for a live
/// or dead target, same-context or cross-context, and whether or not the
/// foreground request itself succeeds (a refusal changes no call) — the
/// system-wide timeout equals the pre-call value that was read and handed
/// in, and every input attachment has been parted again.
pub proof fn lemma_activation_restores(
    target: u64,
    target_live: bool,
    caller: u32,
    foreground: u32,
    saved_timeout: u32,
)
    ensures
        timeout_after(
            activation_model(target, target_live, caller, foreground, saved_timeout),
            saved_timeout,
        ) == saved_timeout,
        attach_balance(activation_model(target, target_live, caller, foreground, saved_timeout))
            == 0,
{
    let s = activation_model(target, target_live, caller, foreground, saved_timeout);
    if !target_live {
    } else if caller == foreground {
        let t0 = Seq::<ActivationCall>::empty();
        let t1 = t0.push(ActivationCall::RequestForeground { target });
        assert(s =~= t1);
        assert(t1.last() == (ActivationCall::RequestForeground { target }));
        assert(t1.drop_last() =~= t0);
        assert(timeout_after(t0, saved_timeout) == saved_timeout);
        assert(timeout_after(t1, saved_timeout) == timeout_after(t0, saved_timeout));
        assert(attach_balance(t0) == 0);
        assert(attach_balance(t1) == attach_balance(t0));
    } else {
        let t0 = Seq::<ActivationCall>::empty();
        let t1 = t0.push(ActivationCall::AttachInput { caller, foreground, join: true });
        let t2 = t1.push(ActivationCall::SetLockTimeout { value: 0 });
        let t3 = t2.push(ActivationCall::AllowNextForeground);
        let t4 = t3.push(ActivationCall::RequestForeground { target });
        let t5 = t4.push(ActivationCall::SetLockTimeout { value: saved_timeout });
        let t6 = t5.push(ActivationCall::AttachInput { caller, foreground, join: false });
        assert(s =~= t6);
        assert(t6.drop_last() =~= t5);
        assert(t5.drop_last() =~= t4);
        assert(t4.drop_last() =~= t3);
        assert(t3.drop_last() =~= t2);
        assert(t2.drop_last() =~= t1);
        assert(t1.drop_last() =~= t0);
        assert(timeout_after(t6, saved_timeout) == timeout_after(t5, saved_timeout));
        assert(timeout_after(t5, saved_timeout) == saved_timeout);
        assert(attach_balance(t6) == attach_balance(t5) - 1);
        assert(attach_balance(t5) == attach_balance(t4));
        assert(attach_balance(t4) == attach_balance(t3));
        assert(attach_balance(t3) == attach_balance(t2));
        assert(attach_balance(t2) == attach_balance(t1));
        assert(attach_balance(t0) == 0);
        assert(attach_balance(t1) == attach_balance(t0) + 1);
    }
}

/// Lays out the activation sequence for the probed environment.
pub fn activation_calls(
    target: u64,
    target_live: bool,
    caller: u32,
    foreground: u32,
    saved_timeout: u32,
) -> (calls: Vec<ActivationCall>)
    ensures
        calls@ == activation_model(target, target_live, caller, foreground, saved_timeout),
        timeout_after(calls@, saved_timeout) == saved_timeout,
        attach_balance(calls@) == 0,
{
    let mut calls: Vec<ActivationCall> = Vec::new();
    if target_live {
        if caller == foreground {
            calls.push(ActivationCall::RequestForeground { target });
        } else {
            calls.push(ActivationCall::AttachInput { caller, foreground, join: true });
            calls.push(ActivationCall::SetLockTimeout { value: 0 });
            calls.push(ActivationCall::AllowNextForeground);
            calls.push(ActivationCall::RequestForeground { target });
            calls.push(ActivationCall::SetLockTimeout { value: saved_timeout });
            calls.push(ActivationCall::AttachInput { caller, foreground, join: false });
        }
    }
    proof {
        assert(calls@ =~= activation_model(target, target_live, caller, foreground, saved_timeout));
        lemma_activation_restores(target, target_live, caller, foreground, saved_timeout);
    }
    calls
}

} // verus!
