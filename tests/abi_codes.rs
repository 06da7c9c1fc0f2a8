use sched_ext_ops::{ExitKind, PreemptReason, MAX_TIMEOUT_MS};

#[test]
fn exit_kind_codes_keep_their_gaps() {
    let all = [
        (ExitKind::NoExit, 0u32),
        (ExitKind::Done, 1),
        (ExitKind::Unreg, 64),
        (ExitKind::UnregBpf, 65),
        (ExitKind::UnregKern, 66),
        (ExitKind::Sysrq, 67),
        (ExitKind::Error, 1024),
        (ExitKind::ErrorBpf, 1025),
        (ExitKind::ErrorStall, 1026),
    ];
    for (kind, code) in all {
        assert_eq!(kind.raw(), code);
        assert_eq!(ExitKind::from_raw(code), Some(kind));
    }
    assert_eq!(ExitKind::from_raw(2), None);
    assert_eq!(ExitKind::from_raw(1023), None);
}

#[test]
fn preempt_reason_codes() {
    let all = [
        (PreemptReason::Rt, 0u32),
        (PreemptReason::Dl, 1),
        (PreemptReason::Stop, 2),
        (PreemptReason::Unknown, 3),
    ];
    for (reason, code) in all {
        assert_eq!(reason.raw(), code);
        assert_eq!(PreemptReason::from_raw(code), Some(reason));
    }
    assert_eq!(PreemptReason::from_raw(4), None);
}

#[test]
fn timeout_ceiling_is_thirty_seconds() {
    assert_eq!(MAX_TIMEOUT_MS, 30_000);
}
