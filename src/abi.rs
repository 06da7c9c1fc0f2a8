use vstd::prelude::*;

verus! {

/// Reference to a kernel task. Owned by the kernel, never dereferenced here.
#[derive(Debug, Clone, Copy, PartialEq, Eq, Structural)]
pub struct TaskRef {
    addr: usize,
}

/// Reference to a kernel control group. Owned by the kernel, never
/// dereferenced here.
#[derive(Debug, Clone, Copy, PartialEq, Eq, Structural)]
pub struct CgroupRef {
    addr: usize,
}

/// Reference to a kernel CPU mask. Owned by the kernel, never dereferenced
/// here.
#[derive(Debug, Clone, Copy, PartialEq, Eq, Structural)]
pub struct CpuMaskRef {
    addr: usize,
}

/// Reference to a C string or text buffer owned by the kernel.
#[derive(Debug, Clone, Copy, PartialEq, Eq, Structural)]
pub struct ForeignText {
    addr: usize,
}

/// Reference to a buffer of machine words owned by the kernel.
#[derive(Debug, Clone, Copy, PartialEq, Eq, Structural)]
pub struct ForeignWords {
    addr: usize,
}

/// Why a CPU was taken away from the scheduler.
#[derive(Debug, Clone, Copy, PartialEq, Eq, Structural)]
pub enum PreemptReason {
    /// A real-time task took the CPU.
    Rt,
    /// A deadline task took the CPU.
    Dl,
    /// The stop task took the CPU.
    Stop,
    /// Any other reason.
    Unknown,
}

impl PreemptReason {
    /// The kernel's numeric code of the variant.
    pub open spec fn code(self) -> u32 {
        match self {
            PreemptReason::Rt => 0,
            PreemptReason::Dl => 1,
            PreemptReason::Stop => 2,
            PreemptReason::Unknown => 3,
        }
    }

    /// The variant whose kernel code is `v`, if any.
    pub open spec fn of_code(v: u32) -> Option<Self> {
        if v == 0 {
            Some(PreemptReason::Rt)
        } else 
        if v == 1 {
            Some(PreemptReason::Dl)
        } else 
        if v == 2 {
            Some(PreemptReason::Stop)
        } else 
        if v == 3 {
            Some(PreemptReason::Unknown)
        } else {
            None
        }
    }

    /// The kernel's numeric code of the variant.
    pub fn raw(&self) -> (r: u32)
        ensures
            r == self.code(),
    {
        match *self {
            PreemptReason::Rt => 0,
            PreemptReason::Dl => 1,
            PreemptReason::Stop => 2,
            PreemptReason::Unknown => 3,
        }
    }

    /// The variant whose kernel code is `v`, or `None` for a code the
    /// kernel does not define.
    pub fn from_raw(v: u32) -> (r: Option<Self>)
        ensures
            r == Self::of_code(v),
    {
        match v {
            0 => Some(PreemptReason::Rt),
            1 => Some(PreemptReason::Dl),
            2 => Some(PreemptReason::Stop),
            3 => Some(PreemptReason::Unknown),
            _ => None,
        }
    }
}

/// Why the scheduler was unregistered. The codes are grouped with gaps,
/// as the kernel defines them.
#[derive(Debug, Clone, Copy, PartialEq, Eq, Structural)]
pub enum ExitKind {
    /// No exit has happened.
    NoExit,
    /// The scheduler finished on its own.
    Done,
    /// User space asked for unregistration.
    Unreg,
    /// The BPF side asked for unregistration.
    UnregBpf,
    /// The kernel asked for unregistration.
    UnregKern,
    /// Unregistration by the SysRq key.
    Sysrq,
    /// An error ended the scheduler.
    Error,
    /// The BPF side reported an error.
    ErrorBpf,
    /// A runnable task stalled past the timeout.
    ErrorStall,
}

impl ExitKind {
    /// The kernel's numeric code of the variant.
    pub open spec fn code(self) -> u32 {
        match self {
            ExitKind::NoExit => 0,
            ExitKind::Done => 1,
            ExitKind::Unreg => 64,
            ExitKind::UnregBpf => 65,
            ExitKind::UnregKern => 66,
            ExitKind::Sysrq => 67,
            ExitKind::Error => 1024,
            ExitKind::ErrorBpf => 1025,
            ExitKind::ErrorStall => 1026,
        }
    }

    /// The variant whose kernel code is `v`, if any.
    pub open spec fn of_code(v: u32) -> Option<Self> {
        if v == 0 {
            Some(ExitKind::NoExit)
        } else 
        if v == 1 {
            Some(ExitKind::Done)
        } else 
        if v == 64 {
            Some(ExitKind::Unreg)
        } else 
        if v == 65 {
            Some(ExitKind::UnregBpf)
        } else 
        if v == 66 {
            Some(ExitKind::UnregKern)
        } else 
        if v == 67 {
            Some(ExitKind::Sysrq)
        } else 
        if v == 1024 {
            Some(ExitKind::Error)
        } else 
        if v == 1025 {
            Some(ExitKind::ErrorBpf)
        } else 
        if v == 1026 {
            Some(ExitKind::ErrorStall)
        } else {
            None
        }
    }

    /// The kernel's numeric code of the variant.
    pub fn raw(&self) -> (r: u32)
        ensures
            r == self.code(),
    {
        match *self {
            ExitKind::NoExit => 0,
            ExitKind::Done => 1,
            ExitKind::Unreg => 64,
            ExitKind::UnregBpf => 65,
            ExitKind::UnregKern => 66,
            ExitKind::Sysrq => 67,
            ExitKind::Error => 1024,
            ExitKind::ErrorBpf => 1025,
            ExitKind::ErrorStall => 1026,
        }
    }

    /// The variant whose kernel code is `v`, or `None` for a code the
    /// kernel does not define.
    pub fn from_raw(v: u32) -> (r: Option<Self>)
        ensures
            r == Self::of_code(v),
    {
        match v {
            0 => Some(ExitKind::NoExit),
            1 => Some(ExitKind::Done),
            64 => Some(ExitKind::Unreg),
            65 => Some(ExitKind::UnregBpf),
            66 => Some(ExitKind::UnregKern),
            67 => Some(ExitKind::Sysrq),
            1024 => Some(ExitKind::Error),
            1025 => Some(ExitKind::ErrorBpf),
            1026 => Some(ExitKind::ErrorStall),
            _ => None,
        }
    }
}

/// The two directions of the code mapping undo each other.
pub proof fn lemma_preempt_reason_codes(k: PreemptReason, v: u32)
    ensures
        PreemptReason::of_code(k.code()) == Some(k),
        PreemptReason::of_code(v) matches Some(j) ==> j.code() == v,
{
}

/// The two directions of the code mapping undo each other.
pub proof fn lemma_exit_kind_codes(k: ExitKind, v: u32)
    ensures
        ExitKind::of_code(k.code()) == Some(k),
        ExitKind::of_code(v) matches Some(j) ==> j.code() == v,
{
}

/// Arguments of the control-group init callback.
#[derive(Debug, Clone, Copy, PartialEq, Eq, Structural)]
pub struct CgroupInitArgs {
    pub weight: u32,
}

/// Arguments of the CPU-acquire callback; reserved, empty for now.
#[derive(Debug, Clone, Copy, PartialEq, Eq, Structural)]
pub struct CpuAcquireArgs {}

/// Arguments of the CPU-release callback.
#[derive(Debug, Clone, Copy, PartialEq, Eq, Structural)]
pub struct CpuReleaseArgs {
    pub reason: PreemptReason,
    pub task: TaskRef,
}

/// Arguments of the task-init callback.
#[derive(Debug, Clone, Copy, PartialEq, Eq, Structural)]
pub struct InitTaskArgs {
    pub fork: bool,
    pub cgroup: CgroupRef,
}

/// Arguments of the task-exit callback.
#[derive(Debug, Clone, Copy, PartialEq, Eq, Structural)]
pub struct ExitTaskArgs {
    pub cancelled: bool,
}

/// Context handed to the dump callbacks.
#[derive(Debug, Clone, Copy, PartialEq, Eq, Structural)]
pub struct DumpCtx {
    pub kind: ExitKind,
    pub exit_code: i64,
    pub reason: ForeignText,
    pub at_ns: u64,
    pub at_jiffies: u64,
}

/// What the kernel reports when the scheduler exits.
#[derive(Debug, Clone, Copy, PartialEq, Eq, Structural)]
pub struct ExitInfo {
    pub kind: ExitKind,
    pub exit_code: i64,
    pub reason: ForeignText,
    pub bt: ForeignWords,
    pub bt_len: u32,
    pub msg: ForeignText,
    pub dump: ForeignText,
}

} // verus!
