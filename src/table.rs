use vstd::prelude::*;

use crate::error::SchedExtOpsError;
use crate::name::{encode_name, encode_spec, encoded, has_no_nul, MAX_NAME_LEN, NAME_LEN};

verus! {

/// Upper bound that the kernel puts on `timeout_ms`: thirty seconds.
pub const MAX_TIMEOUT_MS: u32 = 30000;

/// Reference to a callback implemented outside this crate. It is carried,
/// never called or dereferenced here.
#[derive(Debug, Clone, Copy, PartialEq, Eq, Structural)]
pub struct ForeignFn {
    addr: usize,
}

/// The operations table that a scheduler registers with the kernel: one
/// slot per scheduling event, a few scalar settings and the scheduler's
/// name as a C string in a fixed 128-byte field.
#[derive(Debug)]
pub struct SchedExtOpsTable {
    pub select_cpu: Option<ForeignFn>,
    pub enqueue: Option<ForeignFn>,
    pub dequeue: Option<ForeignFn>,
    pub dispatch: Option<ForeignFn>,
    pub tick: Option<ForeignFn>,
    pub runnable: Option<ForeignFn>,
    pub running: Option<ForeignFn>,
    pub stopping: Option<ForeignFn>,
    pub quiescent: Option<ForeignFn>,
    pub yield_: Option<ForeignFn>,
    pub core_sched_before: Option<ForeignFn>,
    pub set_weight: Option<ForeignFn>,
    pub set_cpumask: Option<ForeignFn>,
    pub update_idle: Option<ForeignFn>,
    pub cpu_acquire: Option<ForeignFn>,
    pub cpu_release: Option<ForeignFn>,
    pub init_task: Option<ForeignFn>,
    pub exit_task: Option<ForeignFn>,
    pub enable: Option<ForeignFn>,
    pub disable: Option<ForeignFn>,
    pub dump: Option<ForeignFn>,
    pub dump_cpu: Option<ForeignFn>,
    pub dump_task: Option<ForeignFn>,
    pub cgroup_init: Option<ForeignFn>,
    pub cgroup_exit: Option<ForeignFn>,
    pub cgroup_prep_move: Option<ForeignFn>,
    pub cgroup_move: Option<ForeignFn>,
    pub cgroup_cancel_move: Option<ForeignFn>,
    pub cgroup_set_weight: Option<ForeignFn>,
    pub cpu_online: Option<ForeignFn>,
    pub cpu_offline: Option<ForeignFn>,
    pub init: Option<ForeignFn>,
    pub exit: Option<ForeignFn>,
    pub dispatch_max_batch: u32,
    pub flags: u64,
    pub timeout_ms: u32,
    pub exit_dump_len: u32,
    pub hotplug_seq: u64,
    pub name: [u8; NAME_LEN],
}

/// The name field holds a C string: a payload without terminator bytes,
/// followed by zeros up to the end of the field.
pub open spec fn is_name_field(buf: Seq<u8>) -> bool {
    exists|len: int|
        0 <= len <= MAX_NAME_LEN && #[trigger] has_no_nul(buf.take(len)) && buf == encoded(
            buf.take(len),
        )
}

impl SchedExtOpsTable {
    /// No callback slot is set.
    pub open spec fn callbacks_unset(&self) -> bool {
        &&& self.select_cpu is None
        &&& self.enqueue is None
        &&& self.dequeue is None
        &&& self.dispatch is None
        &&& self.tick is None
        &&& self.runnable is None
        &&& self.running is None
        &&& self.stopping is None
        &&& self.quiescent is None
        &&& self.yield_ is None
        &&& self.core_sched_before is None
        &&& self.set_weight is None
        &&& self.set_cpumask is None
        &&& self.update_idle is None
        &&& self.cpu_acquire is None
        &&& self.cpu_release is None
        &&& self.init_task is None
        &&& self.exit_task is None
        &&& self.enable is None
        &&& self.disable is None
        &&& self.dump is None
        &&& self.dump_cpu is None
        &&& self.dump_task is None
        &&& self.cgroup_init is None
        &&& self.cgroup_exit is None
        &&& self.cgroup_prep_move is None
        &&& self.cgroup_move is None
        &&& self.cgroup_cancel_move is None
        &&& self.cgroup_set_weight is None
        &&& self.cpu_online is None
        &&& self.cpu_offline is None
        &&& self.init is None
        &&& self.exit is None
    }

    /// Every scalar setting is zero.
    pub open spec fn scalars_zero(&self) -> bool {
        &&& self.dispatch_max_batch == 0
        &&& self.flags == 0
        &&& self.timeout_ms == 0
        &&& self.exit_dump_len == 0
        &&& self.hotplug_seq == 0
    }

    /// The table can be handed to the kernel: its name field is a
    /// terminated, zero-padded C string and its timeout is within bounds.
    pub open spec fn wf(&self) -> bool {
        &&& is_name_field(self.name@)
        &&& self.timeout_ms <= MAX_TIMEOUT_MS
    }

    /// The table that a builder makes for `name`: nothing set, every scalar
    /// zero, and the name field holding `name`.
    pub open spec fn is_blank_for(&self, name: Seq<u8>) -> bool {
        &&& self.callbacks_unset()
        &&& self.scalars_zero()
        &&& self.name@ == encoded(name)
    }

    /// A table with every callback slot unset, every scalar zero and the
    /// given name field.
    pub fn blank(name: [u8; NAME_LEN]) -> (r: Self)
        ensures
            r.callbacks_unset(),
            r.scalars_zero(),
            r.name == name,
    {
        SchedExtOpsTable {
            select_cpu: None,
            enqueue: None,
            dequeue: None,
            dispatch: None,
            tick: None,
            runnable: None,
            running: None,
            stopping: None,
            quiescent: None,
            yield_: None,
            core_sched_before: None,
            set_weight: None,
            set_cpumask: None,
            update_idle: None,
            cpu_acquire: None,
            cpu_release: None,
            init_task: None,
            exit_task: None,
            enable: None,
            disable: None,
            dump: None,
            dump_cpu: None,
            dump_task: None,
            cgroup_init: None,
            cgroup_exit: None,
            cgroup_prep_move: None,
            cgroup_move: None,
            cgroup_cancel_move: None,
            cgroup_set_weight: None,
            cpu_online: None,
            cpu_offline: None,
            init: None,
            exit: None,
            dispatch_max_batch: 0,
            flags: 0,
            timeout_ms: 0,
            exit_dump_len: 0,
            hotplug_seq: 0,
            name,
        }
    }

    /// Builds the blank table named `name`, or refuses a name too long for
    /// the name field.
    pub fn with_name(name: &[u8]) -> (r: Result<Self, SchedExtOpsError>)
        requires
            has_no_nul(name@),
        ensures
            table_spec(name@, r),
            r matches Ok(t) ==> t.wf(),
    {
        match encode_name(name) {
            Ok(buf) => {
                let t = Self::blank(buf);
                proof {
                    lemma_blank_table_wf(name@, t);
                }
                Ok(t)
            },
            Err(e) => Err(e),
        }
    }

    /// The name field read as signed C characters, byte for byte.
    pub fn name_signed(&self) -> (r: [i8; NAME_LEN])
        ensures
            forall|i: int| 0 <= i < NAME_LEN ==> r@[i] == self.name@[i] as i8,
    {
        let mut out: [i8; NAME_LEN] = [0i8; NAME_LEN];
        let mut i: usize = 0;
        while i < NAME_LEN
            invariant
                i <= NAME_LEN,
                out@.len() == NAME_LEN,
                self.name@.len() == NAME_LEN,
                forall|j: int| 0 <= j < i ==> out@[j] == self.name@[j] as i8,
            decreases NAME_LEN - i,
        {
            out[i] = self.name[i] as i8;
            i = i + 1;
        }
        out
    }
}

/// What building a table for `name` yields: the blank table named `name`
/// when it fits, otherwise the length error.
pub open spec fn table_spec(name: Seq<u8>, r: Result<SchedExtOpsTable, SchedExtOpsError>) -> bool {
    if name.len() <= MAX_NAME_LEN {
        r matches Ok(t) && t.is_blank_for(name)
    } else {
        r matches Err(e) && e == SchedExtOpsError::NameTooLong(name.len() as usize)
    }
}

/// A blank table built for a name that fits is well formed.
pub proof fn lemma_blank_table_wf(name: Seq<u8>, t: SchedExtOpsTable)
    requires
        has_no_nul(name),
        name.len() <= MAX_NAME_LEN,
        t.is_blank_for(name),
    ensures
        t.wf(),
{
    assert(t.name@.take(name.len() as int) =~= name);
}

} // verus!
