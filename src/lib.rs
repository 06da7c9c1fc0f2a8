//! Construction of the sched_ext operations table: a fixed-layout callback
//! table whose bounded name field is validated and zero-padded the same way
//! by the compile-time builder and by the runtime builder.

pub mod abi;
pub mod error;
pub mod expand;
pub mod name;
pub mod ops;
pub mod table;

pub use error::SchedExtOpsError;
pub use name::{encode_name, MAX_NAME_LEN, NAME_LEN};
pub use table::{ForeignFn, SchedExtOpsTable, MAX_TIMEOUT_MS};
pub use ops::SchedExtOps;
pub use expand::{expand_name, table_from_literal, TOO_LONG_DIAGNOSTIC};
pub use abi::{
    CgroupInitArgs, CgroupRef, CpuAcquireArgs, CpuMaskRef, CpuReleaseArgs, DumpCtx, ExitInfo,
    ExitKind, ExitTaskArgs, ForeignText, ForeignWords, InitTaskArgs, PreemptReason, TaskRef,
};
