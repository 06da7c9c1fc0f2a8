use vstd::prelude::*;

use crate::error::SchedExtOpsError;
use crate::name::{c_str_len, is_c_len, is_terminated};
use crate::table::{table_spec, SchedExtOpsTable};

verus! {

/// An operations table built at run time, ready for registration.
#[derive(Debug)]
pub struct SchedExtOps {
    inner: SchedExtOpsTable,
}

impl SchedExtOps {
    /// The table this value wraps.
    pub closed spec fn table(&self) -> SchedExtOpsTable {
        self.inner
    }

    /// Builds the table named by the NUL-terminated byte string `name`:
    /// its payload is every byte before the first terminator. Returns
    /// `NameTooLong` with the payload length when the payload does not fit.
    pub fn new(name: &[u8]) -> (r: Result<Self, SchedExtOpsError>)
        requires
            is_terminated(name@),
        ensures
            forall|len: int| is_c_len(name@, len) ==> runtime_spec(name@.take(len), r),
            r matches Ok(ops) ==> ops.table().wf(),
    {
        let len = c_str_len(name);
        let payload = &name[0..len];
        assert(payload@ == name@.take(len as int));
        let r = match SchedExtOpsTable::with_name(payload) {
            Ok(t) => Ok(SchedExtOps { inner: t }),
            Err(e) => Err(e),
        };
        assert forall|l: int| is_c_len(name@, l) implies l == len by {
            if l < len {
                assert(name@.take(len as int)[l] == 0);
            } else if l > len {
                assert(name@.take(l)[len as int] == 0);
            }
        }
        r
    }

    /// The wrapped table.
    pub fn inner(&self) -> (r: &SchedExtOpsTable)
        ensures
            *r == self.table(),
    {
        &self.inner
    }
}

/// What the runtime builder yields for the payload `name`: the blank table
/// named `name` when it fits, otherwise the length error.
pub open spec fn runtime_spec(name: Seq<u8>, r: Result<SchedExtOps, SchedExtOpsError>) -> bool {
    match r {
        Ok(ops) => table_spec(name, Ok(ops.table())),
        Err(e) => table_spec(name, Err(e)),
    }
}

} // verus!
