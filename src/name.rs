use vstd::prelude::*;

use crate::error::SchedExtOpsError;

verus! {

/// Size in bytes of the name field of the operations table.
pub const NAME_LEN: usize = 128;

/// Longest payload the name field takes: one byte is kept for the terminator.
pub const MAX_NAME_LEN: usize = 127;

/// The byte sequence holds no terminator byte.
pub open spec fn has_no_nul(name: Seq<u8>) -> bool {
    forall|i: int| 0 <= i < name.len() ==> name[i] != 0
}

/// The first terminator byte of `s` sits at `len`: `s` starts with a C
/// string whose payload is `len` bytes long.
pub open spec fn is_c_len(s: Seq<u8>, len: int) -> bool {
    &&& 0 <= len < s.len()
    &&& s[len] == 0
    &&& has_no_nul(s.take(len))
}

/// `s` holds a terminator byte somewhere.
pub open spec fn is_terminated(s: Seq<u8>) -> bool {
    exists|i: int| 0 <= i < s.len() && s[i] == 0
}

/// Measures the payload of a NUL-terminated byte string: the number of
/// bytes before its first terminator.
pub fn c_str_len(s: &[u8]) -> (r: usize)
    requires
        is_terminated(s@),
    ensures
        is_c_len(s@, r as int),
{
    let mut i: usize = 0;
    while s[i] != 0
        invariant
            is_terminated(s@),
            i < s@.len(),
            forall|j: int| 0 <= j < i ==> s@[j] != 0,
        decreases s@.len() - i,
    {
        i = i + 1;
    }
    i
}

/// The name field that holds `name`: its bytes first, then zeros up to the
/// end of the field.
pub open spec fn encoded(name: Seq<u8>) -> Seq<u8> {
    Seq::new(NAME_LEN as nat, |i: int| if i < name.len() { name[i] } else { 0u8 })
}

/// What encoding `name` yields: the padded field when the payload fits,
/// otherwise the length error.
pub open spec fn encode_spec(name: Seq<u8>, r: Result<[u8; NAME_LEN], SchedExtOpsError>) -> bool {
    if name.len() <= MAX_NAME_LEN {
        r matches Ok(buf) && buf@ == encoded(name)
    } else {
        r == Err::<[u8; NAME_LEN], SchedExtOpsError>(SchedExtOpsError::NameTooLong(name.len() as usize))
    }
}

/// Encodes a name into the fixed-size, zero-padded name field, or refuses
/// a name whose payload does not fit next to its terminator.
pub fn encode_name(name: &[u8]) -> (r: Result<[u8; NAME_LEN], SchedExtOpsError>)
    requires
        has_no_nul(name@),
    ensures
        encode_spec(name@, r),
{
    let len = name.len();
    if len > MAX_NAME_LEN {
        return Err(SchedExtOpsError::NameTooLong(len));
    }
    let mut buf: [u8; NAME_LEN] = [0u8; NAME_LEN];
    let mut i: usize = 0;
    while i < len
        invariant
            len == name@.len(),
            len <= MAX_NAME_LEN,
            i <= len,
            buf@.len() == NAME_LEN,
            forall|j: int| 0 <= j < i ==> buf@[j] == name@[j],
            forall|j: int| i <= j < NAME_LEN ==> buf@[j] == 0,
        decreases len - i,
    {
        buf[i] = name[i];
        i = i + 1;
    }
    assert(buf@ =~= encoded(name@));
    Ok(buf)
}

/// A name that fits is stored as a C string: its bytes come first and are
/// all non-zero, the terminator sits right after them, and every byte from
/// the terminator to the end of the field is zero.
pub proof fn lemma_encoded_layout(name: Seq<u8>, r: Result<[u8; NAME_LEN], SchedExtOpsError>)
    requires
        has_no_nul(name),
        name.len() <= MAX_NAME_LEN,
        encode_spec(name, r),
    ensures
        r matches Ok(buf) && {
            &&& buf@.len() == NAME_LEN
            &&& forall|i: int| 0 <= i < name.len() ==> buf@[i] == name[i] && buf@[i] != 0
            &&& buf@[name.len() as int] == 0
            &&& forall|i: int| name.len() < i < NAME_LEN ==> buf@[i] == 0
        },
{
}

/// Encoding is deterministic: two encodings of the same name are the same
/// result, down to every byte of the field.
pub proof fn lemma_encode_idempotent(
    name: Seq<u8>,
    a: Result<[u8; NAME_LEN], SchedExtOpsError>,
    b: Result<[u8; NAME_LEN], SchedExtOpsError>,
)
    requires
        encode_spec(name, a),
        encode_spec(name, b),
    ensures
        a == b,
{
    if name.len() <= MAX_NAME_LEN {
        let (x, y) = (a->Ok_0, b->Ok_0);
        assert(x =~= y);
    }
}

} // verus!
