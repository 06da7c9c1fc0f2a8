use vstd::prelude::*;

use crate::name::{has_no_nul, MAX_NAME_LEN};
use crate::ops::{runtime_spec, SchedExtOps};
use crate::table::SchedExtOpsTable;
use crate::error::SchedExtOpsError;

verus! {

/// syn's C-string literal, carried through opaquely.
#[verifier::external_type_specification]
#[verifier::external_body]
pub struct ExLitCStr(syn::LitCStr);

/// syn's compile error, carried through opaquely.
#[verifier::external_type_specification]
#[verifier::external_body]
pub struct ExSynError(syn::Error);

/// Diagnostic of the compile-time builder for a name that does not fit.
pub const TOO_LONG_DIAGNOSTIC: &'static str = "name is too long, the limit is 127";

/// The payload of a C-string literal: the bytes of its value, without the
/// terminator.
pub uninterp spec fn literal_bytes(lit: syn::LitCStr) -> Seq<u8>;

/// Relies on syn's `LitCStr::value`: the literal's value as a `CString`,
/// which depends on the literal alone and whose bytes, taken without the
/// terminator, hold no terminator byte.
#[verifier::external_body]
fn literal_payload(lit: &syn::LitCStr) -> (r: Vec<u8>)
    ensures
        r@ == literal_bytes(*lit),
        has_no_nul(r@),
{
    lit.value().into_bytes()
}

/// Relies on syn's `Error::new_spanned`: a compile error carrying `message`
/// and located at the tokens of the literal.
#[verifier::external_body]
fn error_at(lit: &syn::LitCStr, message: &str) -> syn::Error {
    syn::Error::new_spanned(lit, message)
}

/// What the compile-time builder yields for the payload `name`: the blank
/// table named `name` when it fits, otherwise the length diagnostic.
pub open spec fn expand_spec(name: Seq<u8>, r: Result<SchedExtOpsTable, &'static str>) -> bool {
    if name.len() <= MAX_NAME_LEN {
        r matches Ok(t) && t.is_blank_for(name)
    } else {
        r == Err::<SchedExtOpsTable, &'static str>(TOO_LONG_DIAGNOSTIC)
    }
}

/// Builds the table for the payload of a name literal, or the diagnostic
/// that stops the build when the payload does not fit.
pub fn expand_name(name: &[u8]) -> (r: Result<SchedExtOpsTable, &'static str>)
    requires
        has_no_nul(name@),
    ensures
        expand_spec(name@, r),
        r matches Ok(t) ==> t.wf(),
{
    match SchedExtOpsTable::with_name(name) {
        Ok(t) => Ok(t),
        Err(_) => Err(TOO_LONG_DIAGNOSTIC),
    }
}

/// Builds the table named by a C-string literal of the caller's source, or
/// a compile error located at the literal when its payload does not fit.
pub fn table_from_literal(lit: &syn::LitCStr) -> (r: Result<SchedExtOpsTable, syn::Error>)
    ensures
        literal_bytes(*lit).len() <= MAX_NAME_LEN ==> (r matches Ok(t) && t.is_blank_for(
            literal_bytes(*lit),
        )),
        literal_bytes(*lit).len() > MAX_NAME_LEN ==> r is Err,
        r matches Ok(t) ==> t.wf(),
{
    let payload = literal_payload(lit);
    match expand_name(payload.as_slice()) {
        Ok(t) => Ok(t),
        Err(message) => Err(error_at(lit, message)),
    }
}

/// The compile-time and the runtime builder agree: for a name that fits,
/// both succeed, their name fields are the same bytes, and both leave every
/// callback unset and every scalar zero. For a name that does not fit, both
/// refuse it.
pub proof fn lemma_builders_agree(
    name: Seq<u8>,
    c: Result<SchedExtOpsTable, &'static str>,
    rt: Result<SchedExtOps, SchedExtOpsError>,
)
    requires
        has_no_nul(name),
        expand_spec(name, c),
        runtime_spec(name, rt),
    ensures
        name.len() <= MAX_NAME_LEN ==> {
            &&& c is Ok
            &&& rt is Ok
            &&& c->Ok_0.name@ == rt->Ok_0.table().name@
            &&& c->Ok_0.callbacks_unset() && rt->Ok_0.table().callbacks_unset()
            &&& c->Ok_0.scalars_zero() && rt->Ok_0.table().scalars_zero()
        },
        name.len() > MAX_NAME_LEN ==> c is Err && rt is Err,
{
}

} // verus!
