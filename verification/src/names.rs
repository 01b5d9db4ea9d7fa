//! Call identifiers: a module name and a call name, each a bounded byte string.

use vstd::prelude::*;
use vstd::slice::slice_to_vec;
use vstd::string::StringSliceAdditionalSpecFns;

verus! {

/// The name of a module, as bytes.
pub type PalletName = Vec<u8>;

/// The name of a call inside its module, as bytes.
pub type PalletCallName = Vec<u8>;

/// A call identifier: the module's name, then the call's name.
pub type RuntimeCallName = (PalletName, PalletCallName);

/// A call identifier as a mathematical value. Two identifiers are equal
/// exactly when both components are equal byte for byte.
pub type CallId = (Seq<u8>, Seq<u8>);

/// Where a dispatched call comes from: the names of its module and of its
/// function, as text.
#[derive(Clone, Copy, Debug, PartialEq, Eq)]
pub struct CallMetadata {
    /// Name of the function.
    pub function_name: &'static str,
    /// Name of the module.
    pub pallet_name: &'static str,
}

/// A single name respects the bound `max`.
pub open spec fn name_fits(name: Seq<u8>, max: u32) -> bool {
    name.len() <= max
}

/// Both components of an identifier respect the bound `max`.
pub open spec fn id_fits(id: CallId, max: u32) -> bool {
    name_fits(id.0, max) && name_fits(id.1, max)
}

/// The identifier that a call's metadata stands for: the UTF-8 bytes of the
/// module name and of the function name.
pub open spec fn metadata_id(call: CallMetadata) -> CallId {
    (call.pallet_name.spec_bytes(), call.function_name.spec_bytes())
}

/// The bounded identifier of a call, where it has one: encoding fails as soon
/// as one of the two names is longer than `max`.
pub open spec fn encoded(call: CallMetadata, max: u32) -> Option<CallId> {
    if id_fits(metadata_id(call), max) {
        Some(metadata_id(call))
    } else {
        None
    }
}

/// Tells whether `name` is at most `max` bytes long.
pub fn check_name(name: &[u8], max: u32) -> (ok: bool)
    ensures
        ok == name_fits(name@, max),
{
    name.len() <= max as usize
}

/// Tells whether both components of `full_name` are at most `max` bytes long.
pub fn check_call_name(full_name: &RuntimeCallName, max: u32) -> (ok: bool)
    ensures
        ok == id_fits(full_name@, max),
{
    check_name(full_name.0.as_slice(), max) && check_name(full_name.1.as_slice(), max)
}

/// Byte-wise equality of two names.
pub fn same_name(a: &[u8], b: &[u8]) -> (same: bool)
    ensures
        same == (a@ == b@),
{
    if a.len() != b.len() {
        return false;
    }
    let mut i: usize = 0;
    while i < a.len()
        invariant
            a@.len() == b@.len(),
            i <= a@.len(),
            a@.subrange(0, i as int) == b@.subrange(0, i as int),
        decreases a@.len() - i,
    {
        if a[i] != b[i] {
            assert(a@.subrange(0, i + 1)[i as int] != b@.subrange(0, i + 1)[i as int]);
            return false;
        }
        assert(a@.subrange(0, i + 1) == a@.subrange(0, i as int).push(a@[i as int]));
        assert(b@.subrange(0, i + 1) == b@.subrange(0, i as int).push(b@[i as int]));
        i += 1;
    }
    assert(a@ == a@.subrange(0, i as int));
    assert(b@ == b@.subrange(0, i as int));
    true
}

/// Equality of two call identifiers: both components byte for byte.
pub fn same_call_name(a: &RuntimeCallName, b: &RuntimeCallName) -> (same: bool)
    ensures
        same == (a@ == b@),
{
    same_name(a.0.as_slice(), b.0.as_slice()) && same_name(a.1.as_slice(), b.1.as_slice())
}

/// Encodes a call's names into a bounded identifier. Gives `None` where one
/// of the names is longer than `max` bytes: nothing is ever cut short.
pub fn encode_call(call: &CallMetadata, max: u32) -> (id: Option<RuntimeCallName>)
    ensures
        id is Some == encoded(*call, max) is Some,
        id matches Some(name) ==> Some(name@) == encoded(*call, max),
{
    let pallet = call.pallet_name.as_bytes();
    let function = call.function_name.as_bytes();
    if check_name(pallet, max) && check_name(function, max) {
        Some((slice_to_vec(pallet), slice_to_vec(function)))
    } else {
        None
    }
}

} // verus!
