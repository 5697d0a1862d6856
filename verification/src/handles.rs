//! Typed, non-owning handles over foreign objects, and the decision rules
//! of their fallible operations.
//!
//! A handle carries exactly the address of one foreign object and never
//! owns it.  The indirect calls through the object's table happen outside
//! this crate; what stands here is every decision those operations make on
//! the values that come back: decoding a foreign byte string, reading a
//! bounded error buffer, and encoding a name for an interface request.

use vstd::prelude::*;
use vstd::utf8::decode_utf8;
use vstd::utf8::valid_utf8;
use crate::bytestr::c_prefix;
use crate::bytestr::c_prefix_of;
use crate::bytestr::contains_nul;
use crate::bytestr::encode_c_name;
use crate::bytestr::nul_pos;

verus! {

/// A host identity-type tag, carried opaquely.
#[derive(Debug, Clone, Copy, PartialEq, Eq, Structural)]
pub struct IdentityType(pub u32);

/// A host feature-kind tag, carried opaquely.
#[derive(Debug, Clone, Copy, PartialEq, Eq, Structural)]
pub struct FeatureType(pub u8);

/// A host feature-status answer, carried opaquely.
#[derive(Debug, Clone, Copy, PartialEq, Eq, Structural)]
pub struct FeatureStatus(pub u8);

/// The address of a foreign identity token; never owned here.
#[derive(Debug, Clone, Copy, PartialEq, Eq, Structural)]
pub struct IdentityToken(pub usize);

/// A non-owning handle on a foreign extension object.
#[derive(Debug, Clone, Copy, PartialEq, Eq, Structural)]
pub struct IExtension(pub usize);

/// A non-owning handle on a foreign interface object.
#[derive(Debug, Clone, Copy, PartialEq, Eq, Structural)]
pub struct SMInterface(pub usize);

/// A non-owning handle on the host's sharing system.
#[derive(Debug, Clone, Copy, PartialEq, Eq, Structural)]
pub struct IShareSys(pub usize);

/// A foreign byte string that was not valid text.
#[derive(Debug, Clone, Copy, PartialEq, Eq, Structural)]
pub struct Utf8DecodeError;

/// Why a running-state query reported failure: a decoded reason, or a
/// reason whose bytes were not valid text.
#[derive(Debug, PartialEq, Eq)]
pub enum IsRunningError {
    WithReason(String),
    InvalidReason,
}

/// Why an interface request failed: the requested name could not be
/// encoded (it holds an embedded terminator, at the reported position), or
/// the host found nothing compatible.  The two causes are distinct so a
/// caller can branch on them.
#[derive(Debug, PartialEq, Eq)]
pub enum RequestInterfaceError {
    StringError(usize),
    InterfaceError,
}

/// Decodes a foreign byte string (a filename, an interface name) as text.
/// Invalid bytes surface as a distinct decode failure, never silently.
pub fn decode_foreign_text(bytes: &Vec<u8>) -> (r: Result<String, Utf8DecodeError>)
    ensures
        r is Ok <==> valid_utf8(bytes@),
        r matches Ok(s) ==> s@ == decode_utf8(bytes@),
{
    match utf8_to_str(bytes) {
        Some(s) => Ok(s.to_owned()),
        None => Err(Utf8DecodeError),
    }
}

/// Reads a running-state reply: the flag the foreign call returned and the
/// bounded reason buffer it may have filled.  Success stands as is; failure
/// carries the decoded reason, or a distinct decode failure when the buffer
/// holds no terminator or its prefix is not valid text.
pub fn running_state(ok: bool, error_buf: &Vec<u8>) -> (r: Result<(), IsRunningError>)
    ensures
        ok ==> r is Ok,
        !ok ==> r is Err,
        !ok && contains_nul(error_buf@) && valid_utf8(c_prefix_of(error_buf@)) ==> (r
            matches Err(IsRunningError::WithReason(s)) && s@ == decode_utf8(
            c_prefix_of(error_buf@),
        )),
        !ok && !(contains_nul(error_buf@) && valid_utf8(c_prefix_of(error_buf@))) ==> r == Err::<
            (),
            IsRunningError,
        >(IsRunningError::InvalidReason),
{
    if ok {
        return Ok(());
    }
    match c_prefix(error_buf) {
        Some(reason) => match utf8_to_str(&reason) {
            Some(s) => Err(IsRunningError::WithReason(s.to_owned())),
            None => Err(IsRunningError::InvalidReason),
        },
        None => Err(IsRunningError::InvalidReason),
    }
}

/// Encodes the name of an interface request for the foreign call.  A name
/// with an embedded terminator is refused as a distinct encoding failure.
pub fn prepare_request_name(name: &Vec<u8>) -> (r: Result<Vec<u8>, RequestInterfaceError>)
    ensures
        r matches Ok(e) ==> !contains_nul(name@) && e@ == name@ + seq![0u8],
        r matches Err(x) ==> contains_nul(name@) && x == RequestInterfaceError::StringError(
            nul_pos(name@) as usize,
        ),
{
    match encode_c_name(name) {
        Ok(e) => Ok(e),
        Err(p) => Err(RequestInterfaceError::StringError(p)),
    }
}

/// Reads the result of an interface request: the flag the foreign call
/// returned and the interface address it wrote.  A found interface becomes
/// a typed handle; anything else is the distinct lookup failure.
pub fn request_interface_result(found: bool, iface: usize) -> (r: Result<
    SMInterface,
    RequestInterfaceError,
>)
    ensures
        found ==> r == Ok::<SMInterface, RequestInterfaceError>(SMInterface(iface)),
        !found ==> r == Err::<SMInterface, RequestInterfaceError>(
            RequestInterfaceError::InterfaceError,
        ),
{
    if found {
        Ok(SMInterface(iface))
    } else {
        Err(RequestInterfaceError::InterfaceError)
    }
}

/// Relies on str::from_utf8: it succeeds exactly on valid UTF-8, and then
/// views the given bytes as text, a function of the bytes alone.
#[verifier::external_body]
fn utf8_to_str(bytes: &Vec<u8>) -> (r: Option<&str>)
    ensures
        r is Some <==> valid_utf8(bytes@),
        r matches Some(s) ==> s@ == decode_utf8(bytes@),
{
    core::str::from_utf8(bytes.as_slice()).ok()
}

} // verus!
