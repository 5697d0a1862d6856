//! The plugin context and its context-bound conversions.
//!
//! A value cell can stand for an address inside the plugin's memory.
//! Reading it as anything richer than a word needs the host's address
//! translation, which either exposes what is behind the address or reports
//! failure.  Each conversion here takes that reported outcome as a plain
//! value: a failed translation carries no contents at all, so no conversion
//! can read a single byte through it — every one of them answers with the
//! invalid-memory-address condition instead.
//!
//! A mutable scalar reference is derived from a translated cell by reading
//! the cell's storage as the requested scalar.  That reinterpretation is a
//! deliberate aliasing contract: it is sound only because the cell's width
//! equals the scalar's, and it is stated here as the lossless cell
//! reinterpretations of `cell`.

use vstd::prelude::*;
use vstd::string::StringSliceAdditionalSpecFns;
use vstd::utf8::encode_utf8;
use crate::bytestr::contains_nul;
use crate::bytestr::find_nul;
use crate::cell::cell_t;

verus! {

/// A non-owning handle on the foreign plugin context that performs address
/// translation and error signaling for one plugin.
#[derive(Debug, Clone, Copy, PartialEq, Eq, Structural)]
pub struct IPluginContext(pub usize);

/// What the host's address translation reported for a cell read as a cell
/// address: the cell currently behind it, or the failure code.
#[derive(Debug, PartialEq, Eq, Structural)]
pub enum AddrTranslation {
    Valid(cell_t),
    Invalid(i32),
}

/// What the host's address translation reported for a cell read as a
/// string address: the bytes of the C string behind it, or the failure
/// code.
#[derive(Debug, PartialEq, Eq)]
pub enum StringTranslation {
    Valid(Vec<u8>),
    Invalid(i32),
}

/// The one failure of a context-bound conversion: the host could not
/// translate the address.
#[derive(Debug, Clone, Copy, PartialEq, Eq, Structural)]
pub enum ConversionError {
    InvalidMemoryAddress,
}

impl ConversionError {
    /// The condition's description.
    pub fn message(&self) -> (r: &'static str)
        ensures
            r@ == "Invalid memory address"@,
    {
        "Invalid memory address"
    }
}

/// What the raw translation of a cell address yields: the translated cell,
/// or the host's failure code unchanged.
pub open spec fn spec_local_cell(t: AddrTranslation) -> Result<cell_t, i32> {
    match t {
        AddrTranslation::Valid(c) => Ok(c),
        AddrTranslation::Invalid(code) => Err(code),
    }
}

/// What the raw translation of a string address yields: the bytes behind
/// it, or the host's failure code unchanged.
pub open spec fn spec_local_string(t: StringTranslation) -> Result<Vec<u8>, i32> {
    match t {
        StringTranslation::Valid(b) => Ok(b),
        StringTranslation::Invalid(code) => Err(code),
    }
}

/// What an owned-string conversion yields from a translation outcome.
pub open spec fn spec_string_conversion(t: StringTranslation) -> Result<Vec<u8>, ConversionError> {
    match t {
        StringTranslation::Valid(b) => Ok(b),
        StringTranslation::Invalid(_) => Err(ConversionError::InvalidMemoryAddress),
    }
}

/// What a mutable-cell conversion yields from a translation outcome.
pub open spec fn spec_cell_ref_conversion(t: AddrTranslation) -> Result<cell_t, ConversionError> {
    match t {
        AddrTranslation::Valid(c) => Ok(c),
        AddrTranslation::Invalid(_) => Err(ConversionError::InvalidMemoryAddress),
    }
}

/// What a mutable-integer conversion yields: the translated cell's storage
/// read as a signed integer.
pub open spec fn spec_int_ref_conversion(t: AddrTranslation) -> Result<i32, ConversionError> {
    match t {
        AddrTranslation::Valid(c) => Ok(c.spec_int()),
        AddrTranslation::Invalid(_) => Err(ConversionError::InvalidMemoryAddress),
    }
}

/// What a mutable-float conversion yields: the translated cell's storage
/// read as a float's 32-bit pattern.
pub open spec fn spec_float_bits_ref_conversion(t: AddrTranslation) -> Result<
    u32,
    ConversionError,
> {
    match t {
        AddrTranslation::Valid(c) => Ok(c.spec_bits()),
        AddrTranslation::Invalid(_) => Err(ConversionError::InvalidMemoryAddress),
    }
}

/// Reads a translated cell address, keeping the host's failure code.
pub fn local_cell(t: AddrTranslation) -> (r: Result<cell_t, i32>)
    ensures
        r == spec_local_cell(t),
{
    match t {
        AddrTranslation::Valid(c) => Ok(c),
        AddrTranslation::Invalid(code) => Err(code),
    }
}

/// Reads a translated string address, keeping the host's failure code.
pub fn local_string(t: StringTranslation) -> (r: Result<Vec<u8>, i32>)
    ensures
        r == spec_local_string(t),
{
    match t {
        StringTranslation::Valid(b) => Ok(b),
        StringTranslation::Invalid(code) => Err(code),
    }
}

/// Converts a cell into an owned string through its translation outcome.
pub fn string_conversion(t: StringTranslation) -> (r: Result<Vec<u8>, ConversionError>)
    ensures
        r == spec_string_conversion(t),
{
    match t {
        StringTranslation::Valid(b) => Ok(b),
        StringTranslation::Invalid(_) => Err(ConversionError::InvalidMemoryAddress),
    }
}

/// Converts a cell into a mutable cell view through its translation
/// outcome.
pub fn cell_ref_conversion(t: AddrTranslation) -> (r: Result<cell_t, ConversionError>)
    ensures
        r == spec_cell_ref_conversion(t),
{
    match t {
        AddrTranslation::Valid(c) => Ok(c),
        AddrTranslation::Invalid(_) => Err(ConversionError::InvalidMemoryAddress),
    }
}

/// Converts a cell into a mutable signed-integer view: the translated
/// cell's storage, read bit-identically as an integer.
pub fn int_ref_conversion(t: AddrTranslation) -> (r: Result<i32, ConversionError>)
    ensures
        r == spec_int_ref_conversion(t),
{
    match t {
        AddrTranslation::Valid(c) => Ok(c.to_int()),
        AddrTranslation::Invalid(_) => Err(ConversionError::InvalidMemoryAddress),
    }
}

/// Converts a cell into a mutable float view: the translated cell's
/// storage, read bit-identically as a float's bit pattern.
pub fn float_bits_ref_conversion(t: AddrTranslation) -> (r: Result<u32, ConversionError>)
    ensures
        r == spec_float_bits_ref_conversion(t),
{
    match t {
        AddrTranslation::Valid(c) => Ok(c.to_bits()),
        AddrTranslation::Invalid(_) => Err(ConversionError::InvalidMemoryAddress),
    }
}

/// For any address-translation failure, every dependent conversion answers
/// with the invalid-memory-address condition — and since a failed
/// translation carries no contents, none of them reads anything.
pub proof fn lemma_invalid_address_uniform(code: i32)
    ensures
        spec_string_conversion(StringTranslation::Invalid(code)) == Err::<Vec<u8>, ConversionError>(
            ConversionError::InvalidMemoryAddress,
        ),
        spec_cell_ref_conversion(AddrTranslation::Invalid(code)) == Err::<cell_t, ConversionError>(
            ConversionError::InvalidMemoryAddress,
        ),
        spec_int_ref_conversion(AddrTranslation::Invalid(code)) == Err::<i32, ConversionError>(
            ConversionError::InvalidMemoryAddress,
        ),
        spec_float_bits_ref_conversion(AddrTranslation::Invalid(code)) == Err::<
            u32,
            ConversionError,
        >(ConversionError::InvalidMemoryAddress),
{
}

/// The byte run handed to the host's error-signaling slot for the message
/// `msg`: the message plus a terminator, or a fixed note in its place when
/// the message itself holds a terminator and cannot cross as a C string.
pub fn prepare_native_error(msg: &Vec<u8>) -> (r: Vec<u8>)
    ensures
        !contains_nul(msg@) ==> r@ == msg@ + seq![0u8],
        contains_nul(msg@) ==> r@ == encode_utf8(
            "ThrowNativeError message contained NUL byte"@,
        ) + seq![0u8],
{
    match find_nul(msg) {
        None => {
            let n = msg.len();
            let mut out: Vec<u8> = Vec::new();
            let mut i: usize = 0;
            while i < n
                invariant
                    n == msg@.len(),
                    0 <= i <= n,
                    out@ == msg@.take(i as int),
                decreases n - i,
            {
                out.push(msg[i]);
                proof {
                    assert(out@ =~= msg@.take(i + 1 as int));
                }
                i = i + 1;
            }
            out.push(0u8);
            proof {
                assert(out@ =~= msg@ + seq![0u8]);
            }
            out
        },
        Some(_) => {
            let fallback = "ThrowNativeError message contained NUL byte";
            let fallback_bytes: &[u8] = fallback.as_bytes();
            let mut out: Vec<u8> = vstd::slice::slice_to_vec(fallback_bytes);
            out.push(0u8);
            proof {
                assert(out@ =~= encode_utf8(fallback@) + seq![0u8]);
            }
            out
        },
    }
}

} // verus!
