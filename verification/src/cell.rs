//! The host's tagged machine word and its lossless reinterpretations.
//!
//! A cell is a fixed-width 32-bit word.  It reads bit-identically as a
//! signed integer or as the bit pattern of a 32-bit float; both directions
//! are total and lossless.  Conversions to addresses or strings are partial
//! and live in `context`, since they need a live plugin context.

use vstd::prelude::*;

verus! {

/// One tagged 32-bit value of the host's calling convention.
///
/// Equality and ordering are those of the raw word.
#[allow(non_camel_case_types)]
#[derive(Debug, Clone, Copy, PartialEq, Eq, PartialOrd, Ord, Structural)]
pub struct cell_t {
    raw: i32,
}

impl cell_t {
    /// The cell's word read as a signed integer.
    pub closed spec fn spec_int(self) -> i32 {
        self.raw
    }

    /// The cell's raw 32-bit pattern, as carried by a float of the same bits.
    pub open spec fn spec_bits(self) -> u32 {
        self.spec_int() as u32
    }

    /// The cell holding the signed integer `x`.
    pub closed spec fn spec_from_int(x: i32) -> cell_t {
        cell_t { raw: x }
    }

    /// The cell holding the 32-bit pattern `b`.
    pub closed spec fn spec_from_bits(b: u32) -> cell_t {
        cell_t { raw: b as i32 }
    }

    /// Reinterprets a signed integer as a cell.
    pub fn from_int(x: i32) -> (c: cell_t)
        ensures
            c == cell_t::spec_from_int(x),
            c.spec_int() == x,
    {
        cell_t { raw: x }
    }

    /// Reads the cell back as a signed integer.
    pub fn to_int(self) -> (x: i32)
        ensures
            x == self.spec_int(),
    {
        self.raw
    }

    /// Reinterprets a raw 32-bit pattern (for instance a float's bits) as a cell.
    pub fn from_bits(b: u32) -> (c: cell_t)
        ensures
            c == cell_t::spec_from_bits(b),
            c.spec_bits() == b,
    {
        proof {
            lemma_bits_of_cell_of_bits(b);
        }
        cell_t { raw: b as i32 }
    }

    /// Reads the cell back as a raw 32-bit pattern.
    pub fn to_bits(self) -> (b: u32)
        ensures
            b == self.spec_bits(),
    {
        self.raw as u32
    }
}

impl From<i32> for cell_t {
    fn from(x: i32) -> (c: cell_t) {
        cell_t::from_int(x)
    }
}

impl vstd::std_specs::convert::FromSpecImpl<i32> for cell_t {
    open spec fn obeys_from_spec() -> bool {
        true
    }

    open spec fn from_spec(x: i32) -> cell_t {
        cell_t::spec_from_int(x)
    }
}

impl From<cell_t> for i32 {
    fn from(c: cell_t) -> (x: i32) {
        c.to_int()
    }
}

impl vstd::std_specs::convert::FromSpecImpl<cell_t> for i32 {
    open spec fn obeys_from_spec() -> bool {
        true
    }

    open spec fn from_spec(c: cell_t) -> i32 {
        c.spec_int()
    }
}

/// Round trip: a cell built from a signed integer reads back as that integer.
pub proof fn lemma_int_of_cell_of_int(x: i32)
    ensures
        cell_t::spec_from_int(x).spec_int() == x,
{
}

/// Round trip: reading a cell as a signed integer and rebuilding loses nothing.
pub proof fn lemma_cell_of_int_of_cell(c: cell_t)
    ensures
        cell_t::spec_from_int(c.spec_int()) == c,
{
}

/// Round trip: a cell built from a 32-bit pattern reads back as that pattern.
pub proof fn lemma_bits_of_cell_of_bits(b: u32)
    ensures
        cell_t::spec_from_bits(b).spec_bits() == b,
{
    assert((b as i32) as u32 == b) by (bit_vector);
}

/// Round trip: reading a cell as a 32-bit pattern and rebuilding loses nothing.
pub proof fn lemma_cell_of_bits_of_cell(c: cell_t)
    ensures
        cell_t::spec_from_bits(c.spec_bits()) == c,
{
    let r = c.spec_int();
    assert((r as u32) as i32 == r) by (bit_vector);
}

} // verus!
