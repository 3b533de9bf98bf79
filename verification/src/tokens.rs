//! The closed option sets the external tool recognises: ROM target sizes,
//! compression formats, and the two bit-flag sets used when importing or
//! exporting multiple levels.

use vstd::prelude::*;
use vstd::string::StringExecFns;

verus! {

/// Contains all valid ROM sizes that can be used with
/// [`crate::Wrapper::expand_rom`].
#[allow(non_camel_case_types)]
#[derive(Debug, Clone, Copy, PartialEq, Eq, Structural)]
pub enum RomSize {
    _2mb,
    _3mb,
    _4mb,
    _6mbSa1,
    _8mbSa1,
}

/// The exact token the external tool expects for each ROM size.
pub open spec fn rom_size_token(size: RomSize) -> Seq<char> {
    match size {
        RomSize::_2mb => "2MB"@,
        RomSize::_3mb => "3MB"@,
        RomSize::_4mb => "4MB"@,
        RomSize::_6mbSa1 => "6MB_SA1"@,
        RomSize::_8mbSa1 => "8MB_SA1"@,
    }
}

impl RomSize {
    /// Renders the size as the token the external tool expects.
    pub fn to_string(&self) -> (r: String)
        ensures
            r@ == rom_size_token(*self),
    {
        match self {
            RomSize::_2mb => String::from_str("2MB"),
            RomSize::_3mb => String::from_str("3MB"),
            RomSize::_4mb => String::from_str("4MB"),
            RomSize::_6mbSa1 => String::from_str("6MB_SA1"),
            RomSize::_8mbSa1 => String::from_str("8MB_SA1"),
        }
    }
}

/// Contains all valid ROM compression formats that can be used with
/// [`crate::Wrapper::change_compression`].
#[derive(Debug, Clone, Copy, PartialEq, Eq, Structural)]
pub enum CompressionFormat {
    LcLz2Orig,
    LcLz2Speed,
    LcLz3,
}

/// The exact token the external tool expects for each compression format.
pub open spec fn compression_token(format: CompressionFormat) -> Seq<char> {
    match format {
        CompressionFormat::LcLz2Orig => "LC_LZ2_Orig"@,
        CompressionFormat::LcLz2Speed => "LC_LZ2_Speed"@,
        CompressionFormat::LcLz3 => "LC_LZ3"@,
    }
}

impl CompressionFormat {
    /// Renders the format as the token the external tool expects.
    pub fn to_string(&self) -> (r: String)
        ensures
            r@ == compression_token(*self),
    {
        match self {
            CompressionFormat::LcLz2Orig => String::from_str("LC_LZ2_Orig"),
            CompressionFormat::LcLz2Speed => String::from_str("LC_LZ2_Speed"),
            CompressionFormat::LcLz3 => String::from_str("LC_LZ3"),
        }
    }
}

/// Flags available when importing multiple levels into the ROM using
/// [`crate::Wrapper::import_mult_levels`]. Flags combine by bitwise OR of
/// their values; the combined value is what the external tool receives.
#[derive(Debug, Clone, Copy, PartialEq, Eq, Structural)]
pub struct LevelImportFlag {
    pub bits: u32,
}

impl LevelImportFlag {
    /// No flags set.
    pub fn empty() -> (r: Self)
        ensures
            r.bits == 0,
    {
        LevelImportFlag { bits: 0 }
    }

    /// Clear secondary exits while importing.
    pub fn clear_secondary_exits() -> (r: Self)
        ensures
            r.bits == 1,
    {
        LevelImportFlag { bits: 1 }
    }

    /// Combines two flag values by bitwise OR.
    pub fn union(self, other: Self) -> (r: Self)
        ensures
            r.bits == self.bits | other.bits,
    {
        LevelImportFlag { bits: self.bits | other.bits }
    }
}

/// Flags available when exporting multiple levels from the ROM using
/// [`crate::Wrapper::export_mult_levels`]. Flags combine by bitwise OR of
/// their values; the combined value is what the external tool receives.
#[derive(Debug, Clone, Copy, PartialEq, Eq, Structural)]
pub struct LevelExportFlag {
    pub bits: u32,
}

impl LevelExportFlag {
    /// No flags set.
    pub fn empty() -> (r: Self)
        ensures
            r.bits == 0,
    {
        LevelExportFlag { bits: 0 }
    }

    /// Export only levels modified relative to the original game.
    pub fn only_modified_levels() -> (r: Self)
        ensures
            r.bits == 1,
    {
        LevelExportFlag { bits: 1 }
    }

    /// Combines two flag values by bitwise OR.
    pub fn union(self, other: Self) -> (r: Self)
        ensures
            r.bits == self.bits | other.bits,
    {
        LevelExportFlag { bits: self.bits | other.bits }
    }
}

/// Flag combination within the level-import set is commutative, associative
/// and idempotent: combining a flag with itself yields the same value as
/// specifying it once, and combining distinct flags yields the OR of their
/// values in either order.
pub proof fn lemma_level_import_flag_union_laws(a: LevelImportFlag, b: LevelImportFlag, c: LevelImportFlag)
    ensures
        a.bits | b.bits == b.bits | a.bits,
        (a.bits | b.bits) | c.bits == a.bits | (b.bits | c.bits),
        a.bits | a.bits == a.bits,
{
    let x = a.bits;
    let y = b.bits;
    let z = c.bits;
    assert(x | y == y | x) by (bit_vector);
    assert((x | y) | z == x | (y | z)) by (bit_vector);
    assert(x | x == x) by (bit_vector);
}

/// Flag combination within the level-export set is commutative, associative
/// and idempotent: combining a flag with itself yields the same value as
/// specifying it once, and combining distinct flags yields the OR of their
/// values in either order.
pub proof fn lemma_level_export_flag_union_laws(a: LevelExportFlag, b: LevelExportFlag, c: LevelExportFlag)
    ensures
        a.bits | b.bits == b.bits | a.bits,
        (a.bits | b.bits) | c.bits == a.bits | (b.bits | c.bits),
        a.bits | a.bits == a.bits,
{
    let x = a.bits;
    let y = b.bits;
    let z = c.bits;
    assert(x | y == y | x) by (bit_vector);
    assert((x | y) | z == x | (y | z)) by (bit_vector);
    assert(x | x == x) by (bit_vector);
}

} // verus!
