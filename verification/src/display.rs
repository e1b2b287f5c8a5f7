//! Choosing the unit in which a size is shown.
//!
//! A size is shown in the largest unit that it fills at least once, so that
//! the number in front of the unit is never below one, and never reaches
//! 1024 except in the largest unit.

use vstd::prelude::*;

verus! {

/// Bytes in a kilobyte.
pub const KB: u64 = 1024;

/// Bytes in a megabyte.
pub const MB: u64 = 1024 * 1024;

/// Bytes in a gigabyte.
pub const GB: u64 = 1024 * 1024 * 1024;

/// A unit for showing sizes, each 1024 times the one before.
#[derive(Clone, Copy, Debug, PartialEq, Eq, Structural)]
pub enum SizeUnit {
    Bytes,
    Kilobytes,
    Megabytes,
    Gigabytes,
}

impl SizeUnit {
    /// How many bytes make one of this unit.
    pub open spec fn spec_divisor(self) -> u64 {
        match self {
            SizeUnit::Bytes => 1,
            SizeUnit::Kilobytes => KB,
            SizeUnit::Megabytes => MB,
            SizeUnit::Gigabytes => GB,
        }
    }

    /// How many bytes make one of this unit.
    #[verifier::when_used_as_spec(spec_divisor)]
    pub fn divisor(self) -> (bytes: u64)
        ensures
            bytes == self.spec_divisor(),
            bytes > 0,
    {
        match self {
            SizeUnit::Bytes => 1,
            SizeUnit::Kilobytes => KB,
            SizeUnit::Megabytes => MB,
            SizeUnit::Gigabytes => GB,
        }
    }

    /// The letter that is written behind a number in this unit.
    pub open spec fn spec_suffix(self) -> char {
        match self {
            SizeUnit::Bytes => 'B',
            SizeUnit::Kilobytes => 'K',
            SizeUnit::Megabytes => 'M',
            SizeUnit::Gigabytes => 'G',
        }
    }

    /// The letter that is written behind a number in this unit.
    #[verifier::when_used_as_spec(spec_suffix)]
    pub fn suffix(self) -> (letter: char)
        ensures
            letter == self.spec_suffix(),
    {
        match self {
            SizeUnit::Bytes => 'B',
            SizeUnit::Kilobytes => 'K',
            SizeUnit::Megabytes => 'M',
            SizeUnit::Gigabytes => 'G',
        }
    }

    /// The unit in which `size` is shown: gigabytes from 1024³ bytes on,
    /// megabytes from 1024² on, kilobytes from 1024 on, bytes below that.
    pub open spec fn spec_for_size(size: u64) -> SizeUnit {
        if size >= GB {
            SizeUnit::Gigabytes
        } else if size >= MB {
            SizeUnit::Megabytes
        } else if size >= KB {
            SizeUnit::Kilobytes
        } else {
            SizeUnit::Bytes
        }
    }

    /// Picks the unit in which `size` is shown.
    ///
    /// It is the largest unit that `size` fills at least once, and bytes for
    /// a size below 1024. In every unit but the largest the size comes to
    /// less than 1024 of it.
    #[verifier::when_used_as_spec(spec_for_size)]
    pub fn for_size(size: u64) -> (unit: SizeUnit)
        ensures
            unit == Self::spec_for_size(size),
            unit is Bytes || unit.divisor() <= size,
            unit is Gigabytes || size < 1024 * unit.divisor(),
    {
        if size >= GB {
            SizeUnit::Gigabytes
        } else if size >= MB {
            SizeUnit::Megabytes
        } else if size >= KB {
            SizeUnit::Kilobytes
        } else {
            SizeUnit::Bytes
        }
    }
}

} // verus!
