//! Sizes of a directory tree that holds hard links.
//!
//! A scan yields two totals: one that counts every file it could read at
//! its full size, and one that leaves out every file whose data is shared
//! with another directory entry. The filesystem is read by the caller; this
//! crate takes what was found as plain values, decides what counts, and adds
//! it up, in parallel, with the same result for every split of the work.
//!
//! - `metadata`: what is known of one entry, and which entries count.
//! - `totals`: the two totals, as sums and as 64-bit numbers.
//! - `aggregate`: adding up on many threads.
//! - `scan`: a whole scan, from the root to the totals.
//! - `laws`: what holds of the totals for every tree.
//! - `config`: which folder to scan.
//! - `display`: the unit in which a size is shown.
//!
//! Totals are 64-bit numbers, so a scan can report up to `u64::MAX` bytes,
//! about 16 EiB. Every operation on totals notices when that ceiling would
//! be passed.

pub mod aggregate;
pub mod config;
pub mod display;
pub mod laws;
pub mod metadata;
pub mod scan;
pub mod totals;
