//! Reading of sector files: the line-oriented text that describes airspace,
//! navaids, procedures and display geometry, turned into typed records.
//!
//! A file is read in one pass, line by line. Each line either adds what it
//! says to what has been read or is noted as unusable, with its number and
//! the reason; no line stops the reading. The readers in
//! [`loaders::euroscope::reader`] and [`loaders::ese::reader`] take the lines
//! of a file; the methods that they hand the lines to can be called one by
//! one as well.
//!
//! Numbers that the files write as decimals are held as whole numbers of
//! billionths: a coordinate is a number of billionths of a degree. What is
//! read is said, for every function, over plain sequences of characters and
//! records of such: see the `deep_view` of each type.
pub mod keyed;
pub mod loaders;
pub mod number;
pub mod package;
pub mod text;
