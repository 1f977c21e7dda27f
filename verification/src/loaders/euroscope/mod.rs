//! The sector file proper: its records, and the reader that fills them.
use vstd::prelude::*;

pub mod asr;
pub mod colour;
pub mod error;
pub mod line;
pub mod loader;
pub mod partial;
pub mod position;
pub mod reader;
pub mod sector;
pub mod symbology;
pub mod waypoint;

use crate::text::chars;
use error::Error;

verus! {

pub type SectorResult<T> = Result<T, Error>;

/// The class of an airspace, `A` the most restrictive.
#[derive(Debug, Clone, Copy, PartialEq, Eq, PartialOrd, Ord, Structural)]
pub enum AirspaceClass {
    A,
    B,
    C,
    D,
    E,
    F,
    G,
}

impl AirspaceClass {
    /// The class that the one capital letter `s` names.
    pub open spec fn named(s: Seq<char>) -> Option<AirspaceClass> {
        if s.len() != 1 {
            None
        } else if s[0] == 'A' {
            Some(AirspaceClass::A)
        } else if s[0] == 'B' {
            Some(AirspaceClass::B)
        } else if s[0] == 'C' {
            Some(AirspaceClass::C)
        } else if s[0] == 'D' {
            Some(AirspaceClass::D)
        } else if s[0] == 'E' {
            Some(AirspaceClass::E)
        } else if s[0] == 'F' {
            Some(AirspaceClass::F)
        } else if s[0] == 'G' {
            Some(AirspaceClass::G)
        } else {
            None
        }
    }

    /// Reads the class from its letter.
    pub fn from_chars(s: &[char]) -> (r: SectorResult<AirspaceClass>)
        ensures
            match Self::named(s@) {
                Some(class) => r == Ok::<AirspaceClass, Error>(class),
                None => r == Err::<AirspaceClass, Error>(Error::InvalidAirspaceClass),
            },
    {
        if s.len() != 1 {
            return Err(Error::InvalidAirspaceClass);
        }
        let c = s[0];
        if c == 'A' {
            Ok(AirspaceClass::A)
        } else if c == 'B' {
            Ok(AirspaceClass::B)
        } else if c == 'C' {
            Ok(AirspaceClass::C)
        } else if c == 'D' {
            Ok(AirspaceClass::D)
        } else if c == 'E' {
            Ok(AirspaceClass::E)
        } else if c == 'F' {
            Ok(AirspaceClass::F)
        } else if c == 'G' {
            Ok(AirspaceClass::G)
        } else {
            Err(Error::InvalidAirspaceClass)
        }
    }

    /// Reads the class from its letter.
    pub fn from_str(s: &str) -> (r: SectorResult<AirspaceClass>)
        ensures
            match Self::named(s@) {
                Some(class) => r == Ok::<AirspaceClass, Error>(class),
                None => r == Err::<AirspaceClass, Error>(Error::InvalidAirspaceClass),
            },
    {
        let c = chars(s);
        Self::from_chars(c.as_slice())
    }
}

} // verus!
