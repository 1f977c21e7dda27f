//! What can be wrong with a sector file or with one of its lines.
use vstd::prelude::*;

verus! {

#[derive(Debug, Clone, Copy, Eq, PartialEq, Structural)]
pub enum Error {
    MissingMetadata,
    IoError,
    InvalidColourDefinition,
    InvalidFileSection,
    InvalidCoordinate,
    SectorInfoError,
    InvalidAirspaceClass,
    InvalidWaypoint,
    InvalidPosition,
    InvalidRunway,
    InvalidHeading,
    InvalidVorOrNdb,
    InvalidFix,
    InvalidArtccEntry,
    InvalidSidStarEntry,
    InvalidGeoEntry,
    InvalidRegion,
    InvalidLabel,
    InvalidOffset,
    InvalidFreetext,
    InvalidAtcPosition,
}

impl Error {
    /// The words that describe the error to a reader.
    pub open spec fn message(self) -> Seq<char> {
        match self {
            Error::MissingMetadata => "Missing metadata"@,
            Error::IoError => "Unable to read the source"@,
            Error::InvalidColourDefinition => "Invalid colour definition"@,
            Error::InvalidFileSection => "Invalid file section"@,
            Error::InvalidCoordinate => "Invalid coordinate"@,
            Error::SectorInfoError => "Sector information error"@,
            Error::InvalidAirspaceClass => "Invalid airspace class"@,
            Error::InvalidWaypoint => "Invalid waypoint"@,
            Error::InvalidPosition => "Invalid position"@,
            Error::InvalidRunway => "Invalid runway"@,
            Error::InvalidHeading => "Invalid heading"@,
            Error::InvalidVorOrNdb => "Invalid VOR or NDB"@,
            Error::InvalidFix => "Invalid fix"@,
            Error::InvalidArtccEntry => "Invalid ARTCC entry"@,
            Error::InvalidSidStarEntry => "Invalid SID / STAR entry"@,
            Error::InvalidGeoEntry => "Invalid geo Entry"@,
            Error::InvalidRegion => "Invalid region"@,
            Error::InvalidLabel => "Invalid label"@,
            Error::InvalidOffset => "Invalid offset"@,
            Error::InvalidFreetext => "Invalid freetext"@,
            Error::InvalidAtcPosition => "Invalid ATC position"@,
        }
    }

    /// The error in words.
    pub fn to_string(&self) -> (r: String)
        ensures
            r@ == self.message(),
    {
        let words = match self {
            Error::MissingMetadata => "Missing metadata",
            Error::IoError => "Unable to read the source",
            Error::InvalidColourDefinition => "Invalid colour definition",
            Error::InvalidFileSection => "Invalid file section",
            Error::InvalidCoordinate => "Invalid coordinate",
            Error::SectorInfoError => "Sector information error",
            Error::InvalidAirspaceClass => "Invalid airspace class",
            Error::InvalidWaypoint => "Invalid waypoint",
            Error::InvalidPosition => "Invalid position",
            Error::InvalidRunway => "Invalid runway",
            Error::InvalidHeading => "Invalid heading",
            Error::InvalidVorOrNdb => "Invalid VOR or NDB",
            Error::InvalidFix => "Invalid fix",
            Error::InvalidArtccEntry => "Invalid ARTCC entry",
            Error::InvalidSidStarEntry => "Invalid SID / STAR entry",
            Error::InvalidGeoEntry => "Invalid geo Entry",
            Error::InvalidRegion => "Invalid region",
            Error::InvalidLabel => "Invalid label",
            Error::InvalidOffset => "Invalid offset",
            Error::InvalidFreetext => "Invalid freetext",
            Error::InvalidAtcPosition => "Invalid ATC position",
        };
        String::from_str(words)
    }
}

/// What is wrong with a value in one of the files of a profile.
#[derive(Debug, Clone, Copy, PartialEq, Eq, Structural)]
pub enum ValueError {
    /// The line ends before the value.
    MissingValue,
    /// A value that should be a number is none, or is out of range.
    InvalidNumber,
}

impl ValueError {
    /// The words that describe the error to a reader.
    pub open spec fn message(self) -> Seq<char> {
        match self {
            ValueError::MissingValue => "Missing value"@,
            ValueError::InvalidNumber => "Invalid number"@,
        }
    }

    /// The error in words.
    pub fn to_string(&self) -> (r: String)
        ensures
            r@ == self.message(),
    {
        match self {
            ValueError::MissingValue => String::from_str("Missing value"),
            ValueError::InvalidNumber => String::from_str("Invalid number"),
        }
    }
}

} // verus!
