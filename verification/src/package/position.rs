//! Controller positions as a package lists them.
use vstd::prelude::*;

verus! {

#[derive(Debug)]
pub struct PositionDisplayConfig {
    pub display_type: String,
}

impl Default for PositionDisplayConfig {
    fn default() -> (r: PositionDisplayConfig)
        ensures
            r.display_type@.len() == 0,
    {
        PositionDisplayConfig { display_type: String::new() }
    }
}

/// A controller's position. The frequency is held as its whole and its
/// fractional part.
#[derive(Debug)]
pub struct AtcPosition {
    pub name: String,
    pub radio_name: Option<String>,
    pub callsign: Option<String>,
    pub frequency: Option<(u16, u16)>,
    pub tranceivers: Vec<String>,
    pub display_configs: Vec<PositionDisplayConfig>,
}

impl Default for AtcPosition {
    /// A position of which nothing is known but that it exists.
    fn default() -> (r: AtcPosition)
        ensures
            r.name@.len() == 0,
            r.radio_name is None,
            r.callsign is None,
            r.frequency is None,
            r.tranceivers@.len() == 0,
            r.display_configs@.len() == 0,
    {
        AtcPosition {
            name: String::new(),
            radio_name: None,
            callsign: None,
            frequency: None,
            tranceivers: Vec::new(),
            display_configs: Vec::new(),
        }
    }
}

} // verus!
