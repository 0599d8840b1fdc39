//! The records the application keeps: ground stations, satellites and passes.
use vstd::prelude::*;
use crate::decimal::Decimal;

verus! {

/// Where a ground station stands, and its name.
pub struct GroundSite {
    pub name: String,
    pub lat: Decimal,
    pub long: Decimal,
    pub alt: Decimal,
}

impl GroundSite {
    /// A station at latitude, longitude and altitude zero with an empty name.
    pub fn zeroed() -> (r: GroundSite)
        ensures
            r.name@ == Seq::<char>::empty(),
            r.lat@ == seq!['0'],
            r.long@ == seq!['0'],
            r.alt@ == seq!['0'],
    {
        GroundSite {
            name: String::new(),
            lat: Decimal::zero(),
            long: Decimal::zero(),
            alt: Decimal::zero(),
        }
    }

    pub fn copy(&self) -> (r: GroundSite)
        ensures
            r == *self,
    {
        GroundSite {
            name: self.name.clone(),
            lat: self.lat.copy(),
            long: self.long.copy(),
            alt: self.alt.copy(),
        }
    }
}

/// A configured ground station: its site and whether passes are computed for it.
pub struct TLGroundStation {
    pub station: GroundSite,
    pub active: bool,
}

/// The elements of a satellite as the application reads them: its NORAD
/// catalog number, its name and the raw element-set text.
pub struct ElementSet {
    pub norad_id: u64,
    pub name: String,
    pub tle: String,
}

impl ElementSet {
    pub fn copy(&self) -> (r: ElementSet)
        ensures
            r == *self,
    {
        ElementSet { norad_id: self.norad_id, name: self.name.clone(), tle: self.tle.clone() }
    }
}

/// A calendar day.
#[derive(Clone, Copy)]
pub struct CalendarDate {
    pub year: i32,
    pub month: u8,
    pub day: u8,
}

/// Catalog metadata of a satellite.
pub struct MetaData {
    pub owner: String,
    pub launch_date: CalendarDate,
    pub object_id: String,
    pub inclination: Decimal,
}

impl MetaData {
    pub fn copy(&self) -> (r: MetaData)
        ensures
            r == *self,
    {
        MetaData {
            owner: self.owner.clone(),
            launch_date: self.launch_date,
            object_id: self.object_id.clone(),
            inclination: self.inclination.copy(),
        }
    }
}

/// A satellite with its catalog metadata.
pub struct TLSatellite {
    pub satellite: ElementSet,
    pub metadata: MetaData,
}

impl TLSatellite {
    pub fn copy(&self) -> (r: TLSatellite)
        ensures
            r == *self,
    {
        TLSatellite { satellite: self.satellite.copy(), metadata: self.metadata.copy() }
    }
}

/// One visibility window: acquisition, loss and time of maximum elevation as
/// Unix seconds, and the maximum elevation in degrees.
pub struct PassWindow {
    pub aos: i64,
    pub los: i64,
    pub tme: i64,
    pub max_elevation: Decimal,
}

/// A pass together with the station it is seen from.
pub struct TLPass {
    pub pass: PassWindow,
    pub station: GroundSite,
}

/// The passes computed for one station.
pub struct StationPasses {
    pub station: GroundSite,
    pub passes: Vec<PassWindow>,
}

} // verus!
