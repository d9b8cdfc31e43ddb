//! The parts that the records of a database are made of.

use crate::names::LocalizedNameTable;
use crate::value::Double;
use vstd::prelude::*;

verus! {

/// A city.
#[derive(Debug, PartialEq, Eq)]
pub struct CityInfo {
    pub geoname_id: Option<u32>,
    pub names: Option<LocalizedNameTable>,
}

/// A continent.
#[derive(Debug, PartialEq, Eq)]
pub struct ContinentInfo {
    pub code: Option<String>,
    pub geoname_id: Option<u32>,
    pub names: Option<LocalizedNameTable>,
}

/// A country.
#[derive(Debug, PartialEq, Eq)]
pub struct CountryInfo {
    pub geoname_id: Option<u32>,
    pub is_in_european_union: Option<bool>,
    pub iso_code: Option<String>,
    pub names: Option<LocalizedNameTable>,
}

/// Where an address is.
#[derive(Debug, PartialEq, Eq)]
pub struct LocationInfo {
    pub latitude: Option<Double>,
    pub longitude: Option<Double>,
    pub metro_code: Option<u16>,
    pub time_zone: Option<String>,
}

/// A postal code.
#[derive(Debug, PartialEq, Eq)]
pub struct PostalInfo {
    pub code: Option<String>,
}

/// The country that the users of an address represent, such as that of a
/// military base.
#[derive(Debug, PartialEq, Eq)]
pub struct RepresentedCountryInfo {
    pub geoname_id: Option<u32>,
    pub iso_code: Option<String>,
    pub names: Option<LocalizedNameTable>,
}

/// A subdivision of a country.
#[derive(Debug, PartialEq, Eq)]
pub struct SubdivisionInfo {
    pub geoname_id: Option<u32>,
    pub iso_code: Option<String>,
    pub names: Option<LocalizedNameTable>,
}

/// Traits of an address.
#[derive(Debug, PartialEq, Eq)]
pub struct TraitsInfo {
    pub is_anonymous_proxy: Option<bool>,
    pub is_satellite_provider: Option<bool>,
}

} // verus!
