//! The records that a database holds for an address, one type for each kind.

use crate::model::{
    CityInfo, ContinentInfo, CountryInfo, LocationInfo, PostalInfo, RepresentedCountryInfo,
    SubdivisionInfo, TraitsInfo,
};
use vstd::prelude::*;

verus! {

/// What an anonymous IP database holds for an address.
#[derive(Debug, PartialEq, Eq)]
pub struct AnonymousIpRecord {
    pub is_anonymous: Option<bool>,
    pub is_anonymous_vpn: Option<bool>,
    pub is_hosting_provider: Option<bool>,
    pub is_public_proxy: Option<bool>,
    pub is_tor_exit_node: Option<bool>,
}

/// What an ASN database holds for an address.
#[derive(Debug, PartialEq, Eq)]
pub struct AsnRecord {
    pub autonomous_system_number: Option<u32>,
    pub autonomous_system_organization: Option<String>,
}

/// What a city database holds for an address.
#[derive(Debug, PartialEq, Eq)]
pub struct CityRecord {
    pub city: Option<CityInfo>,
    pub continent: Option<ContinentInfo>,
    pub country: Option<CountryInfo>,
    pub location: Option<LocationInfo>,
    pub postal: Option<PostalInfo>,
    pub registered_country: Option<CountryInfo>,
    pub represented_country: Option<RepresentedCountryInfo>,
    pub subdivisions: Option<Vec<SubdivisionInfo>>,
    pub traits: Option<TraitsInfo>,
}

/// What a connection type database holds for an address.
#[derive(Debug, PartialEq, Eq)]
pub struct ConnectionTypeRecord {
    pub connection_type: Option<String>,
}

/// What a country database holds for an address.
#[derive(Debug, PartialEq, Eq)]
pub struct CountryRecord {
    pub continent: Option<ContinentInfo>,
    pub country: Option<CountryInfo>,
    pub registered_country: Option<CountryInfo>,
    pub represented_country: Option<RepresentedCountryInfo>,
    pub traits: Option<TraitsInfo>,
}

/// What a density and income database holds for an address.
#[derive(Debug, PartialEq, Eq)]
pub struct DensityIncomeRecord {
    pub average_income: Option<u32>,
    pub population_density: Option<u32>,
}

/// What a domain database holds for an address.
#[derive(Debug, PartialEq, Eq)]
pub struct DomainRecord {
    pub domain: Option<String>,
}

/// What an ISP database holds for an address.
#[derive(Debug, PartialEq, Eq)]
pub struct IspRecord {
    pub autonomous_system_number: Option<u32>,
    pub autonomous_system_organization: Option<String>,
    pub isp: Option<String>,
    pub organization: Option<String>,
}

/// A record of any kind.
#[derive(Debug, PartialEq, Eq)]
pub enum Record {
    AnonymousIp(AnonymousIpRecord),
    Asn(AsnRecord),
    City(CityRecord),
    ConnectionType(ConnectionTypeRecord),
    Country(CountryRecord),
    DensityIncome(DensityIncomeRecord),
    Domain(DomainRecord),
    Isp(IspRecord),
}

impl AnonymousIpRecord {
    /// The record without any field.
    pub fn empty() -> (r: AnonymousIpRecord)
        ensures
            r == (AnonymousIpRecord {
                is_anonymous: None,
                is_anonymous_vpn: None,
                is_hosting_provider: None,
                is_public_proxy: None,
                is_tor_exit_node: None,
            }),
    {
        AnonymousIpRecord {
            is_anonymous: None,
            is_anonymous_vpn: None,
            is_hosting_provider: None,
            is_public_proxy: None,
            is_tor_exit_node: None,
        }
    }
}

impl AsnRecord {
    /// The record without any field.
    pub fn empty() -> (r: AsnRecord)
        ensures
            r == (AsnRecord {
                autonomous_system_number: None,
                autonomous_system_organization: None,
            }),
    {
        AsnRecord { autonomous_system_number: None, autonomous_system_organization: None }
    }
}

impl CityRecord {
    /// The record without any field.
    pub fn empty() -> (r: CityRecord)
        ensures
            r == (CityRecord {
                city: None,
                continent: None,
                country: None,
                location: None,
                postal: None,
                registered_country: None,
                represented_country: None,
                subdivisions: None,
                traits: None,
            }),
    {
        CityRecord {
            city: None,
            continent: None,
            country: None,
            location: None,
            postal: None,
            registered_country: None,
            represented_country: None,
            subdivisions: None,
            traits: None,
        }
    }
}

impl ConnectionTypeRecord {
    /// The record without any field.
    pub fn empty() -> (r: ConnectionTypeRecord)
        ensures
            r == (ConnectionTypeRecord { connection_type: None }),
    {
        ConnectionTypeRecord { connection_type: None }
    }
}

impl CountryRecord {
    /// The record without any field.
    pub fn empty() -> (r: CountryRecord)
        ensures
            r == (CountryRecord {
                continent: None,
                country: None,
                registered_country: None,
                represented_country: None,
                traits: None,
            }),
    {
        CountryRecord {
            continent: None,
            country: None,
            registered_country: None,
            represented_country: None,
            traits: None,
        }
    }
}

impl DensityIncomeRecord {
    /// The record without any field.
    pub fn empty() -> (r: DensityIncomeRecord)
        ensures
            r == (DensityIncomeRecord { average_income: None, population_density: None }),
    {
        DensityIncomeRecord { average_income: None, population_density: None }
    }
}

impl DomainRecord {
    /// The record without any field.
    pub fn empty() -> (r: DomainRecord)
        ensures
            r == (DomainRecord { domain: None }),
    {
        DomainRecord { domain: None }
    }
}

impl IspRecord {
    /// The record without any field.
    pub fn empty() -> (r: IspRecord)
        ensures
            r == (IspRecord {
                autonomous_system_number: None,
                autonomous_system_organization: None,
                isp: None,
                organization: None,
            }),
    {
        IspRecord {
            autonomous_system_number: None,
            autonomous_system_organization: None,
            isp: None,
            organization: None,
        }
    }
}

} // verus!
