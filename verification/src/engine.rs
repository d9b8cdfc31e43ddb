//! The database engine: the `maxminddb` crate, which reads the database file.
//!
//! What stands here is believed, not proved. The engine checks little of what
//! it reads: it takes offsets from the file and indexes the file with them, so
//! on a file that is no sound database it may panic or run on without end,
//! when it opens the file or later, when it looks an address up. Such files
//! are left out where a file is opened, by the `requires` of `from_source`:
//! the reader over a sound database comes back from every lookup.
//!
//! The records of the engine are turned into those of this crate field by
//! field; nothing is promised of a single field. What a lookup gives as a
//! whole has a name, `database_entry`.

use crate::address::IpAddress;
use crate::model::{
    CityInfo, ContinentInfo, CountryInfo, LocationInfo, PostalInfo, RepresentedCountryInfo,
    SubdivisionInfo, TraitsInfo,
};
use crate::names::LocalizedNameTable;
use crate::records::{
    AnonymousIpRecord, AsnRecord, CityRecord, ConnectionTypeRecord, CountryRecord,
    DensityIncomeRecord, DomainRecord, IspRecord, Record,
};
use crate::registry::GeoIPRecord;
use crate::value::Double;
use vstd::prelude::*;

verus! {

/// `memmap2::Mmap`: a read-only memory map of a file.
#[verifier::external_type_specification]
#[verifier::external_body]
pub struct ExMmap(memmap2::Mmap);

/// `maxminddb::geoip2::City`: the engine's city record.
#[verifier::external_type_specification]
#[verifier::external_body]
pub struct ExCityEntry<'a>(maxminddb::geoip2::City<'a>);

/// `maxminddb::geoip2::model::City`.
#[verifier::external_type_specification]
#[verifier::external_body]
pub struct ExCity<'a>(maxminddb::geoip2::model::City<'a>);

/// `maxminddb::geoip2::model::Continent`.
#[verifier::external_type_specification]
#[verifier::external_body]
pub struct ExContinent<'a>(maxminddb::geoip2::model::Continent<'a>);

/// `maxminddb::geoip2::model::Country`.
#[verifier::external_type_specification]
#[verifier::external_body]
pub struct ExCountry<'a>(maxminddb::geoip2::model::Country<'a>);

/// `maxminddb::geoip2::model::Location`.
#[verifier::external_type_specification]
#[verifier::external_body]
pub struct ExLocation<'a>(maxminddb::geoip2::model::Location<'a>);

/// `maxminddb::geoip2::model::Postal`.
#[verifier::external_type_specification]
#[verifier::external_body]
pub struct ExPostal<'a>(maxminddb::geoip2::model::Postal<'a>);

/// `maxminddb::geoip2::model::RepresentedCountry`.
#[verifier::external_type_specification]
#[verifier::external_body]
pub struct ExRepresentedCountry<'a>(maxminddb::geoip2::model::RepresentedCountry<'a>);

/// `maxminddb::geoip2::model::Subdivision`.
#[verifier::external_type_specification]
#[verifier::external_body]
pub struct ExSubdivision<'a>(maxminddb::geoip2::model::Subdivision<'a>);

/// `maxminddb::geoip2::model::Traits`.
#[verifier::external_type_specification]
#[verifier::external_body]
pub struct ExTraits(maxminddb::geoip2::model::Traits);

/// The engine's reader, `maxminddb::Reader`, over the memory map of a
/// database file. It is never changed once it is made, and the file under the
/// map has to stay as it is.
#[verifier::external_body]
pub struct EngineReader {
    reader: maxminddb::Reader<memmap2::Mmap>,
}

/// What the engine makes of a file.
pub enum Opening {
    /// It opens the file: this is the reader over it.
    Opened(EngineReader),
    /// It refuses the file, with this message.
    Refused(Seq<char>),
    /// The file is no sound database: the engine panics or does not come
    /// back, when it opens the file or when it looks an address up in it.
    Undefined,
}

/// What the engine answers when asked for a record.
pub enum Answer {
    /// The database holds this record for the address.
    Found(Record),
    /// The database holds nothing for the address.
    Missing,
    /// The engine refuses, with this message.
    Refused(Seq<char>),
    /// The engine panics or does not come back.
    Undefined,
}

/// What `maxminddb::Reader::from_source` makes of the file mapped as `source`.
pub uninterp spec fn opening(source: memmap2::Mmap) -> Opening;

/// What `maxminddb::Reader::lookup` answers when asked in `reader` for the
/// record of `kind` at `ip`.
pub uninterp spec fn database_entry(reader: EngineReader, ip: IpAddress, kind: GeoIPRecord) -> Answer;

/// The file mapped as `source` is a sound database, or one that the engine
/// refuses.
pub open spec fn opens(source: memmap2::Mmap) -> bool {
    !(opening(source) is Undefined)
}

/// The engine comes back when asked in `reader` for the record of `kind` at
/// `ip`.
pub open spec fn answers(reader: EngineReader, ip: IpAddress, kind: GeoIPRecord) -> bool {
    !(database_entry(reader, ip, kind) is Undefined)
}

/// The engine comes back from every lookup in `reader`.
pub open spec fn sound(reader: EngineReader) -> bool {
    forall|ip: IpAddress, kind: GeoIPRecord| answers(reader, ip, kind)
}

/// The answer that the outcome `r` of a lookup stands for, with `wrap` to
/// make a record of what was found.
pub open spec fn answer_of<T>(r: Result<Option<T>, String>, wrap: spec_fn(T) -> Record) -> Answer {
    match r {
        Ok(Some(found)) => Answer::Found(wrap(found)),
        Ok(None) => Answer::Missing,
        Err(message) => Answer::Refused(message@),
    }
}

/// `maxminddb::Reader::from_source`: reads the metadata of the database file
/// mapped as `source` and makes a reader over it, or refuses the file. The
/// outcome depends on the mapped bytes alone. The error is handed on as its
/// `Display` text. The reader over a sound database is sound.
#[verifier::external_body]
pub(crate) fn from_source(source: memmap2::Mmap) -> (r: Result<EngineReader, String>)
    requires
        opens(source),
    ensures
        opening(source) == match r {
            Ok(reader) => Opening::Opened(reader),
            Err(message) => Opening::Refused(message@),
        },
        r matches Ok(reader) ==> sound(reader),
{
    match maxminddb::Reader::from_source(source) {
        Ok(reader) => Ok(EngineReader { reader }),
        Err(e) => Err(e.to_string()),
    }
}

/// Turns a `BTreeMap` of the engine, from locale code to name, into a table:
/// the entries in the order of the map, which is that of the locale codes.
#[verifier::external_body]
fn name_table(names: std::collections::BTreeMap<&str, &str>) -> LocalizedNameTable {
    LocalizedNameTable::from_entries(
        names.into_iter().map(|(locale, name)| (locale.to_owned(), name.to_owned())).collect(),
    )
}

/// Takes the fields of a `maxminddb::geoip2::model::City`, one for one.
#[verifier::external_body]
fn city_info(city: maxminddb::geoip2::model::City<'_>) -> CityInfo {
    CityInfo { geoname_id: city.geoname_id, names: city.names.map(name_table) }
}

/// Takes the fields of a `maxminddb::geoip2::model::Continent`, one for one.
#[verifier::external_body]
fn continent_info(continent: maxminddb::geoip2::model::Continent<'_>) -> ContinentInfo {
    ContinentInfo {
        code: continent.code.map(str::to_owned),
        geoname_id: continent.geoname_id,
        names: continent.names.map(name_table),
    }
}

/// Takes the fields of a `maxminddb::geoip2::model::Country`, one for one.
#[verifier::external_body]
fn country_info(country: maxminddb::geoip2::model::Country<'_>) -> CountryInfo {
    CountryInfo {
        geoname_id: country.geoname_id,
        is_in_european_union: country.is_in_european_union,
        iso_code: country.iso_code.map(str::to_owned),
        names: country.names.map(name_table),
    }
}

/// Takes the fields of a `maxminddb::geoip2::model::Location`, one for one;
/// latitude and longitude as their bit patterns.
#[verifier::external_body]
fn location_info(location: maxminddb::geoip2::model::Location<'_>) -> LocationInfo {
    LocationInfo {
        latitude: location.latitude.map(|degrees| Double { bits: degrees.to_bits() }),
        longitude: location.longitude.map(|degrees| Double { bits: degrees.to_bits() }),
        metro_code: location.metro_code,
        time_zone: location.time_zone.map(str::to_owned),
    }
}

/// Takes the field of a `maxminddb::geoip2::model::Postal`.
#[verifier::external_body]
fn postal_info(postal: maxminddb::geoip2::model::Postal<'_>) -> PostalInfo {
    PostalInfo { code: postal.code.map(str::to_owned) }
}

/// Takes the fields of a `maxminddb::geoip2::model::RepresentedCountry`, one
/// for one.
#[verifier::external_body]
fn represented_country_info(
    country: maxminddb::geoip2::model::RepresentedCountry<'_>,
) -> RepresentedCountryInfo {
    RepresentedCountryInfo {
        geoname_id: country.geoname_id,
        iso_code: country.iso_code.map(str::to_owned),
        names: country.names.map(name_table),
    }
}

/// Takes the fields of a `maxminddb::geoip2::model::Subdivision`, one for one.
#[verifier::external_body]
fn subdivision_info(subdivision: maxminddb::geoip2::model::Subdivision<'_>) -> SubdivisionInfo {
    SubdivisionInfo {
        geoname_id: subdivision.geoname_id,
        iso_code: subdivision.iso_code.map(str::to_owned),
        names: subdivision.names.map(name_table),
    }
}

/// Takes the fields of a `maxminddb::geoip2::model::Traits`, one for one.
#[verifier::external_body]
fn traits_info(traits: maxminddb::geoip2::model::Traits) -> TraitsInfo {
    TraitsInfo {
        is_anonymous_proxy: traits.is_anonymous_proxy,
        is_satellite_provider: traits.is_satellite_provider,
    }
}

/// Takes the fields of a `maxminddb::geoip2::City`, one for one.
#[verifier::external_body]
fn city_record(entry: maxminddb::geoip2::City<'_>) -> CityRecord {
    CityRecord {
        city: entry.city.map(city_info),
        continent: entry.continent.map(continent_info),
        country: entry.country.map(country_info),
        location: entry.location.map(location_info),
        postal: entry.postal.map(postal_info),
        registered_country: entry.registered_country.map(country_info),
        represented_country: entry.represented_country.map(represented_country_info),
        subdivisions: entry.subdivisions.map(|all| all.into_iter().map(subdivision_info).collect()),
        traits: entry.traits.map(traits_info),
    }
}

/// `maxminddb::Reader::lookup` for `maxminddb::geoip2::AnonymousIp`: the record
/// that the database holds for `ip`, with its fields taken one for one;
/// nothing where the engine reports `AddressNotFoundError`; any other error
/// as its `Display` text. The outcome depends on `reader` and `ip` alone.
#[verifier::external_body]
pub(crate) fn lookup_anonymous_ip(reader: &EngineReader, ip: IpAddress) -> (r: Result<
    Option<AnonymousIpRecord>,
    String,
>)
    requires
        answers(*reader, ip, GeoIPRecord::AnonymousIp),
    ensures
        database_entry(*reader, ip, GeoIPRecord::AnonymousIp) == answer_of(
            r,
            |record: AnonymousIpRecord| Record::AnonymousIp(record),
        ),
{
    let address = match ip { IpAddress::V4(o) => o.into(), IpAddress::V6(o) => o.into() };
    match reader.reader.lookup::<maxminddb::geoip2::AnonymousIp>(address) {
        Ok(entry) => Ok(Some(AnonymousIpRecord {
            is_anonymous: entry.is_anonymous,
            is_anonymous_vpn: entry.is_anonymous_vpn,
            is_hosting_provider: entry.is_hosting_provider,
            is_public_proxy: entry.is_public_proxy,
            is_tor_exit_node: entry.is_tor_exit_node,
        })),
        Err(maxminddb::MaxMindDBError::AddressNotFoundError(_)) => Ok(None),
        Err(e) => Err(e.to_string()),
    }
}

/// `maxminddb::Reader::lookup` for `maxminddb::geoip2::Asn`: the record
/// that the database holds for `ip`, with its fields taken one for one;
/// nothing where the engine reports `AddressNotFoundError`; any other error
/// as its `Display` text. The outcome depends on `reader` and `ip` alone.
#[verifier::external_body]
pub(crate) fn lookup_asn(reader: &EngineReader, ip: IpAddress) -> (r: Result<
    Option<AsnRecord>,
    String,
>)
    requires
        answers(*reader, ip, GeoIPRecord::Asn),
    ensures
        database_entry(*reader, ip, GeoIPRecord::Asn) == answer_of(
            r,
            |record: AsnRecord| Record::Asn(record),
        ),
{
    let address = match ip { IpAddress::V4(o) => o.into(), IpAddress::V6(o) => o.into() };
    match reader.reader.lookup::<maxminddb::geoip2::Asn>(address) {
        Ok(entry) => Ok(Some(AsnRecord {
            autonomous_system_number: entry.autonomous_system_number,
            autonomous_system_organization: entry.autonomous_system_organization.map(str::to_owned),
        })),
        Err(maxminddb::MaxMindDBError::AddressNotFoundError(_)) => Ok(None),
        Err(e) => Err(e.to_string()),
    }
}

/// `maxminddb::Reader::lookup` for `maxminddb::geoip2::City`: the record
/// that the database holds for `ip`, with its fields taken one for one;
/// nothing where the engine reports `AddressNotFoundError`; any other error
/// as its `Display` text. The outcome depends on `reader` and `ip` alone.
#[verifier::external_body]
pub(crate) fn lookup_city(reader: &EngineReader, ip: IpAddress) -> (r: Result<
    Option<CityRecord>,
    String,
>)
    requires
        answers(*reader, ip, GeoIPRecord::City),
    ensures
        database_entry(*reader, ip, GeoIPRecord::City) == answer_of(
            r,
            |record: CityRecord| Record::City(record),
        ),
{
    let address = match ip { IpAddress::V4(o) => o.into(), IpAddress::V6(o) => o.into() };
    match reader.reader.lookup::<maxminddb::geoip2::City>(address) {
        Ok(entry) => Ok(Some(city_record(entry))),
        Err(maxminddb::MaxMindDBError::AddressNotFoundError(_)) => Ok(None),
        Err(e) => Err(e.to_string()),
    }
}

/// `maxminddb::Reader::lookup` for `maxminddb::geoip2::ConnectionType`: the record
/// that the database holds for `ip`, with its fields taken one for one;
/// nothing where the engine reports `AddressNotFoundError`; any other error
/// as its `Display` text. The outcome depends on `reader` and `ip` alone.
#[verifier::external_body]
pub(crate) fn lookup_connection_type(reader: &EngineReader, ip: IpAddress) -> (r: Result<
    Option<ConnectionTypeRecord>,
    String,
>)
    requires
        answers(*reader, ip, GeoIPRecord::ConnectionType),
    ensures
        database_entry(*reader, ip, GeoIPRecord::ConnectionType) == answer_of(
            r,
            |record: ConnectionTypeRecord| Record::ConnectionType(record),
        ),
{
    let address = match ip { IpAddress::V4(o) => o.into(), IpAddress::V6(o) => o.into() };
    match reader.reader.lookup::<maxminddb::geoip2::ConnectionType>(address) {
        Ok(entry) => Ok(Some(ConnectionTypeRecord {
            connection_type: entry.connection_type.map(str::to_owned),
        })),
        Err(maxminddb::MaxMindDBError::AddressNotFoundError(_)) => Ok(None),
        Err(e) => Err(e.to_string()),
    }
}

/// `maxminddb::Reader::lookup` for `maxminddb::geoip2::Country`: the record
/// that the database holds for `ip`, with its fields taken one for one;
/// nothing where the engine reports `AddressNotFoundError`; any other error
/// as its `Display` text. The outcome depends on `reader` and `ip` alone.
#[verifier::external_body]
pub(crate) fn lookup_country(reader: &EngineReader, ip: IpAddress) -> (r: Result<
    Option<CountryRecord>,
    String,
>)
    requires
        answers(*reader, ip, GeoIPRecord::Country),
    ensures
        database_entry(*reader, ip, GeoIPRecord::Country) == answer_of(
            r,
            |record: CountryRecord| Record::Country(record),
        ),
{
    let address = match ip { IpAddress::V4(o) => o.into(), IpAddress::V6(o) => o.into() };
    match reader.reader.lookup::<maxminddb::geoip2::Country>(address) {
        Ok(entry) => Ok(Some(CountryRecord {
            continent: entry.continent.map(continent_info),
            country: entry.country.map(country_info),
            registered_country: entry.registered_country.map(country_info),
            represented_country: entry.represented_country.map(represented_country_info),
            traits: entry.traits.map(traits_info),
        })),
        Err(maxminddb::MaxMindDBError::AddressNotFoundError(_)) => Ok(None),
        Err(e) => Err(e.to_string()),
    }
}

/// `maxminddb::Reader::lookup` for `maxminddb::geoip2::DensityIncome`: the record
/// that the database holds for `ip`, with its fields taken one for one;
/// nothing where the engine reports `AddressNotFoundError`; any other error
/// as its `Display` text. The outcome depends on `reader` and `ip` alone.
#[verifier::external_body]
pub(crate) fn lookup_density_income(reader: &EngineReader, ip: IpAddress) -> (r: Result<
    Option<DensityIncomeRecord>,
    String,
>)
    requires
        answers(*reader, ip, GeoIPRecord::DensityIncome),
    ensures
        database_entry(*reader, ip, GeoIPRecord::DensityIncome) == answer_of(
            r,
            |record: DensityIncomeRecord| Record::DensityIncome(record),
        ),
{
    let address = match ip { IpAddress::V4(o) => o.into(), IpAddress::V6(o) => o.into() };
    match reader.reader.lookup::<maxminddb::geoip2::DensityIncome>(address) {
        Ok(entry) => Ok(Some(DensityIncomeRecord {
            average_income: entry.average_income,
            population_density: entry.population_density,
        })),
        Err(maxminddb::MaxMindDBError::AddressNotFoundError(_)) => Ok(None),
        Err(e) => Err(e.to_string()),
    }
}

/// `maxminddb::Reader::lookup` for `maxminddb::geoip2::Domain`: the record
/// that the database holds for `ip`, with its fields taken one for one;
/// nothing where the engine reports `AddressNotFoundError`; any other error
/// as its `Display` text. The outcome depends on `reader` and `ip` alone.
#[verifier::external_body]
pub(crate) fn lookup_domain(reader: &EngineReader, ip: IpAddress) -> (r: Result<
    Option<DomainRecord>,
    String,
>)
    requires
        answers(*reader, ip, GeoIPRecord::Domain),
    ensures
        database_entry(*reader, ip, GeoIPRecord::Domain) == answer_of(
            r,
            |record: DomainRecord| Record::Domain(record),
        ),
{
    let address = match ip { IpAddress::V4(o) => o.into(), IpAddress::V6(o) => o.into() };
    match reader.reader.lookup::<maxminddb::geoip2::Domain>(address) {
        Ok(entry) => Ok(Some(DomainRecord { domain: entry.domain.map(str::to_owned) })),
        Err(maxminddb::MaxMindDBError::AddressNotFoundError(_)) => Ok(None),
        Err(e) => Err(e.to_string()),
    }
}

/// `maxminddb::Reader::lookup` for `maxminddb::geoip2::Isp`: the record
/// that the database holds for `ip`, with its fields taken one for one;
/// nothing where the engine reports `AddressNotFoundError`; any other error
/// as its `Display` text. The outcome depends on `reader` and `ip` alone.
#[verifier::external_body]
pub(crate) fn lookup_isp(reader: &EngineReader, ip: IpAddress) -> (r: Result<
    Option<IspRecord>,
    String,
>)
    requires
        answers(*reader, ip, GeoIPRecord::Isp),
    ensures
        database_entry(*reader, ip, GeoIPRecord::Isp) == answer_of(
            r,
            |record: IspRecord| Record::Isp(record),
        ),
{
    let address = match ip { IpAddress::V4(o) => o.into(), IpAddress::V6(o) => o.into() };
    match reader.reader.lookup::<maxminddb::geoip2::Isp>(address) {
        Ok(entry) => Ok(Some(IspRecord {
            autonomous_system_number: entry.autonomous_system_number,
            autonomous_system_organization: entry.autonomous_system_organization.map(str::to_owned),
            isp: entry.isp.map(str::to_owned),
            organization: entry.organization.map(str::to_owned),
        })),
        Err(maxminddb::MaxMindDBError::AddressNotFoundError(_)) => Ok(None),
        Err(e) => Err(e.to_string()),
    }
}

} // verus!
