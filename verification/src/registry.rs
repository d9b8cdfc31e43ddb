//! The kinds of record, their codes and names, and the lookup of each.

use crate::address::IpAddress;
use crate::database::DatabaseHandle;
use crate::engine::{
    database_entry, lookup_anonymous_ip, lookup_asn, lookup_city, lookup_connection_type,
    lookup_country, lookup_density_income, lookup_domain, lookup_isp, Answer,
};
use crate::error::DBError;
use crate::records::{
    AnonymousIpRecord, AsnRecord, CityRecord, ConnectionTypeRecord, CountryRecord,
    DensityIncomeRecord, DomainRecord, IspRecord, Record,
};
use crate::serialize::PushToLua;
use crate::value::{GenericValue, Value};
use vstd::prelude::*;

verus! {

/// The kinds of record that can be asked for. Their codes are 0 to 7, in the
/// order in which they stand here.
#[derive(Clone, Copy, Debug, PartialEq, Eq, Structural)]
pub enum GeoIPRecord {
    AnonymousIp,
    Asn,
    City,
    ConnectionType,
    Country,
    DensityIncome,
    Domain,
    Isp,
}

/// The number of kinds of record.
pub const RECORD_COUNT: usize = 8;

/// The code of `kind`.
pub open spec fn code_of(kind: GeoIPRecord) -> int {
    match kind {
        GeoIPRecord::AnonymousIp => 0,
        GeoIPRecord::Asn => 1,
        GeoIPRecord::City => 2,
        GeoIPRecord::ConnectionType => 3,
        GeoIPRecord::Country => 4,
        GeoIPRecord::DensityIncome => 5,
        GeoIPRecord::Domain => 6,
        GeoIPRecord::Isp => 7,
    }
}

/// The kind with code `code`, if there is one.
pub open spec fn kind_of(code: int) -> Option<GeoIPRecord> {
    if code == 0 {
        Some(GeoIPRecord::AnonymousIp)
    } else if code == 1 {
        Some(GeoIPRecord::Asn)
    } else if code == 2 {
        Some(GeoIPRecord::City)
    } else if code == 3 {
        Some(GeoIPRecord::ConnectionType)
    } else if code == 4 {
        Some(GeoIPRecord::Country)
    } else if code == 5 {
        Some(GeoIPRecord::DensityIncome)
    } else if code == 6 {
        Some(GeoIPRecord::Domain)
    } else if code == 7 {
        Some(GeoIPRecord::Isp)
    } else {
        None
    }
}

/// The name of `kind`, under which the host finds its code.
pub open spec fn name_of(kind: GeoIPRecord) -> Seq<char> {
    match kind {
        GeoIPRecord::AnonymousIp => "AnonymousIp"@,
        GeoIPRecord::Asn => "Asn"@,
        GeoIPRecord::City => "City"@,
        GeoIPRecord::ConnectionType => "ConnectionType"@,
        GeoIPRecord::Country => "Country"@,
        GeoIPRecord::DensityIncome => "DensityIncome"@,
        GeoIPRecord::Domain => "Domain"@,
        GeoIPRecord::Isp => "Isp"@,
    }
}

/// The kind of `record`.
pub open spec fn record_kind(record: Record) -> GeoIPRecord {
    match record {
        Record::AnonymousIp(_) => GeoIPRecord::AnonymousIp,
        Record::Asn(_) => GeoIPRecord::Asn,
        Record::City(_) => GeoIPRecord::City,
        Record::ConnectionType(_) => GeoIPRecord::ConnectionType,
        Record::Country(_) => GeoIPRecord::Country,
        Record::DensityIncome(_) => GeoIPRecord::DensityIncome,
        Record::Domain(_) => GeoIPRecord::Domain,
        Record::Isp(_) => GeoIPRecord::Isp,
    }
}

/// The names of the fields of the mapping that stands for a record of
/// `kind`, in their order.
pub open spec fn schema_of(kind: GeoIPRecord) -> Seq<Seq<char>> {
    match kind {
        GeoIPRecord::AnonymousIp => seq![
            "is_anonymous"@,
            "is_anonymous_vpn"@,
            "is_hosting_provider"@,
            "is_public_proxy"@,
            "is_tor_exit_node"@,
        ],
        GeoIPRecord::Asn => seq![
            "autonomous_system_number"@,
            "autonomous_system_organization"@,
        ],
        GeoIPRecord::City => seq![
            "city"@,
            "continent"@,
            "country"@,
            "location"@,
            "postal"@,
            "registered_country"@,
            "represented_country"@,
            "subdivisions"@,
            "traits"@,
        ],
        GeoIPRecord::ConnectionType => seq!["connection_type"@],
        GeoIPRecord::Country => seq![
            "country"@,
            "continent"@,
            "registered_country"@,
            "represented_country"@,
            "traits"@,
        ],
        GeoIPRecord::DensityIncome => seq!["population_density"@, "average_income"@],
        GeoIPRecord::Domain => seq!["domain"@],
        GeoIPRecord::Isp => seq![
            "autonomous_system_number"@,
            "autonomous_system_organization"@,
            "isp"@,
            "organization"@,
        ],
    }
}

/// The record of `kind` without any field: what stands for an address that
/// the database does not hold.
pub open spec fn empty_record(kind: GeoIPRecord) -> Record {
    match kind {
        GeoIPRecord::AnonymousIp => Record::AnonymousIp(
            AnonymousIpRecord {
                is_anonymous: None,
                is_anonymous_vpn: None,
                is_hosting_provider: None,
                is_public_proxy: None,
                is_tor_exit_node: None,
            },
        ),
        GeoIPRecord::Asn => Record::Asn(
            AsnRecord { autonomous_system_number: None, autonomous_system_organization: None },
        ),
        GeoIPRecord::City => Record::City(
            CityRecord {
                city: None,
                continent: None,
                country: None,
                location: None,
                postal: None,
                registered_country: None,
                represented_country: None,
                subdivisions: None,
                traits: None,
            },
        ),
        GeoIPRecord::ConnectionType => Record::ConnectionType(
            ConnectionTypeRecord { connection_type: None },
        ),
        GeoIPRecord::Country => Record::Country(
            CountryRecord {
                continent: None,
                country: None,
                registered_country: None,
                represented_country: None,
                traits: None,
            },
        ),
        GeoIPRecord::DensityIncome => Record::DensityIncome(
            DensityIncomeRecord { average_income: None, population_density: None },
        ),
        GeoIPRecord::Domain => Record::Domain(DomainRecord { domain: None }),
        GeoIPRecord::Isp => Record::Isp(
            IspRecord {
                autonomous_system_number: None,
                autonomous_system_organization: None,
                isp: None,
                organization: None,
            },
        ),
    }
}

/// Whether `r` is what fetching a record of `kind` gives on `answer`: the
/// record that was found, which is of that kind; the empty record where none
/// was; and the engine's message as an error where it refused.
pub open spec fn is_fetched(answer: Answer, kind: GeoIPRecord, r: Result<Record, DBError>) -> bool {
    match answer {
        Answer::Found(record) => r == Ok::<Record, DBError>(record) && record_kind(record) == kind,
        Answer::Missing => r == Ok::<Record, DBError>(empty_record(kind)),
        Answer::Refused(message) => r matches Err(DBError::Internal(detail)) && detail@ == message,
        Answer::Undefined => false,
    }
}

/// Whether `r` is what a lookup of `kind` gives on `answer`: the value of the
/// record that fetching gives, which is of that kind, or its error.
pub open spec fn is_looked_up(
    answer: Answer,
    kind: GeoIPRecord,
    r: Result<GenericValue, DBError>,
) -> bool {
    match answer {
        Answer::Found(record) => r matches Ok(v) && v@ == record.lua_value() && record_kind(record)
            == kind,
        Answer::Missing => r matches Ok(v) && v@ == empty_record(kind).lua_value(),
        Answer::Refused(message) => r matches Err(DBError::Internal(detail)) && detail@ == message,
        Answer::Undefined => false,
    }
}

impl GeoIPRecord {
    /// The code of the kind.
    pub fn code(self) -> (code: isize)
        ensures
            code == code_of(self),
    {
        match self {
            GeoIPRecord::AnonymousIp => 0,
            GeoIPRecord::Asn => 1,
            GeoIPRecord::City => 2,
            GeoIPRecord::ConnectionType => 3,
            GeoIPRecord::Country => 4,
            GeoIPRecord::DensityIncome => 5,
            GeoIPRecord::Domain => 6,
            GeoIPRecord::Isp => 7,
        }
    }

    /// The kind with code `value`; `value` itself where it is no code.
    pub fn try_from(value: isize) -> (r: Result<GeoIPRecord, isize>)
        ensures
            r == match kind_of(value as int) {
                Some(kind) => Ok::<GeoIPRecord, isize>(kind),
                None => Err::<GeoIPRecord, isize>(value),
            },
            r is Ok <==> 0 <= value <= 7,
    {
        match value {
            0 => Ok(GeoIPRecord::AnonymousIp),
            1 => Ok(GeoIPRecord::Asn),
            2 => Ok(GeoIPRecord::City),
            3 => Ok(GeoIPRecord::ConnectionType),
            4 => Ok(GeoIPRecord::Country),
            5 => Ok(GeoIPRecord::DensityIncome),
            6 => Ok(GeoIPRecord::Domain),
            7 => Ok(GeoIPRecord::Isp),
            _ => Err(value),
        }
    }

    /// The name of the kind.
    pub fn name(self) -> (name: &'static str)
        ensures
            name@ == name_of(self),
    {
        match self {
            GeoIPRecord::AnonymousIp => "AnonymousIp",
            GeoIPRecord::Asn => "Asn",
            GeoIPRecord::City => "City",
            GeoIPRecord::ConnectionType => "ConnectionType",
            GeoIPRecord::Country => "Country",
            GeoIPRecord::DensityIncome => "DensityIncome",
            GeoIPRecord::Domain => "Domain",
            GeoIPRecord::Isp => "Isp",
        }
    }

    /// All kinds, each at the index that is its code.
    pub fn all() -> (kinds: [GeoIPRecord; RECORD_COUNT])
        ensures
            forall|code: int|
                0 <= code < RECORD_COUNT ==> kind_of(code) == Some(#[trigger] kinds[code]),
    {
        [
            GeoIPRecord::AnonymousIp,
            GeoIPRecord::Asn,
            GeoIPRecord::City,
            GeoIPRecord::ConnectionType,
            GeoIPRecord::Country,
            GeoIPRecord::DensityIncome,
            GeoIPRecord::Domain,
            GeoIPRecord::Isp,
        ]
    }

    /// The record of this kind without any field.
    pub fn empty(self) -> (r: Record)
        ensures
            r == empty_record(self),
    {
        match self {
            GeoIPRecord::AnonymousIp => Record::AnonymousIp(AnonymousIpRecord::empty()),
            GeoIPRecord::Asn => Record::Asn(AsnRecord::empty()),
            GeoIPRecord::City => Record::City(CityRecord::empty()),
            GeoIPRecord::ConnectionType => Record::ConnectionType(ConnectionTypeRecord::empty()),
            GeoIPRecord::Country => Record::Country(CountryRecord::empty()),
            GeoIPRecord::DensityIncome => Record::DensityIncome(DensityIncomeRecord::empty()),
            GeoIPRecord::Domain => Record::Domain(DomainRecord::empty()),
            GeoIPRecord::Isp => Record::Isp(IspRecord::empty()),
        }
    }

    /// Asks `db` for the record of this kind at `ip`.
    pub fn fetch(self, db: &DatabaseHandle, ip: IpAddress) -> (r: Result<Record, DBError>)
        ensures
            is_fetched(database_entry(db@, ip, self), self, r),
    {
        let reader = db.reader();
        let found = match self {
            GeoIPRecord::AnonymousIp => match lookup_anonymous_ip(reader, ip) {
                Ok(Some(record)) => Ok(Some(Record::AnonymousIp(record))),
                Ok(None) => Ok(None),
                Err(message) => Err(message),
            },
            GeoIPRecord::Asn => match lookup_asn(reader, ip) {
                Ok(Some(record)) => Ok(Some(Record::Asn(record))),
                Ok(None) => Ok(None),
                Err(message) => Err(message),
            },
            GeoIPRecord::City => match lookup_city(reader, ip) {
                Ok(Some(record)) => Ok(Some(Record::City(record))),
                Ok(None) => Ok(None),
                Err(message) => Err(message),
            },
            GeoIPRecord::ConnectionType => match lookup_connection_type(reader, ip) {
                Ok(Some(record)) => Ok(Some(Record::ConnectionType(record))),
                Ok(None) => Ok(None),
                Err(message) => Err(message),
            },
            GeoIPRecord::Country => match lookup_country(reader, ip) {
                Ok(Some(record)) => Ok(Some(Record::Country(record))),
                Ok(None) => Ok(None),
                Err(message) => Err(message),
            },
            GeoIPRecord::DensityIncome => match lookup_density_income(reader, ip) {
                Ok(Some(record)) => Ok(Some(Record::DensityIncome(record))),
                Ok(None) => Ok(None),
                Err(message) => Err(message),
            },
            GeoIPRecord::Domain => match lookup_domain(reader, ip) {
                Ok(Some(record)) => Ok(Some(Record::Domain(record))),
                Ok(None) => Ok(None),
                Err(message) => Err(message),
            },
            GeoIPRecord::Isp => match lookup_isp(reader, ip) {
                Ok(Some(record)) => Ok(Some(Record::Isp(record))),
                Ok(None) => Ok(None),
                Err(message) => Err(message),
            },
        };
        match found {
            Ok(Some(record)) => Ok(record),
            Ok(None) => Ok(self.empty()),
            Err(message) => Err(DBError::Internal(message)),
        }
    }

    /// Asks `db` for the record of this kind at `ip`, and builds the value
    /// that stands for it.
    pub fn lookup(self, db: &DatabaseHandle, ip: IpAddress) -> (r: Result<GenericValue, DBError>)
        ensures
            is_looked_up(database_entry(db@, ip, self), self, r),
    {
        match self.fetch(db, ip) {
            Ok(record) => Ok(record.push_to_lua()),
            Err(e) => Err(e),
        }
    }
}

} // verus!
