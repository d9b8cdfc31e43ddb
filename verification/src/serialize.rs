//! From records to the values that are pushed to Lua.

use crate::model::{
    CityInfo, ContinentInfo, CountryInfo, LocationInfo, PostalInfo, RepresentedCountryInfo,
    SubdivisionInfo, TraitsInfo,
};
use crate::names::{LocalizedNameTable, Names};
use crate::records::{
    AnonymousIpRecord, AsnRecord, CityRecord, ConnectionTypeRecord, CountryRecord,
    DensityIncomeRecord, DomainRecord, IspRecord, Record,
};
use crate::value::{
    fields_of, push_item, set_field, values_of, Double, GenericValue, Value, MAX_SEQUENCE_LEN,
};
use vstd::prelude::*;

verus! {

/// What can be pushed to Lua as one value.
pub trait PushToLua {
    /// The value that stands for `self`.
    spec fn lua_value(&self) -> Value;

    /// Builds the value that stands for `self`.
    fn push_to_lua(&self) -> (v: GenericValue)
        ensures
            v@ == self.lua_value(),
    ;
}

impl PushToLua for String {
    open spec fn lua_value(&self) -> Value {
        Value::String(self@)
    }

    fn push_to_lua(&self) -> (v: GenericValue) {
        GenericValue::String(self.clone())
    }
}

impl PushToLua for bool {
    open spec fn lua_value(&self) -> Value {
        Value::Bool(*self)
    }

    fn push_to_lua(&self) -> (v: GenericValue) {
        GenericValue::Bool(*self)
    }
}

impl PushToLua for u32 {
    open spec fn lua_value(&self) -> Value {
        Value::Integer(*self as int)
    }

    fn push_to_lua(&self) -> (v: GenericValue) {
        GenericValue::Integer(*self as i64)
    }
}

impl PushToLua for Double {
    open spec fn lua_value(&self) -> Value {
        Value::Float(self.bits)
    }

    fn push_to_lua(&self) -> (v: GenericValue) {
        GenericValue::Float(*self)
    }
}

impl PushToLua for u16 {
    open spec fn lua_value(&self) -> Value {
        Value::Integer(*self as int)
    }

    fn push_to_lua(&self) -> (v: GenericValue) {
        GenericValue::Integer(*self as i64)
    }
}

/// A missing value is pushed as `Null`.
impl<T: PushToLua> PushToLua for Option<T> {
    open spec fn lua_value(&self) -> Value {
        match self {
            Some(val) => val.lua_value(),
            None => Value::Null,
        }
    }

    fn push_to_lua(&self) -> (v: GenericValue) {
        match self {
            Some(val) => val.push_to_lua(),
            None => GenericValue::Null,
        }
    }
}

/// The mapping that stands for the entries of a name table: one field for
/// each locale code, in the order of the table, with the name as a text.
pub open spec fn names_value(entries: Names) -> Value {
    Value::Mapping(Seq::new(entries.len(), |i: int| (entries[i].0, Value::String(entries[i].1))))
}

impl PushToLua for LocalizedNameTable {
    open spec fn lua_value(&self) -> Value {
        names_value(self@)
    }

    fn push_to_lua(&self) -> (v: GenericValue) {
        let mut fields: Vec<(String, GenericValue)> = Vec::new();
        let n = self.len();
        let mut i: usize = 0;
        while i < n
            invariant
                n == self@.len(),
                i <= n,
                fields_of(fields@) == Seq::new(
                    i as nat,
                    |k: int| (self@[k].0, Value::String(self@[k].1)),
                ),
            decreases n - i,
        {
            if let Some((locale, name)) = self.entry(i) {
                set_field(&mut fields, locale.as_str(), name.push_to_lua());
            }
            assert(fields_of(fields@) =~= Seq::new(
                (i + 1) as nat,
                |k: int| (self@[k].0, Value::String(self@[k].1)),
            ));
            i += 1;
        }
        GenericValue::mapping(fields)
    }
}

/// The number of items of a list of `len` items that are pushed.
pub open spec fn pushed_len(len: nat) -> nat {
    if len <= MAX_SEQUENCE_LEN {
        len
    } else {
        MAX_SEQUENCE_LEN as nat
    }
}

/// A list is pushed as the sequence of its items, in order, up to
/// `MAX_SEQUENCE_LEN` of them.
impl<T: PushToLua> PushToLua for Vec<T> {
    open spec fn lua_value(&self) -> Value {
        Value::Sequence(Seq::new(pushed_len(self@.len()), |i: int| self@[i].lua_value()))
    }

    fn push_to_lua(&self) -> (v: GenericValue) {
        let n = if self.len() <= MAX_SEQUENCE_LEN {
            self.len()
        } else {
            MAX_SEQUENCE_LEN
        };
        let mut items: Vec<GenericValue> = Vec::new();
        let mut i: usize = 0;
        while i < n
            invariant
                n == pushed_len(self@.len()),
                i <= n <= self@.len(),
                values_of(items@) == Seq::new(i as nat, |k: int| self@[k].lua_value()),
            decreases n - i,
        {
            push_item(&mut items, self[i].push_to_lua());
            assert(values_of(items@) =~= Seq::new((i + 1) as nat, |k: int| self@[k].lua_value()));
            i += 1;
        }
        GenericValue::sequence(items)
    }
}

impl PushToLua for TraitsInfo {
    open spec fn lua_value(&self) -> Value {
        Value::Mapping(
            seq![
                ("is_anonymous_proxy"@, self.is_anonymous_proxy.lua_value()),
                ("is_satellite_provider"@, self.is_satellite_provider.lua_value()),
            ],
        )
    }

    fn push_to_lua(&self) -> (v: GenericValue) {
        let mut fields: Vec<(String, GenericValue)> = Vec::new();
        assert(fields_of(fields@) =~= Seq::empty());
        set_field(&mut fields, "is_anonymous_proxy", self.is_anonymous_proxy.push_to_lua());
        set_field(&mut fields, "is_satellite_provider", self.is_satellite_provider.push_to_lua());
        assert(fields_of(fields@) =~= self.lua_value()->Mapping_0);
        GenericValue::mapping(fields)
    }
}
impl PushToLua for SubdivisionInfo {
    open spec fn lua_value(&self) -> Value {
        Value::Mapping(
            seq![
                ("geoname_id"@, self.geoname_id.lua_value()),
                ("iso_code"@, self.iso_code.lua_value()),
                ("names"@, self.names.lua_value()),
            ],
        )
    }

    fn push_to_lua(&self) -> (v: GenericValue) {
        let mut fields: Vec<(String, GenericValue)> = Vec::new();
        assert(fields_of(fields@) =~= Seq::empty());
        set_field(&mut fields, "geoname_id", self.geoname_id.push_to_lua());
        set_field(&mut fields, "iso_code", self.iso_code.push_to_lua());
        set_field(&mut fields, "names", self.names.push_to_lua());
        assert(fields_of(fields@) =~= self.lua_value()->Mapping_0);
        GenericValue::mapping(fields)
    }
}
impl PushToLua for PostalInfo {
    open spec fn lua_value(&self) -> Value {
        Value::Mapping(
            seq![
                ("code"@, self.code.lua_value()),
            ],
        )
    }

    fn push_to_lua(&self) -> (v: GenericValue) {
        let mut fields: Vec<(String, GenericValue)> = Vec::new();
        assert(fields_of(fields@) =~= Seq::empty());
        set_field(&mut fields, "code", self.code.push_to_lua());
        assert(fields_of(fields@) =~= self.lua_value()->Mapping_0);
        GenericValue::mapping(fields)
    }
}
impl PushToLua for RepresentedCountryInfo {
    open spec fn lua_value(&self) -> Value {
        Value::Mapping(
            seq![
                ("names"@, self.names.lua_value()),
                ("iso_code"@, self.iso_code.lua_value()),
                ("geoname_id"@, self.geoname_id.lua_value()),
            ],
        )
    }

    fn push_to_lua(&self) -> (v: GenericValue) {
        let mut fields: Vec<(String, GenericValue)> = Vec::new();
        assert(fields_of(fields@) =~= Seq::empty());
        set_field(&mut fields, "names", self.names.push_to_lua());
        set_field(&mut fields, "iso_code", self.iso_code.push_to_lua());
        set_field(&mut fields, "geoname_id", self.geoname_id.push_to_lua());
        assert(fields_of(fields@) =~= self.lua_value()->Mapping_0);
        GenericValue::mapping(fields)
    }
}
impl PushToLua for CountryInfo {
    open spec fn lua_value(&self) -> Value {
        Value::Mapping(
            seq![
                ("names"@, self.names.lua_value()),
                ("is_in_european_union"@, self.is_in_european_union.lua_value()),
                ("iso_code"@, self.iso_code.lua_value()),
                ("geoname_id"@, self.geoname_id.lua_value()),
            ],
        )
    }

    fn push_to_lua(&self) -> (v: GenericValue) {
        let mut fields: Vec<(String, GenericValue)> = Vec::new();
        assert(fields_of(fields@) =~= Seq::empty());
        set_field(&mut fields, "names", self.names.push_to_lua());
        set_field(&mut fields, "is_in_european_union", self.is_in_european_union.push_to_lua());
        set_field(&mut fields, "iso_code", self.iso_code.push_to_lua());
        set_field(&mut fields, "geoname_id", self.geoname_id.push_to_lua());
        assert(fields_of(fields@) =~= self.lua_value()->Mapping_0);
        GenericValue::mapping(fields)
    }
}
impl PushToLua for ContinentInfo {
    open spec fn lua_value(&self) -> Value {
        Value::Mapping(
            seq![
                ("code"@, self.code.lua_value()),
                ("geoname_id"@, self.geoname_id.lua_value()),
                ("names"@, self.names.lua_value()),
            ],
        )
    }

    fn push_to_lua(&self) -> (v: GenericValue) {
        let mut fields: Vec<(String, GenericValue)> = Vec::new();
        assert(fields_of(fields@) =~= Seq::empty());
        set_field(&mut fields, "code", self.code.push_to_lua());
        set_field(&mut fields, "geoname_id", self.geoname_id.push_to_lua());
        set_field(&mut fields, "names", self.names.push_to_lua());
        assert(fields_of(fields@) =~= self.lua_value()->Mapping_0);
        GenericValue::mapping(fields)
    }
}
impl PushToLua for CityInfo {
    open spec fn lua_value(&self) -> Value {
        Value::Mapping(
            seq![
                ("geoname_id"@, self.geoname_id.lua_value()),
                ("names"@, self.names.lua_value()),
            ],
        )
    }

    fn push_to_lua(&self) -> (v: GenericValue) {
        let mut fields: Vec<(String, GenericValue)> = Vec::new();
        assert(fields_of(fields@) =~= Seq::empty());
        set_field(&mut fields, "geoname_id", self.geoname_id.push_to_lua());
        set_field(&mut fields, "names", self.names.push_to_lua());
        assert(fields_of(fields@) =~= self.lua_value()->Mapping_0);
        GenericValue::mapping(fields)
    }
}
impl PushToLua for LocationInfo {
    open spec fn lua_value(&self) -> Value {
        Value::Mapping(
            seq![
                ("latitude"@, self.latitude.lua_value()),
                ("longitude"@, self.longitude.lua_value()),
                ("metro_code"@, self.metro_code.lua_value()),
                ("time_zone"@, self.time_zone.lua_value()),
            ],
        )
    }

    fn push_to_lua(&self) -> (v: GenericValue) {
        let mut fields: Vec<(String, GenericValue)> = Vec::new();
        assert(fields_of(fields@) =~= Seq::empty());
        set_field(&mut fields, "latitude", self.latitude.push_to_lua());
        set_field(&mut fields, "longitude", self.longitude.push_to_lua());
        set_field(&mut fields, "metro_code", self.metro_code.push_to_lua());
        set_field(&mut fields, "time_zone", self.time_zone.push_to_lua());
        assert(fields_of(fields@) =~= self.lua_value()->Mapping_0);
        GenericValue::mapping(fields)
    }
}
impl PushToLua for CountryRecord {
    open spec fn lua_value(&self) -> Value {
        Value::Mapping(
            seq![
                ("country"@, self.country.lua_value()),
                ("continent"@, self.continent.lua_value()),
                ("registered_country"@, self.registered_country.lua_value()),
                ("represented_country"@, self.represented_country.lua_value()),
                ("traits"@, self.traits.lua_value()),
            ],
        )
    }

    fn push_to_lua(&self) -> (v: GenericValue) {
        let mut fields: Vec<(String, GenericValue)> = Vec::new();
        assert(fields_of(fields@) =~= Seq::empty());
        set_field(&mut fields, "country", self.country.push_to_lua());
        set_field(&mut fields, "continent", self.continent.push_to_lua());
        set_field(&mut fields, "registered_country", self.registered_country.push_to_lua());
        set_field(&mut fields, "represented_country", self.represented_country.push_to_lua());
        set_field(&mut fields, "traits", self.traits.push_to_lua());
        assert(fields_of(fields@) =~= self.lua_value()->Mapping_0);
        GenericValue::mapping(fields)
    }
}
impl PushToLua for AnonymousIpRecord {
    open spec fn lua_value(&self) -> Value {
        Value::Mapping(
            seq![
                ("is_anonymous"@, self.is_anonymous.lua_value()),
                ("is_anonymous_vpn"@, self.is_anonymous_vpn.lua_value()),
                ("is_hosting_provider"@, self.is_hosting_provider.lua_value()),
                ("is_public_proxy"@, self.is_public_proxy.lua_value()),
                ("is_tor_exit_node"@, self.is_tor_exit_node.lua_value()),
            ],
        )
    }

    fn push_to_lua(&self) -> (v: GenericValue) {
        let mut fields: Vec<(String, GenericValue)> = Vec::new();
        assert(fields_of(fields@) =~= Seq::empty());
        set_field(&mut fields, "is_anonymous", self.is_anonymous.push_to_lua());
        set_field(&mut fields, "is_anonymous_vpn", self.is_anonymous_vpn.push_to_lua());
        set_field(&mut fields, "is_hosting_provider", self.is_hosting_provider.push_to_lua());
        set_field(&mut fields, "is_public_proxy", self.is_public_proxy.push_to_lua());
        set_field(&mut fields, "is_tor_exit_node", self.is_tor_exit_node.push_to_lua());
        assert(fields_of(fields@) =~= self.lua_value()->Mapping_0);
        GenericValue::mapping(fields)
    }
}
impl PushToLua for AsnRecord {
    open spec fn lua_value(&self) -> Value {
        Value::Mapping(
            seq![
                ("autonomous_system_number"@, self.autonomous_system_number.lua_value()),
                (
                    "autonomous_system_organization"@,
                    self.autonomous_system_organization.lua_value(),
                ),
            ],
        )
    }

    fn push_to_lua(&self) -> (v: GenericValue) {
        let mut fields: Vec<(String, GenericValue)> = Vec::new();
        assert(fields_of(fields@) =~= Seq::empty());
        set_field(
            &mut fields,
            "autonomous_system_number",
            self.autonomous_system_number.push_to_lua(),
        );
        set_field(
            &mut fields,
            "autonomous_system_organization",
            self.autonomous_system_organization.push_to_lua(),
        );
        assert(fields_of(fields@) =~= self.lua_value()->Mapping_0);
        GenericValue::mapping(fields)
    }
}
/// The sequence that stands for a list that may be missing: a missing list is
/// pushed as the empty sequence.
pub open spec fn list_value<T: PushToLua>(items: Option<Vec<T>>) -> Value {
    match items {
        Some(list) => list.lua_value(),
        None => Value::Sequence(Seq::empty()),
    }
}

/// Builds the sequence that stands for a list that may be missing.
pub fn push_list<T: PushToLua>(items: &Option<Vec<T>>) -> (v: GenericValue)
    ensures
        v@ == list_value(*items),
{
    match items {
        Some(list) => list.push_to_lua(),
        None => {
            let v = GenericValue::sequence(Vec::new());
            assert(v@->Sequence_0 =~= Seq::empty());
            v
        },
    }
}

impl PushToLua for CityRecord {
    open spec fn lua_value(&self) -> Value {
        Value::Mapping(
            seq![
                ("city"@, self.city.lua_value()),
                ("continent"@, self.continent.lua_value()),
                ("country"@, self.country.lua_value()),
                ("location"@, self.location.lua_value()),
                ("postal"@, self.postal.lua_value()),
                ("registered_country"@, self.registered_country.lua_value()),
                ("represented_country"@, self.represented_country.lua_value()),
                ("subdivisions"@, list_value(self.subdivisions)),
                ("traits"@, self.traits.lua_value()),
            ],
        )
    }

    fn push_to_lua(&self) -> (v: GenericValue) {
        let mut fields: Vec<(String, GenericValue)> = Vec::new();
        assert(fields_of(fields@) =~= Seq::empty());
        set_field(&mut fields, "city", self.city.push_to_lua());
        set_field(&mut fields, "continent", self.continent.push_to_lua());
        set_field(&mut fields, "country", self.country.push_to_lua());
        set_field(&mut fields, "location", self.location.push_to_lua());
        set_field(&mut fields, "postal", self.postal.push_to_lua());
        set_field(&mut fields, "registered_country", self.registered_country.push_to_lua());
        set_field(&mut fields, "represented_country", self.represented_country.push_to_lua());
        set_field(&mut fields, "subdivisions", push_list(&self.subdivisions));
        set_field(&mut fields, "traits", self.traits.push_to_lua());
        assert(fields_of(fields@) =~= self.lua_value()->Mapping_0);
        GenericValue::mapping(fields)
    }
}
impl PushToLua for ConnectionTypeRecord {
    open spec fn lua_value(&self) -> Value {
        Value::Mapping(
            seq![
                ("connection_type"@, self.connection_type.lua_value()),
            ],
        )
    }

    fn push_to_lua(&self) -> (v: GenericValue) {
        let mut fields: Vec<(String, GenericValue)> = Vec::new();
        assert(fields_of(fields@) =~= Seq::empty());
        set_field(&mut fields, "connection_type", self.connection_type.push_to_lua());
        assert(fields_of(fields@) =~= self.lua_value()->Mapping_0);
        GenericValue::mapping(fields)
    }
}
impl PushToLua for DensityIncomeRecord {
    open spec fn lua_value(&self) -> Value {
        Value::Mapping(
            seq![
                ("population_density"@, self.population_density.lua_value()),
                ("average_income"@, self.average_income.lua_value()),
            ],
        )
    }

    fn push_to_lua(&self) -> (v: GenericValue) {
        let mut fields: Vec<(String, GenericValue)> = Vec::new();
        assert(fields_of(fields@) =~= Seq::empty());
        set_field(&mut fields, "population_density", self.population_density.push_to_lua());
        set_field(&mut fields, "average_income", self.average_income.push_to_lua());
        assert(fields_of(fields@) =~= self.lua_value()->Mapping_0);
        GenericValue::mapping(fields)
    }
}
impl PushToLua for DomainRecord {
    open spec fn lua_value(&self) -> Value {
        Value::Mapping(
            seq![
                ("domain"@, self.domain.lua_value()),
            ],
        )
    }

    fn push_to_lua(&self) -> (v: GenericValue) {
        let mut fields: Vec<(String, GenericValue)> = Vec::new();
        assert(fields_of(fields@) =~= Seq::empty());
        set_field(&mut fields, "domain", self.domain.push_to_lua());
        assert(fields_of(fields@) =~= self.lua_value()->Mapping_0);
        GenericValue::mapping(fields)
    }
}
impl PushToLua for IspRecord {
    open spec fn lua_value(&self) -> Value {
        Value::Mapping(
            seq![
                ("autonomous_system_number"@, self.autonomous_system_number.lua_value()),
                (
                    "autonomous_system_organization"@,
                    self.autonomous_system_organization.lua_value(),
                ),
                ("isp"@, self.isp.lua_value()),
                ("organization"@, self.organization.lua_value()),
            ],
        )
    }

    fn push_to_lua(&self) -> (v: GenericValue) {
        let mut fields: Vec<(String, GenericValue)> = Vec::new();
        assert(fields_of(fields@) =~= Seq::empty());
        set_field(
            &mut fields,
            "autonomous_system_number",
            self.autonomous_system_number.push_to_lua(),
        );
        set_field(
            &mut fields,
            "autonomous_system_organization",
            self.autonomous_system_organization.push_to_lua(),
        );
        set_field(&mut fields, "isp", self.isp.push_to_lua());
        set_field(&mut fields, "organization", self.organization.push_to_lua());
        assert(fields_of(fields@) =~= self.lua_value()->Mapping_0);
        GenericValue::mapping(fields)
    }
}
/// A record is pushed as the record that it holds.
impl PushToLua for Record {
    open spec fn lua_value(&self) -> Value {
        match self {
            Record::AnonymousIp(r) => r.lua_value(),
            Record::Asn(r) => r.lua_value(),
            Record::City(r) => r.lua_value(),
            Record::ConnectionType(r) => r.lua_value(),
            Record::Country(r) => r.lua_value(),
            Record::DensityIncome(r) => r.lua_value(),
            Record::Domain(r) => r.lua_value(),
            Record::Isp(r) => r.lua_value(),
        }
    }

    fn push_to_lua(&self) -> (v: GenericValue) {
        match self {
            Record::AnonymousIp(r) => r.push_to_lua(),
            Record::Asn(r) => r.push_to_lua(),
            Record::City(r) => r.push_to_lua(),
            Record::ConnectionType(r) => r.push_to_lua(),
            Record::Country(r) => r.push_to_lua(),
            Record::DensityIncome(r) => r.push_to_lua(),
            Record::Domain(r) => r.push_to_lua(),
            Record::Isp(r) => r.push_to_lua(),
        }
    }
}

} // verus!
