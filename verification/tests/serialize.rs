use geoip_lookup::model::{
    CityInfo, ContinentInfo, CountryInfo, LocationInfo, PostalInfo, RepresentedCountryInfo,
    SubdivisionInfo, TraitsInfo,
};
use geoip_lookup::names::LocalizedNameTable;
use geoip_lookup::records::{
    AnonymousIpRecord, AsnRecord, CityRecord, ConnectionTypeRecord, CountryRecord,
    DensityIncomeRecord, DomainRecord, IspRecord, Record,
};
use geoip_lookup::registry::GeoIPRecord;
use geoip_lookup::serialize::{push_list, PushToLua};
use geoip_lookup::value::{push_item, set_field, Double, GenericValue, MAX_SEQUENCE_LEN};

fn table(entries: &[(&str, &str)]) -> LocalizedNameTable {
    let mut names = LocalizedNameTable::new();
    for (locale, name) in entries {
        names.insert(locale.to_string(), name.to_string());
    }
    names
}

fn text(s: &str) -> GenericValue {
    GenericValue::String(s.to_string())
}

fn field(name: &str, value: GenericValue) -> (String, GenericValue) {
    (name.to_string(), value)
}

fn field_names(value: &GenericValue) -> Vec<&str> {
    match value {
        GenericValue::Mapping(fields) => fields.iter().map(|(name, _)| name.as_str()).collect(),
        other => panic!("no mapping: {:?}", other),
    }
}

#[test]
fn scalars_are_pushed_as_they_are() {
    assert_eq!(true.push_to_lua(), GenericValue::Bool(true));
    assert_eq!(false.push_to_lua(), GenericValue::Bool(false));
    assert_eq!(0u32.push_to_lua(), GenericValue::Integer(0));
    assert_eq!(u32::MAX.push_to_lua(), GenericValue::Integer(4294967295));
    assert_eq!(807u16.push_to_lua(), GenericValue::Integer(807));
    assert_eq!(u16::MAX.push_to_lua(), GenericValue::Integer(65535));
    assert_eq!("Berlin".to_string().push_to_lua(), text("Berlin"));
    assert_eq!(String::new().push_to_lua(), text(""));
}

#[test]
fn floats_keep_their_bits() {
    let latitude = Double { bits: 52.52f64.to_bits() };
    match latitude.push_to_lua() {
        GenericValue::Float(x) => assert_eq!(f64::from_bits(x.bits), 52.52),
        other => panic!("{:?}", other),
    }
    let not_a_number = Double { bits: f64::NAN.to_bits() };
    assert_eq!(not_a_number.push_to_lua(), GenericValue::Float(not_a_number));
}

#[test]
fn missing_value_is_null() {
    assert_eq!(None::<bool>.push_to_lua(), GenericValue::Null);
    assert_eq!(None::<String>.push_to_lua(), GenericValue::Null);
    assert_eq!(None::<TraitsInfo>.push_to_lua(), GenericValue::Null);
    assert_eq!(Some(7u32).push_to_lua(), GenericValue::Integer(7));
    assert_eq!(Some(Some(false)).push_to_lua(), GenericValue::Bool(false));
}

#[test]
fn list_is_pushed_in_order() {
    let list = vec![3u32, 1, 2];
    assert_eq!(
        list.push_to_lua(),
        GenericValue::Sequence(vec![
            GenericValue::Integer(3),
            GenericValue::Integer(1),
            GenericValue::Integer(2),
        ])
    );
    assert_eq!(Vec::<u32>::new().push_to_lua(), GenericValue::Sequence(vec![]));
    assert_eq!(
        vec![Some(true), None].push_to_lua(),
        GenericValue::Sequence(vec![GenericValue::Bool(true), GenericValue::Null])
    );
}

#[test]
fn missing_list_is_the_empty_sequence() {
    assert_eq!(push_list(&None::<Vec<u32>>), GenericValue::Sequence(vec![]));
    assert_eq!(push_list(&Some(Vec::<u32>::new())), GenericValue::Sequence(vec![]));
    assert_eq!(
        push_list(&Some(vec![5u16])),
        GenericValue::Sequence(vec![GenericValue::Integer(5)])
    );
}

#[test]
fn sequence_limit_is_the_largest_lua_index() {
    assert_eq!(MAX_SEQUENCE_LEN, i32::MAX as usize);
}

#[test]
fn name_table_is_pushed_in_its_order() {
    let names = table(&[("ru", "Германия"), ("de", "Deutschland"), ("en", "Germany")]);
    assert_eq!(
        names.push_to_lua(),
        GenericValue::Mapping(vec![
            field("ru", text("Германия")),
            field("de", text("Deutschland")),
            field("en", text("Germany")),
        ])
    );
    assert_eq!(LocalizedNameTable::new().push_to_lua(), GenericValue::Mapping(vec![]));
}

#[test]
fn traits_fields() {
    let traits = TraitsInfo { is_anonymous_proxy: Some(true), is_satellite_provider: None };
    assert_eq!(
        traits.push_to_lua(),
        GenericValue::Mapping(vec![
            field("is_anonymous_proxy", GenericValue::Bool(true)),
            field("is_satellite_provider", GenericValue::Null),
        ])
    );
}

#[test]
fn subdivision_fields() {
    let subdivision = SubdivisionInfo {
        geoname_id: Some(2950157),
        iso_code: Some("BE".to_string()),
        names: Some(table(&[("en", "Land Berlin")])),
    };
    assert_eq!(
        subdivision.push_to_lua(),
        GenericValue::Mapping(vec![
            field("geoname_id", GenericValue::Integer(2950157)),
            field("iso_code", text("BE")),
            field("names", GenericValue::Mapping(vec![field("en", text("Land Berlin"))])),
        ])
    );
}

#[test]
fn postal_fields() {
    let postal = PostalInfo { code: Some("10115".to_string()) };
    assert_eq!(postal.push_to_lua(), GenericValue::Mapping(vec![field("code", text("10115"))]));
}

#[test]
fn represented_country_fields() {
    let country = RepresentedCountryInfo {
        geoname_id: Some(6252001),
        iso_code: Some("US".to_string()),
        names: None,
    };
    assert_eq!(
        country.push_to_lua(),
        GenericValue::Mapping(vec![
            field("names", GenericValue::Null),
            field("iso_code", text("US")),
            field("geoname_id", GenericValue::Integer(6252001)),
        ])
    );
}

#[test]
fn country_info_fields() {
    let country = CountryInfo {
        geoname_id: Some(2921044),
        is_in_european_union: Some(true),
        iso_code: Some("DE".to_string()),
        names: Some(table(&[("de", "Deutschland")])),
    };
    assert_eq!(
        country.push_to_lua(),
        GenericValue::Mapping(vec![
            field("names", GenericValue::Mapping(vec![field("de", text("Deutschland"))])),
            field("is_in_european_union", GenericValue::Bool(true)),
            field("iso_code", text("DE")),
            field("geoname_id", GenericValue::Integer(2921044)),
        ])
    );
}

#[test]
fn continent_fields() {
    let continent = ContinentInfo { code: Some("EU".to_string()), geoname_id: None, names: None };
    assert_eq!(
        continent.push_to_lua(),
        GenericValue::Mapping(vec![
            field("code", text("EU")),
            field("geoname_id", GenericValue::Null),
            field("names", GenericValue::Null),
        ])
    );
}

#[test]
fn city_info_fields() {
    let city = CityInfo { geoname_id: Some(2950159), names: Some(table(&[("en", "Berlin")])) };
    assert_eq!(
        city.push_to_lua(),
        GenericValue::Mapping(vec![
            field("geoname_id", GenericValue::Integer(2950159)),
            field("names", GenericValue::Mapping(vec![field("en", text("Berlin"))])),
        ])
    );
}

#[test]
fn location_fields() {
    let location = LocationInfo {
        latitude: Some(Double { bits: 52.52f64.to_bits() }),
        longitude: None,
        metro_code: Some(0),
        time_zone: Some("Europe/Berlin".to_string()),
    };
    assert_eq!(
        location.push_to_lua(),
        GenericValue::Mapping(vec![
            field("latitude", GenericValue::Float(Double { bits: 52.52f64.to_bits() })),
            field("longitude", GenericValue::Null),
            field("metro_code", GenericValue::Integer(0)),
            field("time_zone", text("Europe/Berlin")),
        ])
    );
}

fn germany() -> CountryRecord {
    CountryRecord {
        continent: Some(ContinentInfo {
            code: Some("EU".to_string()),
            geoname_id: Some(6255148),
            names: Some(table(&[("en", "Europe")])),
        }),
        country: Some(CountryInfo {
            geoname_id: Some(2921044),
            is_in_european_union: Some(true),
            iso_code: Some("DE".to_string()),
            names: Some(table(&[("de", "Deutschland"), ("en", "Germany")])),
        }),
        registered_country: None,
        represented_country: None,
        traits: None,
    }
}

#[test]
fn country_record_fields_keep_their_order() {
    let record = germany();
    let first = record.push_to_lua();
    let second = record.push_to_lua();
    assert_eq!(first, second);
    let order = ["country", "continent", "registered_country", "represented_country", "traits"];
    assert_eq!(field_names(&first), order);
    assert_eq!(field_names(&second), order);
    assert_eq!(field_names(&CountryRecord::empty().push_to_lua()), order);
}

#[test]
fn every_kind_of_record_has_its_fields() {
    let expected: [(GeoIPRecord, &[&str]); 8] = [
        (
            GeoIPRecord::AnonymousIp,
            &[
                "is_anonymous",
                "is_anonymous_vpn",
                "is_hosting_provider",
                "is_public_proxy",
                "is_tor_exit_node",
            ],
        ),
        (GeoIPRecord::Asn, &["autonomous_system_number", "autonomous_system_organization"]),
        (
            GeoIPRecord::City,
            &[
                "city",
                "continent",
                "country",
                "location",
                "postal",
                "registered_country",
                "represented_country",
                "subdivisions",
                "traits",
            ],
        ),
        (GeoIPRecord::ConnectionType, &["connection_type"]),
        (
            GeoIPRecord::Country,
            &["country", "continent", "registered_country", "represented_country", "traits"],
        ),
        (GeoIPRecord::DensityIncome, &["population_density", "average_income"]),
        (GeoIPRecord::Domain, &["domain"]),
        (
            GeoIPRecord::Isp,
            &["autonomous_system_number", "autonomous_system_organization", "isp", "organization"],
        ),
    ];
    for (kind, names) in expected {
        assert_eq!(field_names(&kind.empty().push_to_lua()), names);
    }
}

#[test]
fn empty_records_have_no_field() {
    assert_eq!(
        AnonymousIpRecord::empty(),
        AnonymousIpRecord {
            is_anonymous: None,
            is_anonymous_vpn: None,
            is_hosting_provider: None,
            is_public_proxy: None,
            is_tor_exit_node: None,
        }
    );
    assert_eq!(
        AsnRecord::empty(),
        AsnRecord { autonomous_system_number: None, autonomous_system_organization: None }
    );
    assert_eq!(ConnectionTypeRecord::empty(), ConnectionTypeRecord { connection_type: None });
    assert_eq!(
        DensityIncomeRecord::empty(),
        DensityIncomeRecord { average_income: None, population_density: None }
    );
    assert_eq!(DomainRecord::empty(), DomainRecord { domain: None });
    assert_eq!(
        IspRecord::empty(),
        IspRecord {
            autonomous_system_number: None,
            autonomous_system_organization: None,
            isp: None,
            organization: None,
        }
    );
    assert_eq!(GeoIPRecord::Country.empty(), Record::Country(CountryRecord::empty()));
    assert_eq!(GeoIPRecord::City.empty(), Record::City(CityRecord::empty()));
    assert_eq!(
        CityRecord::empty().push_to_lua(),
        GenericValue::Mapping(vec![
            field("city", GenericValue::Null),
            field("continent", GenericValue::Null),
            field("country", GenericValue::Null),
            field("location", GenericValue::Null),
            field("postal", GenericValue::Null),
            field("registered_country", GenericValue::Null),
            field("represented_country", GenericValue::Null),
            field("subdivisions", GenericValue::Sequence(vec![])),
            field("traits", GenericValue::Null),
        ])
    );
}

#[test]
fn record_is_pushed_as_what_it_holds() {
    let record = Record::Country(germany());
    assert_eq!(record.push_to_lua(), germany().push_to_lua());
    let record = Record::Domain(DomainRecord { domain: Some("example.org".to_string()) });
    assert_eq!(
        record.push_to_lua(),
        GenericValue::Mapping(vec![field("domain", text("example.org"))])
    );
}

#[test]
fn values_are_built_from_their_parts() {
    let mut items = Vec::new();
    push_item(&mut items, GenericValue::Integer(1));
    push_item(&mut items, GenericValue::Null);
    assert_eq!(
        GenericValue::sequence(items),
        GenericValue::Sequence(vec![GenericValue::Integer(1), GenericValue::Null])
    );
    let mut fields = Vec::new();
    set_field(&mut fields, "b", GenericValue::Bool(true));
    set_field(&mut fields, "a", text("x"));
    assert_eq!(
        GenericValue::mapping(fields),
        GenericValue::Mapping(vec![field("b", GenericValue::Bool(true)), field("a", text("x"))])
    );
}
