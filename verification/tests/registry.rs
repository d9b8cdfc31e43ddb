use geoip_lookup::api::{parse_address, parse_record_type};
use geoip_lookup::address::IpAddress;
use geoip_lookup::error::ParseError;
use geoip_lookup::registry::{GeoIPRecord, RECORD_COUNT};

#[test]
fn codes_of_the_kinds() {
    assert_eq!(GeoIPRecord::AnonymousIp.code(), 0);
    assert_eq!(GeoIPRecord::Asn.code(), 1);
    assert_eq!(GeoIPRecord::City.code(), 2);
    assert_eq!(GeoIPRecord::ConnectionType.code(), 3);
    assert_eq!(GeoIPRecord::Country.code(), 4);
    assert_eq!(GeoIPRecord::DensityIncome.code(), 5);
    assert_eq!(GeoIPRecord::Domain.code(), 6);
    assert_eq!(GeoIPRecord::Isp.code(), 7);
}

#[test]
fn names_of_the_kinds() {
    let names: Vec<&str> = GeoIPRecord::all().iter().map(|kind| kind.name()).collect();
    assert_eq!(
        names,
        vec![
            "AnonymousIp",
            "Asn",
            "City",
            "ConnectionType",
            "Country",
            "DensityIncome",
            "Domain",
            "Isp"
        ]
    );
}

#[test]
fn every_kind_stands_at_its_code() {
    let all = GeoIPRecord::all();
    assert_eq!(all.len(), RECORD_COUNT);
    for (index, kind) in all.iter().enumerate() {
        assert_eq!(kind.code(), index as isize);
        assert_eq!(GeoIPRecord::try_from(index as isize), Ok(*kind));
        assert_eq!(parse_record_type(kind.code()), Ok(*kind));
    }
}

#[test]
fn integers_outside_the_codes_are_rejected() {
    for code in [-1, 8, 9, 100, isize::MAX, isize::MIN, -8] {
        assert_eq!(GeoIPRecord::try_from(code), Err(code));
        assert_eq!(parse_record_type(code), Err(ParseError::UnknownRecordType(code)));
    }
    assert_eq!(
        ParseError::UnknownRecordType(8).to_string(),
        "Unknown or invalid GeoIP record type"
    );
}

#[test]
fn first_and_last_code_are_accepted() {
    assert_eq!(parse_record_type(0), Ok(GeoIPRecord::AnonymousIp));
    assert_eq!(parse_record_type(7), Ok(GeoIPRecord::Isp));
    assert_eq!(parse_record_type(4), Ok(GeoIPRecord::Country));
}

#[test]
fn parsed_address_is_handed_on() {
    let address = IpAddress::V4([127, 0, 0, 1]);
    assert_eq!(parse_address(Ok(address)), Ok(address));
    let address = IpAddress::V6([0, 0, 0, 0, 0, 0, 0, 0, 0, 0, 0, 0, 0, 0, 0, 1]);
    assert_eq!(parse_address(Ok(address)), Ok(address));
}

#[test]
fn address_that_did_not_parse_is_invalid() {
    let error = parse_address(Err("invalid IP address syntax".to_string())).unwrap_err();
    assert_eq!(error, ParseError::InvalidAddress("invalid IP address syntax".to_string()));
    assert_eq!(error.to_string(), "Invalid IP address: invalid IP address syntax");
    let error = parse_address(Err(String::new())).unwrap_err();
    assert_eq!(error.to_string(), "Invalid IP address: ");
}
