//! What the host calls: the lookup of a record and the name of a country.

use crate::address::IpAddress;
use crate::database::HandleState;
use crate::engine::{database_entry, lookup_country, Answer};
use crate::error::{DBError, LookupError, MaybeBorrowed, ParseError};
use crate::names::resolved_name;
use crate::records::{CountryRecord, Record};
use crate::registry::{empty_record, kind_of, record_kind, GeoIPRecord};
use crate::serialize::PushToLua;
use crate::value::GenericValue;
use vstd::prelude::*;

verus! {

/// The locale of a country's name where the host names none.
pub const DEFAULT_LOCALE: &'static str = "en";

/// The address that the host's text was parsed to, or why it is none.
/// `parsed` is what the address parser made of the text: the address, or the
/// message of its error.
pub fn parse_address(parsed: Result<IpAddress, String>) -> (r: Result<IpAddress, ParseError>)
    ensures
        r == match parsed {
            Ok(ip) => Ok::<IpAddress, ParseError>(ip),
            Err(detail) => Err::<IpAddress, ParseError>(ParseError::InvalidAddress(detail)),
        },
{
    match parsed {
        Ok(ip) => Ok(ip),
        Err(detail) => Err(ParseError::InvalidAddress(detail)),
    }
}

/// The kind of record with code `code`, or why there is none.
pub fn parse_record_type(code: isize) -> (r: Result<GeoIPRecord, ParseError>)
    ensures
        r == match kind_of(code as int) {
            Some(kind) => Ok::<GeoIPRecord, ParseError>(kind),
            None => Err::<GeoIPRecord, ParseError>(ParseError::UnknownRecordType(code)),
        },
        r is Ok <==> 0 <= code <= 7,
{
    match GeoIPRecord::try_from(code) {
        Ok(kind) => Ok(kind),
        Err(code) => Err(ParseError::UnknownRecordType(code)),
    }
}

/// Whether `r` is the reply to a query, where the database answers `answer`
/// for the `kind` that is asked for.
pub open spec fn is_query_answer(
    answer: Answer,
    kind: GeoIPRecord,
    r: Result<GenericValue, LookupError<'_>>,
) -> bool {
    match answer {
        Answer::Found(record) => r matches Ok(v) && v@ == record.lua_value() && record_kind(record)
            == kind,
        Answer::Missing => r matches Ok(v) && v@ == empty_record(kind).lua_value(),
        Answer::Refused(message) => r matches Err(
            LookupError::Database(MaybeBorrowed::Owned(DBError::Internal(detail))),
        ) && detail@ == message,
        Answer::Undefined => false,
    }
}

/// Whether `r` is the reply to the query for the record with code `code` at
/// `address`, in a context in state `state`. In this order: an address that
/// did not parse is an error; a code of no record type is an error; a context
/// without database gives its reason as the error; else the reply is what
/// the database answers.
pub open spec fn is_query_reply(
    state: HandleState,
    address: Result<IpAddress, String>,
    code: isize,
    r: Result<GenericValue, LookupError<'_>>,
) -> bool {
    match address {
        Err(detail) => r matches Err(LookupError::Parse(e)) && e == ParseError::InvalidAddress(
            detail,
        ),
        Ok(ip) => match kind_of(code as int) {
            None => r matches Err(LookupError::Parse(e)) && e == ParseError::UnknownRecordType(
                code,
            ),
            Some(kind) => match state {
                HandleState::Failed(reason) => r matches Err(
                    LookupError::Database(MaybeBorrowed::Borrowed(e)),
                ) && *e == reason,
                HandleState::Ready(db) => is_query_answer(database_entry(db@, ip, kind), kind, r),
            },
        },
    }
}

/// Looks up the record with code `code` at `address` and builds the value
/// that stands for it. `address` is what the address parser made of the
/// host's text: the address, or the message of its error.
pub fn query<'a>(state: &'a HandleState, address: Result<IpAddress, String>, code: isize) -> (r:
    Result<GenericValue, LookupError<'a>>)
    ensures
        is_query_reply(*state, address, code, r),
{
    let ip = match parse_address(address) {
        Ok(ip) => ip,
        Err(e) => {
            return Err(LookupError::Parse(e));
        },
    };
    let record = match parse_record_type(code) {
        Ok(record) => record,
        Err(e) => {
            return Err(LookupError::Parse(e));
        },
    };
    match state.current() {
        Err(e) => Err(LookupError::Database(MaybeBorrowed::Borrowed(e))),
        Ok(db) => match record.lookup(db, ip) {
            Ok(v) => Ok(v),
            Err(e) => Err(LookupError::Database(MaybeBorrowed::Owned(e))),
        },
    }
}

/// The name of the country of `record` for a request in `lang`: the best
/// name of its country's name table; none where the record has no country or
/// the country no names.
pub open spec fn country_name(record: CountryRecord, lang: Seq<char>) -> Option<Seq<char>> {
    match record.country {
        Some(country) => resolved_name(country.names, lang),
        None => None,
    }
}

/// The name of the country of `country` for a request in `lang`.
pub fn extract_country<'b>(country: &'b CountryRecord, lang: &str) -> (name: Option<&'b String>)
    ensures
        match name {
            Some(n) => country_name(*country, lang@) == Some(n@),
            None => country_name(*country, lang@) is None,
        },
{
    match &country.country {
        Some(info) => match &info.names {
            Some(names) => names.resolve(lang),
            None => None,
        },
        None => None,
    }
}

/// The locale that is asked for: `lang`, or `en` where the host names none.
pub open spec fn requested_locale(lang: Option<&str>) -> Seq<char> {
    match lang {
        Some(lang) => lang@,
        None => "en"@,
    }
}

/// Whether `r` is the reply to the request for a country's name, where the
/// database answers `answer`.
pub open spec fn is_country_answer(
    answer: Answer,
    lang: Seq<char>,
    r: Result<Option<String>, LookupError<'_>>,
) -> bool {
    match answer {
        Answer::Found(Record::Country(record)) => r matches Ok(name) && match name {
            Some(n) => country_name(record, lang) == Some(n@),
            None => country_name(record, lang) is None,
        },
        Answer::Found(_) => false,
        Answer::Missing => r matches Ok(None),
        Answer::Refused(message) => r matches Err(
            LookupError::Database(MaybeBorrowed::Owned(DBError::Internal(detail))),
        ) && detail@ == message,
        Answer::Undefined => false,
    }
}

/// Whether `r` is the reply to the request for the name, in `lang`, of the
/// country of `address`, in a context in state `state`. In this order: an
/// address that did not parse is an error; a context without database gives
/// its reason as the error; else the reply is the name of the country of the
/// record that the database holds, if it has one.
pub open spec fn is_country_reply(
    state: HandleState,
    address: Result<IpAddress, String>,
    lang: Option<&str>,
    r: Result<Option<String>, LookupError<'_>>,
) -> bool {
    match address {
        Err(detail) => r matches Err(LookupError::Parse(e)) && e == ParseError::InvalidAddress(
            detail,
        ),
        Ok(ip) => match state {
            HandleState::Failed(reason) => r matches Err(
                LookupError::Database(MaybeBorrowed::Borrowed(e)),
            ) && *e == reason,
            HandleState::Ready(db) => is_country_answer(
                database_entry(db@, ip, GeoIPRecord::Country),
                requested_locale(lang),
                r,
            ),
        },
    }
}

/// Looks up the country of `address` and picks its name for `lang`, or for
/// `en` where `lang` is missing. `address` is what the address parser made of
/// the host's text: the address, or the message of its error.
pub fn country<'a>(
    state: &'a HandleState,
    address: Result<IpAddress, String>,
    lang: Option<&str>,
) -> (r: Result<Option<String>, LookupError<'a>>)
    ensures
        is_country_reply(*state, address, lang, r),
{
    let ip = match parse_address(address) {
        Ok(ip) => ip,
        Err(e) => {
            return Err(LookupError::Parse(e));
        },
    };
    let lang = match lang {
        Some(lang) => lang,
        None => DEFAULT_LOCALE,
    };
    let db = match state.current() {
        Ok(db) => db,
        Err(e) => {
            return Err(LookupError::Database(MaybeBorrowed::Borrowed(e)));
        },
    };
    match lookup_country(db.reader(), ip) {
        Ok(Some(record)) => match extract_country(&record, lang) {
            Some(name) => Ok(Some(name.clone())),
            None => Ok(None),
        },
        Ok(None) => Ok(None),
        Err(message) => Err(
            LookupError::Database(MaybeBorrowed::Owned(DBError::Internal(message))),
        ),
    }
}

} // verus!
