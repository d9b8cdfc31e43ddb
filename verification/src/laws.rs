//! What holds of the library as a whole.

use crate::address::IpAddress;
use crate::api::{is_country_reply, is_query_reply};
use crate::database::{
    after_probe, discovered, refresh_result, state_of, DatabaseHandle, DatabaseLocation,
    Discovery, HandleState,
};
use crate::engine::Answer;
use crate::error::{not_installed_text, DBError, LookupError};
use crate::names::{
    best_name, lemma_name_for, lemma_name_for_unique, name_for, unique_locales, Names,
};
use crate::records::Record;
use crate::registry::{
    code_of, empty_record, is_looked_up, kind_of, name_of, record_kind, schema_of, GeoIPRecord,
};
use crate::serialize::{names_value, PushToLua};
use crate::value::GenericValue;
use vstd::prelude::*;

verus! {

/// Whether two replies to a query say the same: the same value, or an error
/// with the same text.
pub open spec fn same_reply(
    first: Result<GenericValue, LookupError<'_>>,
    second: Result<GenericValue, LookupError<'_>>,
) -> bool {
    match (first, second) {
        (Ok(a), Ok(b)) => a@ == b@,
        (Err(a), Err(b)) => a.text() == b.text(),
        _ => false,
    }
}

/// Two lookups of one kind of record at one address in one database give the
/// same value, or both the engine's same message.
pub proof fn lemma_lookup_is_repeatable(
    answer: Answer,
    kind: GeoIPRecord,
    first: Result<GenericValue, DBError>,
    second: Result<GenericValue, DBError>,
)
    requires
        is_looked_up(answer, kind, first),
        is_looked_up(answer, kind, second),
    ensures
        match (first, second) {
            (Ok(a), Ok(b)) => a@ == b@,
            (Err(a), Err(b)) => a.text() == b.text(),
            _ => false,
        },
{
}

/// Two queries with one address and one code in a context whose state is the
/// same get the same reply.
pub proof fn lemma_query_is_repeatable(
    state: HandleState,
    address: Result<IpAddress, String>,
    code: isize,
    first: Result<GenericValue, LookupError<'_>>,
    second: Result<GenericValue, LookupError<'_>>,
)
    requires
        is_query_reply(state, address, code, first),
        is_query_reply(state, address, code, second),
    ensures
        same_reply(first, second),
{
}

/// The value of a record is a mapping whose fields are those of the schema of
/// its kind, in the order of the schema; so two values built of one record
/// have the same fields in the same order.
pub proof fn lemma_record_fields_follow_schema(record: Record)
    ensures
        record.lua_value() is Mapping,
        record.lua_value().field_names() == schema_of(record_kind(record)),
{
    assert(record.lua_value().field_names() =~= schema_of(record_kind(record)));
}

/// The empty record of a kind is of that kind.
pub proof fn lemma_empty_record_kind(kind: GeoIPRecord)
    ensures
        record_kind(empty_record(kind)) == kind,
{
}

/// Whatever a lookup finds, its value has the fields of the schema of the
/// kind that was asked for, in the order of the schema.
pub proof fn lemma_lookup_follows_schema(
    answer: Answer,
    kind: GeoIPRecord,
    r: Result<GenericValue, DBError>,
)
    requires
        is_looked_up(answer, kind, r),
    ensures
        r matches Ok(v) ==> v@ is Mapping && v@.field_names() == schema_of(kind),
{
    match answer {
        Answer::Found(record) => {
            lemma_record_fields_follow_schema(record);
        },
        Answer::Missing => {
            lemma_record_fields_follow_schema(empty_record(kind));
        },
        _ => {},
    }
}

/// The best name of a table with unique locale codes, for a request in
/// `locale`: the name of the entry with that locale, else of the one with
/// `en`, else of the one with `en-US`, else of the first entry; and none
/// exactly where the table is empty.
pub proof fn lemma_fallback_order(entries: Names, locale: Seq<char>)
    requires
        unique_locales(entries),
    ensures
        forall|i: int|
            #![trigger entries[i]]
            0 <= i < entries.len() && entries[i].0 == locale ==> best_name(entries, locale)
                == Some(entries[i].1),
        forall|i: int|
            #![trigger entries[i]]
            name_for(entries, locale) is None && 0 <= i < entries.len() && entries[i].0 == "en"@
                ==> best_name(entries, locale) == Some(entries[i].1),
        forall|i: int|
            #![trigger entries[i]]
            name_for(entries, locale) is None && name_for(entries, "en"@) is None && 0 <= i
                < entries.len() && entries[i].0 == "en-US"@ ==> best_name(entries, locale) == Some(
                entries[i].1,
            ),
        name_for(entries, locale) is None && name_for(entries, "en"@) is None && name_for(
            entries,
            "en-US"@,
        ) is None && entries.len() > 0 ==> best_name(entries, locale) == Some(entries[0].1),
        best_name(entries, locale) is None <==> entries.len() == 0,
{
    lemma_name_for(entries, locale);
    lemma_name_for(entries, "en"@);
    lemma_name_for(entries, "en-US"@);
    assert forall|i: int| #![trigger entries[i]] 0 <= i < entries.len() implies name_for(
        entries,
        entries[i].0,
    ) == Some(entries[i].1) by {
        lemma_name_for_unique(entries, entries[i].0, i);
    }
}

/// The mapping that stands for a table with unique locale codes has one
/// field for each entry, named by its locale code: each locale once.
pub proof fn lemma_each_locale_once(entries: Names)
    requires
        unique_locales(entries),
    ensures
        names_value(entries).field_names().len() == entries.len(),
        forall|i: int|
            0 <= i < entries.len() ==> #[trigger] names_value(entries).field_names()[i]
                == entries[i].0,
        names_value(entries).field_names().no_duplicates(),
{
    let fields = names_value(entries).field_names();
    assert forall|i: int, j: int|
        0 <= i < fields.len() && 0 <= j < fields.len() && i != j implies fields[i] != fields[j] by {
        if i < j {
            assert(entries[i].0 != entries[j].0);
        } else {
            assert(entries[j].0 != entries[i].0);
        }
    }
}

/// The dialogue that finds the database file ends with the first of the two
/// files that exists, and with `NotInstalled` where neither does.
pub proof fn lemma_first_existing_file_wins(primary_exists: bool, fallback_exists: bool)
    ensures
        match after_probe(DatabaseLocation::Primary, primary_exists) {
            Ok(Discovery::Open(location)) => discovered(primary_exists, fallback_exists) == Ok::<
                DatabaseLocation,
                DBError,
            >(location),
            Ok(Discovery::Probe(next)) => next == DatabaseLocation::Fallback && match after_probe(
                next,
                fallback_exists,
            ) {
                Ok(Discovery::Open(location)) => discovered(primary_exists, fallback_exists)
                    == Ok::<DatabaseLocation, DBError>(location),
                Ok(Discovery::Probe(_)) => false,
                Err(e) => discovered(primary_exists, fallback_exists) == Err::<
                    DatabaseLocation,
                    DBError,
                >(e),
            },
            Err(_) => false,
        },
        discovered(primary_exists, fallback_exists) is Err <==> !primary_exists
            && !fallback_exists,
        discovered(primary_exists, fallback_exists) matches Err(e) ==> e == DBError::NotInstalled,
{
}

/// Where neither file exists, the search ends with `NotInstalled`, and a
/// context that records this tells just that: `current` gives it, a refresh
/// hands it back, and to every query and every request for a country's name,
/// with an address that parsed and the code of a record type, the reply is
/// this error, with its text.
pub proof fn lemma_missing_files_are_not_installed(
    ip: IpAddress,
    code: isize,
    lang: Option<&str>,
    reply: Result<GenericValue, LookupError<'_>>,
    name: Result<Option<String>, LookupError<'_>>,
)
    requires
        kind_of(code as int) is Some,
        is_query_reply(state_of(Err(DBError::NotInstalled)), Ok(ip), code, reply),
        is_country_reply(state_of(Err(DBError::NotInstalled)), Ok(ip), lang, name),
    ensures
        discovered(false, false) == Err::<DatabaseLocation, DBError>(DBError::NotInstalled),
        state_of(Err(DBError::NotInstalled)).current_of() == Err::<DatabaseHandle, DBError>(
            DBError::NotInstalled,
        ),
        refresh_result(Err(DBError::NotInstalled)) == Err::<(), DBError>(DBError::NotInstalled),
        reply matches Err(LookupError::Database(e)) && e.value() == DBError::NotInstalled,
        reply matches Err(e) && e.text() == not_installed_text(),
        name matches Err(LookupError::Database(e)) && e.value() == DBError::NotInstalled,
        name matches Err(e) && e.text() == not_installed_text(),
{
}

/// The states of the contexts of a host after context `refreshed` recorded
/// `outcome`.
pub open spec fn after_refresh(
    contexts: Seq<HandleState>,
    refreshed: int,
    outcome: Result<DatabaseHandle, DBError>,
) -> Seq<HandleState> {
    contexts.update(refreshed, state_of(outcome))
}

/// A refresh changes the state of its own context alone: whatever the
/// outcome, every other context is in the state it was in, and so replies as
/// it did.
pub proof fn lemma_refresh_is_isolated(
    contexts: Seq<HandleState>,
    refreshed: int,
    other: int,
    outcome: Result<DatabaseHandle, DBError>,
    address: Result<IpAddress, String>,
    code: isize,
    reply: Result<GenericValue, LookupError<'_>>,
)
    requires
        0 <= refreshed < contexts.len(),
        0 <= other < contexts.len(),
        refreshed != other,
        is_query_reply(contexts[other], address, code, reply),
    ensures
        after_refresh(contexts, refreshed, outcome)[refreshed] == state_of(outcome),
        after_refresh(contexts, refreshed, outcome)[other] == contexts[other],
        is_query_reply(after_refresh(contexts, refreshed, outcome)[other], address, code, reply),
{
}

/// Each kind is found again by its code, and the codes are just 0 to 7: an
/// integer outside that range is the code of no kind.
pub proof fn lemma_codes(kind: GeoIPRecord, code: int)
    ensures
        kind_of(code_of(kind)) == Some(kind),
        0 <= code_of(kind) <= 7,
        kind_of(code) is Some <==> 0 <= code <= 7,
        kind_of(code) matches Some(k) ==> code_of(k) == code,
{
}

/// Two kinds with one name are one kind.
pub proof fn lemma_names_tell_kinds_apart(a: GeoIPRecord, b: GeoIPRecord)
    requires
        name_of(a) == name_of(b),
    ensures
        a == b,
{
    reveal_strlit("AnonymousIp");
    reveal_strlit("Asn");
    reveal_strlit("City");
    reveal_strlit("ConnectionType");
    reveal_strlit("Country");
    reveal_strlit("DensityIncome");
    reveal_strlit("Domain");
    reveal_strlit("Isp");
    assert("AnonymousIp"@.len() == 11);
    assert("Asn"@.len() == 3 && "Asn"@[0] == 'A');
    assert("City"@.len() == 4);
    assert("ConnectionType"@.len() == 14);
    assert("Country"@.len() == 7);
    assert("DensityIncome"@.len() == 13);
    assert("Domain"@.len() == 6);
    assert("Isp"@.len() == 3 && "Isp"@[0] == 'I');
}

} // verus!
