use geoip_lookup::database::{init_db, probed, DatabaseLocation, Discovery, HandleState};
use geoip_lookup::error::{DBError, LookupError, MaybeBorrowed, ParseError};

/// Runs the search for the database file, given which of the two files exist.
fn search(primary_exists: bool, fallback_exists: bool) -> Result<DatabaseLocation, DBError> {
    let mut step = init_db();
    let mut probes = 0;
    loop {
        match step {
            Discovery::Probe(location) => {
                probes += 1;
                assert!(probes <= 2);
                let exists = match location {
                    DatabaseLocation::Primary => primary_exists,
                    DatabaseLocation::Fallback => fallback_exists,
                };
                step = probed(location, exists)?;
            }
            Discovery::Open(location) => return Ok(location),
        }
    }
}

#[test]
fn search_starts_at_the_primary_location() {
    assert_eq!(init_db(), Discovery::Probe(DatabaseLocation::Primary));
}

#[test]
fn paths_of_the_locations() {
    assert_eq!(DatabaseLocation::Primary.path(), "garrysmod/maxminddb.mmdb");
    assert_eq!(DatabaseLocation::Fallback.path(), "garrysmod/data/maxminddb.dat");
}

#[test]
fn existing_file_is_opened() {
    assert_eq!(
        probed(DatabaseLocation::Primary, true),
        Ok(Discovery::Open(DatabaseLocation::Primary))
    );
    assert_eq!(
        probed(DatabaseLocation::Fallback, true),
        Ok(Discovery::Open(DatabaseLocation::Fallback))
    );
}

#[test]
fn missing_primary_leads_to_the_fallback() {
    assert_eq!(
        probed(DatabaseLocation::Primary, false),
        Ok(Discovery::Probe(DatabaseLocation::Fallback))
    );
}

#[test]
fn missing_fallback_means_not_installed() {
    assert_eq!(probed(DatabaseLocation::Fallback, false), Err(DBError::NotInstalled));
}

#[test]
fn first_existing_file_wins() {
    assert_eq!(search(true, true), Ok(DatabaseLocation::Primary));
    assert_eq!(search(true, false), Ok(DatabaseLocation::Primary));
    assert_eq!(search(false, true), Ok(DatabaseLocation::Fallback));
    assert_eq!(search(false, false), Err(DBError::NotInstalled));
}

#[test]
fn missing_files_are_told_as_not_installed() {
    let outcome = search(false, false).map(|_| unreachable!());
    let mut state = HandleState::new(outcome);
    assert!(matches!(state.current(), Err(DBError::NotInstalled)));
    let again = search(false, false).map(|_| unreachable!());
    assert_eq!(state.refresh(again), Err(DBError::NotInstalled));
    assert!(matches!(state.current(), Err(DBError::NotInstalled)));
}

#[test]
fn not_installed_message() {
    assert_eq!(
        DBError::NotInstalled.to_string(),
        "You didn't install the MaxMindDB database! I expected to find one in garrysmod/maxminddb.mmdb or garrysmod/data/maxminddb.dat, you can get it from here: https://maxmind.com"
    );
}

#[test]
fn internal_error_message_is_the_engine_message() {
    let error = DBError::Internal("InvalidDatabaseError: unknown record size: 13".to_string());
    assert_eq!(error.to_string(), "InvalidDatabaseError: unknown record size: 13");
    assert_eq!(DBError::Internal(String::new()).to_string(), "");
}

#[test]
fn errors_are_cloned_as_they_are() {
    let error = DBError::Internal("IoError: gone".to_string());
    assert_eq!(error.clone(), error);
    assert_eq!(DBError::NotInstalled.clone(), DBError::NotInstalled);
}

#[test]
fn borrowed_and_owned_give_the_same_reference() {
    let error = DBError::Internal("x".to_string());
    let borrowed = MaybeBorrowed::Borrowed(&error);
    assert_eq!(borrowed.as_ref(), &error);
    let owned = MaybeBorrowed::Owned(DBError::NotInstalled);
    assert_eq!(owned.as_ref(), &DBError::NotInstalled);
    let number = MaybeBorrowed::Owned(5);
    assert_eq!(*number.as_ref(), 5);
}

#[test]
fn lookup_error_messages() {
    let error = LookupError::Parse(ParseError::InvalidAddress("empty".to_string()));
    assert_eq!(error.to_string(), "Invalid IP address: empty");
    let error = LookupError::Parse(ParseError::UnknownRecordType(12));
    assert_eq!(error.to_string(), "Unknown or invalid GeoIP record type");
    let reason = DBError::NotInstalled;
    let error = LookupError::Database(MaybeBorrowed::Borrowed(&reason));
    assert_eq!(error.to_string(), reason.to_string());
    let error = LookupError::Database(MaybeBorrowed::Owned(DBError::Internal(
        "DecodingError: no more entries".to_string(),
    )));
    assert_eq!(error.to_string(), "DecodingError: no more entries");
}

#[test]
fn failed_state_keeps_its_reason() {
    let state = HandleState::new(Err(DBError::Internal("MapError: x".to_string())));
    match state.current() {
        Err(DBError::Internal(detail)) => assert_eq!(detail, "MapError: x"),
        _ => panic!("the state is not failed"),
    }
}
