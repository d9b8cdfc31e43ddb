//! What can go wrong, and how it is told to the host.

use vstd::prelude::*;
use vstd::string::StringExecFns;

verus! {

/// A value that is either borrowed or owned.
#[derive(Debug)]
pub enum MaybeBorrowed<'a, T> {
    Borrowed(&'a T),
    Owned(T),
}

impl<'a, T> MaybeBorrowed<'a, T> {
    /// The value.
    pub open spec fn value(self) -> T {
        match self {
            MaybeBorrowed::Borrowed(borrowed) => *borrowed,
            MaybeBorrowed::Owned(owned) => owned,
        }
    }

    /// A reference to the value.
    pub fn as_ref(&self) -> (r: &T)
        ensures
            *r == self.value(),
    {
        match self {
            MaybeBorrowed::Borrowed(borrowed) => borrowed,
            MaybeBorrowed::Owned(owned) => owned,
        }
    }
}

/// Why there is no database to ask, or why it gave no answer.
#[derive(Debug, PartialEq, Eq)]
pub enum DBError {
    /// The engine refused the file or the lookup, with its message.
    Internal(String),
    /// No database file was found.
    NotInstalled,
}

/// What the host is told where no database file was found.
pub open spec fn not_installed_text() -> Seq<char> {
    "You didn't install the MaxMindDB database! I expected to find one in garrysmod/maxminddb.mmdb or garrysmod/data/maxminddb.dat, you can get it from here: https://maxmind.com"@
}

impl DBError {
    /// The text of the error.
    pub open spec fn text(self) -> Seq<char> {
        match self {
            DBError::Internal(detail) => detail@,
            DBError::NotInstalled => not_installed_text(),
        }
    }

    /// The text of the error, as the host is told it.
    pub fn to_string(&self) -> (s: String)
        ensures
            s@ == self.text(),
    {
        match self {
            DBError::Internal(detail) => detail.clone(),
            DBError::NotInstalled => String::from_str(
                "You didn't install the MaxMindDB database! I expected to find one in garrysmod/maxminddb.mmdb or garrysmod/data/maxminddb.dat, you can get it from here: https://maxmind.com",
            ),
        }
    }
}

impl Clone for DBError {
    fn clone(&self) -> (r: DBError)
        ensures
            r == *self,
    {
        match self {
            DBError::Internal(detail) => DBError::Internal(detail.clone()),
            DBError::NotInstalled => DBError::NotInstalled,
        }
    }
}

/// Why a request of the host could not be read.
#[derive(Debug, PartialEq, Eq)]
pub enum ParseError {
    /// The text is no IP address; with the parser's message.
    InvalidAddress(String),
    /// The integer is the code of no record type.
    UnknownRecordType(isize),
}

impl ParseError {
    /// The text of the error.
    pub open spec fn text(self) -> Seq<char> {
        match self {
            ParseError::InvalidAddress(detail) => "Invalid IP address: "@ + detail@,
            ParseError::UnknownRecordType(_) => "Unknown or invalid GeoIP record type"@,
        }
    }

    /// The text of the error, as the host is told it.
    pub fn to_string(&self) -> (s: String)
        ensures
            s@ == self.text(),
    {
        match self {
            ParseError::InvalidAddress(detail) => String::from_str("Invalid IP address: ").concat(
                detail.as_str(),
            ),
            ParseError::UnknownRecordType(_) => String::from_str(
                "Unknown or invalid GeoIP record type",
            ),
        }
    }
}

/// Why a lookup gave no value.
#[derive(Debug)]
pub enum LookupError<'a> {
    /// The request could not be read.
    Parse(ParseError),
    /// There is no database to ask, or it gave no answer.
    Database(MaybeBorrowed<'a, DBError>),
}

impl<'a> LookupError<'a> {
    /// The text of the error.
    pub open spec fn text(self) -> Seq<char> {
        match self {
            LookupError::Parse(e) => e.text(),
            LookupError::Database(e) => e.value().text(),
        }
    }

    /// The text of the error, as the host is told it.
    pub fn to_string(&self) -> (s: String)
        ensures
            s@ == self.text(),
    {
        match self {
            LookupError::Parse(e) => e.to_string(),
            LookupError::Database(e) => e.as_ref().to_string(),
        }
    }
}

} // verus!
