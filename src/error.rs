//! The error kinds of the feed fetcher, the store, and the crate as a whole.

use vstd::prelude::*;

verus! {

/// Errors of the checkpoint store and the subscription directory.
#[derive(Debug)]
pub enum DbError {
    /// The query found no matching row.
    NotFound,
    /// The row would break a uniqueness constraint.
    UniqueViolation,
    /// The store could not be reached.
    ConnectionFailure(String),
    /// Any other store error, with a description.
    Generic(String),
    /// An error without further information.
    Empty,
}

impl DbError {
    pub fn new(msg: &str) -> (r: Self)
        ensures
            r matches DbError::Generic(m) && m@ == msg@,
    {
        DbError::Generic(msg.to_owned())
    }

    pub fn empty(msg: &str) -> (r: Self)
        ensures
            r matches DbError::Generic(m) && m@ == msg@,
    {
        DbError::Generic(msg.to_owned())
    }

    /// A short description: the text carried, or a fixed one.
    pub fn description(&self) -> (r: &str)
        ensures
            r@ == match self {
                DbError::NotFound => "not found"@,
                DbError::UniqueViolation => "unique violation"@,
                DbError::ConnectionFailure(s) => s@,
                DbError::Generic(s) => s@,
                DbError::Empty => ""@,
            },
    {
        match self {
            DbError::NotFound => "not found",
            DbError::UniqueViolation => "unique violation",
            DbError::ConnectionFailure(s) => s.as_str(),
            DbError::Generic(s) => s.as_str(),
            DbError::Empty => "",
        }
    }

    /// The full message, for logs.
    pub fn message(&self) -> (r: String)
        ensures
            r@ == db_message(self),
    {
        match self {
            DbError::NotFound => "DB error: not found".to_owned(),
            DbError::UniqueViolation => "DB error: unique violation".to_owned(),
            DbError::ConnectionFailure(s) => "DB connection error: ".to_owned().concat(s.as_str()),
            DbError::Generic(s) => "DB error: ".to_owned().concat(s.as_str()),
            DbError::Empty => "DB error".to_owned(),
        }
    }
}

/// The full message of a store error.
pub open spec fn db_message(e: &DbError) -> Seq<char> {
    match e {
        DbError::NotFound => "DB error: not found"@,
        DbError::UniqueViolation => "DB error: unique violation"@,
        DbError::ConnectionFailure(s) => "DB connection error: "@ + s@,
        DbError::Generic(s) => "DB error: "@ + s@,
        DbError::Empty => "DB error"@,
    }
}

/// Errors of fetching a feed and reading it.
#[derive(Debug)]
pub enum FeedError {
    /// The url could not be fetched as a feed at all.
    InvalidFeedUrl(String),
    /// The content was fetched but does not have the shape of a feed.
    De(String),
    /// A network or HTTP failure (a timeout, 404, 403, ...).
    Web(String),
    /// Any other feed error, with a description.
    Generic(String),
    /// An error without further information.
    Empty,
}

impl FeedError {
    pub fn new(msg: &str) -> (r: Self)
        ensures
            r matches FeedError::Generic(m) && m@ == msg@,
    {
        FeedError::Generic(msg.to_owned())
    }

    /// A short description: the text carried, or a fixed one.
    pub fn description(&self) -> (r: &str)
        ensures
            r@ == match self {
                FeedError::InvalidFeedUrl(s) => s@,
                FeedError::De(s) => s@,
                FeedError::Web(s) => s@,
                FeedError::Generic(s) => s@,
                FeedError::Empty => ""@,
            },
    {
        match self {
            FeedError::InvalidFeedUrl(s) => s.as_str(),
            FeedError::De(s) => s.as_str(),
            FeedError::Web(s) => s.as_str(),
            FeedError::Generic(s) => s.as_str(),
            FeedError::Empty => "",
        }
    }

    /// The full message, for logs.
    pub fn message(&self) -> (r: String)
        ensures
            r@ == feed_message(self),
    {
        match self {
            FeedError::InvalidFeedUrl(s) => "Feed url error: ".to_owned().concat(s.as_str()),
            FeedError::De(s) => "Feed deserialization error: ".to_owned().concat(s.as_str()),
            FeedError::Web(s) => "Feed weberror: ".to_owned().concat(s.as_str()),
            FeedError::Generic(s) => "Feed error: ".to_owned().concat(s.as_str()),
            FeedError::Empty => "FeedError".to_owned(),
        }
    }
}

/// The full message of a feed error.
pub open spec fn feed_message(e: &FeedError) -> Seq<char> {
    match e {
        FeedError::InvalidFeedUrl(s) => "Feed url error: "@ + s@,
        FeedError::De(s) => "Feed deserialization error: "@ + s@,
        FeedError::Web(s) => "Feed weberror: "@ + s@,
        FeedError::Generic(s) => "Feed error: "@ + s@,
        FeedError::Empty => "FeedError"@,
    }
}

/// The error type of this crate.
#[derive(Debug)]
pub enum MyError {
    Db(DbError),
    Feed(FeedError),
    /// An error without a dedicated variant, with a description.
    Generic(String),
    /// An error without further information.
    Empty,
}

impl MyError {
    pub fn new(msg: &str) -> (r: Self)
        ensures
            r matches MyError::Generic(m) && m@ == msg@,
    {
        MyError::Generic(msg.to_owned())
    }

    pub fn empty() -> (r: Self)
        ensures
            r == MyError::Empty,
    {
        MyError::Empty
    }

    /// A short description: the kind of a wrapped error, the text carried,
    /// or nothing.
    pub fn description(&self) -> (r: &str)
        ensures
            r@ == match self {
                MyError::Db(_) => "DbError"@,
                MyError::Feed(_) => "FeedError"@,
                MyError::Generic(s) => s@,
                MyError::Empty => ""@,
            },
    {
        match self {
            MyError::Db(_) => "DbError",
            MyError::Feed(_) => "FeedError",
            MyError::Generic(s) => s.as_str(),
            MyError::Empty => "",
        }
    }

    /// The full message, for logs.
    pub fn message(&self) -> (r: String)
        ensures
            r@ == match self {
                MyError::Db(e) => "Error: "@ + db_message(e),
                MyError::Feed(e) => "Error: "@ + feed_message(e),
                MyError::Generic(s) => "Error: "@ + s@,
                MyError::Empty => "Error"@,
            },
    {
        match self {
            MyError::Db(e) => "Error: ".to_owned().concat(e.message().as_str()),
            MyError::Feed(e) => "Error: ".to_owned().concat(e.message().as_str()),
            MyError::Generic(s) => "Error: ".to_owned().concat(s.as_str()),
            MyError::Empty => "Error".to_owned(),
        }
    }
}

impl From<DbError> for MyError {
    fn from(err: DbError) -> (r: Self) {
        MyError::Db(err)
    }
}

impl vstd::std_specs::convert::FromSpecImpl<DbError> for MyError {
    open spec fn obeys_from_spec() -> bool {
        true
    }

    open spec fn from_spec(err: DbError) -> MyError {
        MyError::Db(err)
    }
}

impl From<FeedError> for MyError {
    fn from(err: FeedError) -> (r: Self) {
        MyError::Feed(err)
    }
}

impl vstd::std_specs::convert::FromSpecImpl<FeedError> for MyError {
    open spec fn obeys_from_spec() -> bool {
        true
    }

    open spec fn from_spec(err: FeedError) -> MyError {
        MyError::Feed(err)
    }
}

} // verus!
