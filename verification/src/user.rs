//! User identity and the account record kept beside a profile.

use vstd::prelude::*;

verus! {

/// Opaque 64-bit user identifier; the join key across profile, user,
/// like and view records.
#[derive(Debug, Clone, Copy, PartialEq, Eq, Structural, Hash, Default)]
pub struct MyUserId(pub u64);

impl MyUserId {
    /// Parses an identifier from its decimal spelling.
    pub fn from_str(s: &str) -> (r: Result<MyUserId, ()>)
        ensures
            r == match crate::parsing::spec_parse_u64(s@) {
                Some(v) => Result::<MyUserId, ()>::Ok(MyUserId(v)),
                None => Result::<MyUserId, ()>::Err(()),
            },
    {
        match crate::parsing::parse_u64(s) {
            Some(v) => Ok(MyUserId(v)),
            None => Err(()),
        }
    }
}

impl vstd::std_specs::convert::FromSpecImpl<u64> for MyUserId {
    open spec fn obeys_from_spec() -> bool {
        true
    }

    open spec fn from_spec(v: u64) -> MyUserId {
        MyUserId(v)
    }
}

impl From<u64> for MyUserId {
    fn from(v: u64) -> (r: MyUserId)
        ensures
            r == MyUserId(v),
    {
        MyUserId(v)
    }
}

/// Account record: identity plus the descriptive fields taken from the
/// transport-level sender, with the join time as plain milliseconds.
#[derive(Debug)]
pub struct User {
    pub id: MyUserId,
    pub join_date: i64,
    pub first_name: String,
    pub last_name: Option<String>,
    pub username: String,
    pub language_code: Option<String>,
}

/// Milliseconds the stored join time runs ahead of the clock reading.
pub const JOIN_DATE_OFFSET_MILLIS: i64 = 10800000;

impl User {
    /// Builds the record for a sender; `now_millis` is the current clock
    /// reading, supplied by the caller since the core reads no clock.
    pub fn new(
        id: MyUserId,
        first_name: String,
        last_name: Option<String>,
        username: String,
        language_code: Option<String>,
        now_millis: i64,
    ) -> (r: User)
        requires
            now_millis <= i64::MAX - JOIN_DATE_OFFSET_MILLIS,
        ensures
            r.id == id,
            r.join_date == now_millis + JOIN_DATE_OFFSET_MILLIS,
            r.first_name == first_name,
            r.last_name == last_name,
            r.username == username,
            r.language_code == language_code,
    {
        User {
            id,
            join_date: now_millis + JOIN_DATE_OFFSET_MILLIS,
            first_name,
            last_name,
            username,
            language_code,
        }
    }
}

impl Clone for User {
    fn clone(&self) -> (r: Self)
        ensures
            r == *self,
    {
        User {
            id: self.id,
            join_date: self.join_date,
            first_name: self.first_name.clone(),
            last_name: match &self.last_name {
                Some(s) => Some(s.clone()),
                None => None,
            },
            username: self.username.clone(),
            language_code: match &self.language_code {
                Some(s) => Some(s.clone()),
                None => None,
            },
        }
    }
}

} // verus!
