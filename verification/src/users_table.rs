//! The user collection: one record per user, holding an optional
//! notification target and optional profile attributes.

use vstd::prelude::*;

use crate::error::Error;
use crate::table::Table;

verus! {

/// What is stored for a user. An attribute the record lacks is `None`.
pub struct UserRecord {
    pub sns_arn: Option<String>,
    pub username: Option<String>,
    pub display_name: Option<String>,
}

/// The spec-level form of a stored user record.
pub struct UserRecordView {
    pub sns_arn: Option<Seq<char>>,
    pub username: Option<Seq<char>>,
    pub display_name: Option<Seq<char>>,
}

impl DeepView for UserRecord {
    type V = UserRecordView;

    open spec fn deep_view(&self) -> UserRecordView {
        UserRecordView {
            sns_arn: self.sns_arn.deep_view(),
            username: self.username.deep_view(),
            display_name: self.display_name.deep_view(),
        }
    }
}

/// A record with no attributes set.
pub open spec fn empty_record() -> UserRecordView {
    UserRecordView { sns_arn: None, username: None, display_name: None }
}

/// What a login reports about the user's stored record.
#[derive(Clone, Copy, Debug, PartialEq, Eq, Structural)]
pub struct UserInitInfo {
    pub has_username: bool,
    pub has_display_name: bool,
}

fn clone_opt(o: &Option<String>) -> (r: Option<String>)
    ensures
        r.deep_view() == o.deep_view(),
{
    match o {
        Some(s) => Some(s.clone()),
        None => None,
    }
}

/// The user collection, keyed by user id.
pub struct UsersTable {
    table: Table<UserRecord>,
}

impl View for UsersTable {
    type V = Map<Seq<char>, UserRecordView>;

    closed spec fn view(&self) -> Map<Seq<char>, UserRecordView> {
        self.table@
    }
}

impl UsersTable {
    /// Well-formed: the underlying collection is.
    pub closed spec fn wf(&self) -> bool {
        self.table.wf()
    }

    /// An empty collection: no user has a record.
    pub fn new() -> (s: UsersTable)
        ensures
            s.wf(),
            s@ == Map::<Seq<char>, UserRecordView>::empty(),
    {
        UsersTable { table: Table::new() }
    }

    /// A collection in a given state, such as one read back from storage.
    pub fn from_table(table: Table<UserRecord>) -> (s: UsersTable)
        requires
            table.wf(),
        ensures
            s.wf(),
            s@ == table@,
    {
        UsersTable { table }
    }

    /// Log a user in. An existing record keeps its profile attributes
    /// and has its notification target replaced; the result reports
    /// which profile attributes the record already had. When no record
    /// exists, one is created holding only the notification target.
    pub fn login(&mut self, user_id: &str, sns_arn: &str) -> (r: Result<UserInitInfo, Error>)
        requires
            old(self).wf(),
        ensures
            final(self).wf(),
            match r {
                Ok(info) => {
                    if old(self)@.contains_key(user_id@) {
                        let rec = old(self)@[user_id@];
                        &&& final(self)@ == old(self)@.insert(
                            user_id@,
                            (UserRecordView {
                                sns_arn: Some(sns_arn@),
                                username: rec.username,
                                display_name: rec.display_name,
                            }),
                        )
                        &&& info.has_username == (rec.username is Some)
                        &&& info.has_display_name == (rec.display_name is Some)
                    } else {
                        &&& final(self)@ == old(self)@.insert(
                            user_id@,
                            (UserRecordView {
                                sns_arn: Some(sns_arn@),
                                username: None,
                                display_name: None,
                            }),
                        )
                        &&& !info.has_username
                        &&& !info.has_display_name
                    }
                },
                Err(_) => false,
            },
    {
        let (info, rec) = match self.table.get(user_id) {
            Some(existing) => (
                UserInitInfo {
                    has_username: existing.username.is_some(),
                    has_display_name: existing.display_name.is_some(),
                },
                UserRecord {
                    sns_arn: Some(sns_arn.to_owned()),
                    username: clone_opt(&existing.username),
                    display_name: clone_opt(&existing.display_name),
                },
            ),
            None => (
                UserInitInfo { has_username: false, has_display_name: false },
                UserRecord { sns_arn: Some(sns_arn.to_owned()), username: None, display_name: None },
            ),
        };
        self.table.insert(user_id.to_owned(), rec);
        Ok(info)
    }

    /// Log a user out: clear the stored notification target. As with an
    /// unconditional storage update, a record with no attributes set is
    /// created when none exists.
    pub fn logout(&mut self, user_id: &str) -> (r: Result<(), Error>)
        requires
            old(self).wf(),
        ensures
            final(self).wf(),
            r is Ok,
            ({
                let prev = if old(self)@.contains_key(user_id@) {
                    old(self)@[user_id@]
                } else {
                    empty_record()
                };
                final(self)@ == old(self)@.insert(
                    user_id@,
                    (UserRecordView {
                        sns_arn: None,
                        username: prev.username,
                        display_name: prev.display_name,
                    }),
                )
            }),
    {
        let rec = match self.table.get(user_id) {
            Some(existing) => UserRecord {
                sns_arn: None,
                username: clone_opt(&existing.username),
                display_name: clone_opt(&existing.display_name),
            },
            None => UserRecord { sns_arn: None, username: None, display_name: None },
        };
        self.table.insert(user_id.to_owned(), rec);
        Ok(())
    }

    /// The stored record for `user_id`, if any.
    pub fn get_record<'a>(&'a self, user_id: &str) -> (r: Option<&'a UserRecord>)
        requires
            self.wf(),
        ensures
            match r {
                Some(rec) => self@.contains_key(user_id@) && rec.deep_view() == self@[user_id@],
                None => !self@.contains_key(user_id@),
            },
    {
        self.table.get(user_id)
    }
}

} // verus!
