//! The login collection: one row per user, holding the timestamp of the
//! most recent recorded login. No history is retained: every recorded
//! login overwrites the previous row for the same user.

use vstd::prelude::*;

use crate::error::Error;
use crate::table::Table;

verus! {

/// Relies on chrono's `Utc::now`: the current instant rendered as text.
/// The value depends on the clock, so nothing is assumed of it.
#[verifier::external_body]
fn utc_now_string() -> String {
    chrono::Utc::now().to_string()
}

/// The login collection, keyed by user id.
pub struct LoginsTable {
    table: Table<String>,
}

impl View for LoginsTable {
    type V = Map<Seq<char>, Seq<char>>;

    closed spec fn view(&self) -> Map<Seq<char>, Seq<char>> {
        self.table@
    }
}

impl LoginsTable {
    /// Well-formed: the underlying collection is.
    pub closed spec fn wf(&self) -> bool {
        self.table.wf()
    }

    /// An empty collection: no login has been recorded.
    pub fn new() -> (s: LoginsTable)
        ensures
            s.wf(),
            s@ == Map::<Seq<char>, Seq<char>>::empty(),
    {
        LoginsTable { table: Table::new() }
    }

    /// Record a login for `user_id` at the given timestamp: an
    /// unconditional upsert of the single row for that user.
    pub fn record_login_at(&mut self, user_id: &str, timestamp: String) -> (r: Result<(), Error>)
        requires
            old(self).wf(),
        ensures
            final(self).wf(),
            r is Ok,
            final(self)@ == old(self)@.insert(user_id@, timestamp@),
    {
        self.table.insert(user_id.to_owned(), timestamp);
        Ok(())
    }

    /// Record a login for `user_id` with a server-assigned timestamp
    /// taken from the clock. Rows of other users are untouched.
    pub fn record_login(&mut self, user_id: &str) -> (r: Result<(), Error>)
        requires
            old(self).wf(),
        ensures
            final(self).wf(),
            r is Ok,
            exists|t: Seq<char>| final(self)@ == old(self)@.insert(user_id@, t),
    {
        let now = utc_now_string();
        let ghost t = now@;
        let r = self.record_login_at(user_id, now);
        proof {
            assert(final(self)@ == old(self)@.insert(user_id@, t));
        }
        r
    }

    /// The timestamp of the last recorded login for `user_id`, if any.
    pub fn last_login<'a>(&'a self, user_id: &str) -> (r: Option<&'a String>)
        requires
            self.wf(),
        ensures
            match r {
                Some(t) => self@.contains_key(user_id@) && t@ == self@[user_id@],
                None => !self@.contains_key(user_id@),
            },
    {
        self.table.get(user_id)
    }
}

} // verus!
