//! The nonce collection: at most one active nonce per device.
//!
//! A record binds a `device_id` to the nonce of its most recent issuance.
//! Issuing overwrites any existing record; consuming reads the record and
//! deletes it; resetting empties the whole collection.

use vstd::prelude::*;

use crate::error::Error;
use crate::table::Table;

verus! {

/// Number of characters in an issued nonce.
pub const NONCE_LENGTH: usize = 30;

/// An ASCII alphanumeric character.
pub open spec fn is_nonce_char(c: char) -> bool {
    ('0' <= c && c <= '9') || ('a' <= c && c <= 'z') || ('A' <= c && c <= 'Z')
}

/// A well-formed nonce: exactly `NONCE_LENGTH` alphanumeric characters.
pub open spec fn is_nonce(s: Seq<char>) -> bool {
    &&& s.len() == NONCE_LENGTH
    &&& forall|i: int| 0 <= i < s.len() ==> is_nonce_char(#[trigger] s[i])
}

/// What a read of the record for `device` yields from collection state
/// `m`: the stored nonce; `NotFound` when no record exists; or
/// `AttributeError` when a record exists but its nonce attribute is
/// missing.
pub open spec fn peek_spec(m: Map<Seq<char>, Option<Seq<char>>>, device: Seq<char>) -> Result<
    Seq<char>,
    Error,
> {
    if !m.contains_key(device) {
        Err(Error::NotFound)
    } else {
        match m[device] {
            Some(n) => Ok(n),
            None => Err(Error::AttributeError),
        }
    }
}

/// What a consume yields and leaves behind: the read result, and the
/// collection state with the record removed exactly when the read
/// succeeded.
pub open spec fn consume_spec(m: Map<Seq<char>, Option<Seq<char>>>, device: Seq<char>) -> (
    Result<Seq<char>, Error>,
    Map<Seq<char>, Option<Seq<char>>>,
) {
    match peek_spec(m, device) {
        Ok(n) => (Ok(n), m.remove(device)),
        Err(e) => (Err(e), m),
    }
}

/// The view of a returned nonce result.
pub open spec fn nonce_result_view(r: Result<String, Error>) -> Result<Seq<char>, Error> {
    match r {
        Ok(n) => Ok(n@),
        Err(e) => Err(e),
    }
}

/// Relies on rand's `Alphanumeric` distribution through `sample_string`:
/// the result holds exactly `len` characters, each drawn from the ASCII
/// alphanumeric set. Which characters come back depends on the generator,
/// so nothing more is assumed.
#[verifier::external_body]
fn random_alphanumeric(len: usize) -> (r: String)
    ensures
        r@.len() == len as nat,
        forall|i: int| 0 <= i < r@.len() ==> is_nonce_char(#[trigger] r@[i]),
{
    rand::distr::SampleString::sample_string(&rand::distr::Alphanumeric, &mut rand::rng(), len)
}

/// The nonce collection. A stored value of `None` stands for a record
/// whose nonce attribute is absent (a corrupted partial write).
pub struct NoncesTable {
    table: Table<Option<String>>,
}

impl View for NoncesTable {
    type V = Map<Seq<char>, Option<Seq<char>>>;

    closed spec fn view(&self) -> Map<Seq<char>, Option<Seq<char>>> {
        self.table@
    }
}

impl NoncesTable {
    /// Well-formed: the underlying collection is.
    pub closed spec fn wf(&self) -> bool {
        self.table.wf()
    }

    /// An empty collection: no device has a record.
    pub fn new() -> (s: NoncesTable)
        ensures
            s.wf(),
            s@ == Map::<Seq<char>, Option<Seq<char>>>::empty(),
    {
        NoncesTable { table: Table::new() }
    }

    /// A collection in a given state, such as one read back from storage.
    pub fn from_table(table: Table<Option<String>>) -> (s: NoncesTable)
        requires
            table.wf(),
        ensures
            s.wf(),
            s@ == table@,
    {
        NoncesTable { table }
    }

    /// Issue a nonce for `device_id`: generate a fresh random value and
    /// bind it to the device, overwriting the record if one exists and
    /// creating it otherwise. Returns the newly generated nonce.
    pub fn make_nonce(&mut self, device_id: &str) -> (r: Result<String, Error>)
        requires
            old(self).wf(),
        ensures
            final(self).wf(),
            match r {
                Ok(n) => is_nonce(n@) && final(self)@ == old(self)@.insert(device_id@, Some(n@)),
                Err(_) => false,
            },
    {
        let nonce = random_alphanumeric(NONCE_LENGTH);
        // One conditional upsert covers both the overwrite and the
        // first-issuance case.
        self.table.insert(device_id.to_owned(), Some(nonce.clone()));
        Ok(nonce)
    }

    /// Read the nonce bound to `device_id` without consuming it.
    pub fn read_nonce(&self, device_id: &str) -> (r: Result<String, Error>)
        requires
            self.wf(),
        ensures
            nonce_result_view(r) == peek_spec(self@, device_id@),
    {
        match self.table.get(device_id) {
            None => Err(Error::NotFound),
            Some(slot) => match slot {
                None => Err(Error::AttributeError),
                Some(n) => Ok(n.clone()),
            },
        }
    }

    /// Consume the nonce bound to `device_id`: read it, delete the
    /// record, and return the value read. A failed read deletes nothing.
    pub fn get_nonce(&mut self, device_id: &str) -> (r: Result<String, Error>)
        requires
            old(self).wf(),
        ensures
            final(self).wf(),
            nonce_result_view(r) == consume_spec(old(self)@, device_id@).0,
            final(self)@ == consume_spec(old(self)@, device_id@).1,
    {
        match self.read_nonce(device_id) {
            Ok(nonce) => {
                self.table.remove(device_id);
                Ok(nonce)
            },
            Err(e) => Err(e),
        }
    }

    /// Destroy and recreate the collection: afterwards no device has a
    /// record. Always succeeds, also when called on an empty collection.
    pub fn reset_nonces(&mut self) -> (r: Result<(), Error>)
        ensures
            final(self).wf(),
            final(self)@ == Map::<Seq<char>, Option<Seq<char>>>::empty(),
            r is Ok,
    {
        self.table.clear();
        Ok(())
    }
}

/// Law: after issuing twice in a row for a device, a consume returns the
/// nonce of the second issuance and removes the record, and a further
/// peek or consume for that device finds nothing.
pub proof fn lemma_rotate_then_consume(
    m: Map<Seq<char>, Option<Seq<char>>>,
    d: Seq<char>,
    n1: Seq<char>,
    n2: Seq<char>,
)
    ensures
        consume_spec(m.insert(d, Some(n1)).insert(d, Some(n2)), d).0 == Ok::<Seq<char>, Error>(n2),
        peek_spec(consume_spec(m.insert(d, Some(n1)).insert(d, Some(n2)), d).1, d) == Err::<
            Seq<char>,
            Error,
        >(Error::NotFound),
{
    let m2 = m.insert(d, Some(n1)).insert(d, Some(n2));
    assert(m2.contains_key(d));
    assert(m2[d] == Some(n2));
    assert(!m2.remove(d).contains_key(d));
}

/// Law: a consume for a device with no record fails with `NotFound` and
/// leaves the collection state unchanged.
pub proof fn lemma_consume_absent(m: Map<Seq<char>, Option<Seq<char>>>, d: Seq<char>)
    requires
        !m.contains_key(d),
    ensures
        consume_spec(m, d).0 == Err::<Seq<char>, Error>(Error::NotFound),
        consume_spec(m, d).1 == m,
{
}

/// Law: a reset leaves no records, so a subsequent peek for any device
/// whatsoever fails with `NotFound`.
pub proof fn lemma_reset_then_peek(d: Seq<char>)
    ensures
        peek_spec(Map::<Seq<char>, Option<Seq<char>>>::empty(), d) == Err::<Seq<char>, Error>(
            Error::NotFound,
        ),
{
}

} // verus!
