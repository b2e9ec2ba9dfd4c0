use crate::client::{
    cache_result, lemma_cache_fail_closed, signature_outcome, KeygenClient, KeygenResponseCache,
    RecordView,
};
use crate::sig::{cached_input, digest_of};
use crate::error::{CacheFault, Error};
use vstd::prelude::*;

verus! {

/// The records held by a list of entries: a later entry for a key replaces an earlier one.
pub open spec fn records_of(entries: Seq<(String, KeygenResponseCache)>) -> Map<
    Seq<char>,
    RecordView,
>
    decreases entries.len(),
{
    if entries.len() == 0 {
        Map::empty()
    } else {
        records_of(entries.drop_last()).insert(entries.last().0@, entries.last().1@)
    }
}

/// Verified responses kept by license key, at most one per key.
pub struct ResponseCacheStore {
    entries: Vec<(String, KeygenResponseCache)>,
}

impl View for ResponseCacheStore {
    type V = Map<Seq<char>, RecordView>;

    closed spec fn view(&self) -> Map<Seq<char>, RecordView> {
        records_of(self.entries@)
    }
}

/// Removing a key a second time changes nothing.
pub proof fn lemma_delete_idempotent(m: Map<Seq<char>, RecordView>, key: Seq<char>)
    ensures
        m.remove(key).remove(key) == m.remove(key),
{
    assert(m.remove(key).remove(key) =~= m.remove(key));
}

impl ResponseCacheStore {
    /// An empty store.
    pub fn new() -> (r: ResponseCacheStore)
        ensures
            r@ == Map::<Seq<char>, RecordView>::empty(),
    {
        ResponseCacheStore { entries: Vec::new() }
    }

    /// The record kept for `key`, if any.
    pub fn get(&self, key: &str) -> (r: Option<&KeygenResponseCache>)
        ensures
            match r {
                Some(c) => self@.contains_key(key@) && self@[key@] == c@,
                None => !self@.contains_key(key@),
            },
    {
        let k = key.to_owned();
        let mut found: Option<usize> = None;
        let mut i: usize = 0;
        while i < self.entries.len()
            invariant
                i <= self.entries@.len(),
                k@ == key@,
                match found {
                    Some(j) => j < i && records_of(self.entries@.take(i as int)).contains_key(
                        key@,
                    ) && records_of(self.entries@.take(i as int))[key@] == self.entries@[j as int].1@,
                    None => !records_of(self.entries@.take(i as int)).contains_key(key@),
                },
            decreases self.entries@.len() - i,
        {
            assert(self.entries@.take(i + 1).drop_last() =~= self.entries@.take(i as int));
            assert(self.entries@.take(i + 1).last() == self.entries@[i as int]);
            if self.entries[i].0 == k {
                found = Some(i);
            }
            i = i + 1;
        }
        assert(self.entries@.take(i as int) =~= self.entries@);
        match found {
            Some(j) => Some(&self.entries[j].1),
            None => None,
        }
    }

    /// Removes the record kept for `key`; removing an absent one is no error.
    pub fn delete(&mut self, key: &str)
        ensures
            final(self)@ == old(self)@.remove(key@),
    {
        let ghost old_entries = self.entries@;
        let k = key.to_owned();
        let mut kept: Vec<(String, KeygenResponseCache)> = Vec::new();
        let mut i: usize = 0;
        while i < self.entries.len()
            invariant
                i <= self.entries@.len(),
                k@ == key@,
                self.entries@ == old_entries,
                records_of(kept@) == records_of(old_entries.take(i as int)).remove(key@),
            decreases self.entries@.len() - i,
        {
            let ghost before = kept@;
            let ghost prev = records_of(old_entries.take(i as int));
            assert(old_entries.take(i + 1).drop_last() =~= old_entries.take(i as int));
            assert(old_entries.take(i + 1).last() == old_entries[i as int]);
            if !(self.entries[i].0 == k) {
                let e = (self.entries[i].0.clone(), self.entries[i].1.clone_record());
                kept.push(e);
                assert(kept@.drop_last() =~= before);
                assert(records_of(kept@) =~= records_of(old_entries.take(i + 1)).remove(key@));
            } else {
                assert(records_of(old_entries.take(i + 1)).remove(key@) =~= prev.remove(key@));
            }
            i = i + 1;
        }
        assert(old_entries.take(i as int) =~= old_entries);
        self.entries = kept;
    }

    /// Keeps `record` for `key`, replacing any earlier record for it.
    pub fn write(&mut self, key: String, record: KeygenResponseCache)
        ensures
            final(self)@ == old(self)@.insert(key@, record@),
    {
        self.delete(key.as_str());
        let ghost mid = self.entries@;
        self.entries.push((key, record));
        assert(self.entries@.drop_last() =~= mid);
        assert(self@ =~= old(self)@.remove(key@).insert(key@, record@));
        assert(old(self)@.remove(key@).insert(key@, record@) =~= old(self)@.insert(key@, record@));
    }

    /// Re-verifies the record kept for `key` as of `now` and decodes its body. A missing
    /// record is `BadCache`; a record that fails any check is removed before the error
    /// is returned; on success the store is unchanged.
    pub fn load(&mut self, client: &KeygenClient, key: &str, now: i64) -> (r: Result<
        serde_json::Value,
        Error,
    >)
        ensures
            !old(self)@.contains_key(key@) ==> r == Err::<serde_json::Value, Error>(
                Error::BadCache(CacheFault::Missing),
            ) && final(self)@ == old(self)@,
            old(self)@.contains_key(key@) ==> cache_result(
                r,
                client.verify_key@,
                client.cache_lifetime,
                old(self)@[key@],
                now,
            ),
            r is Ok ==> final(self)@ == old(self)@,
            r is Err ==> final(self)@ == old(self)@.remove(key@),
            old(self)@.contains_key(key@) && signature_outcome(
                client.verify_key@,
                cached_input(
                    old(self)@[key@].target,
                    old(self)@[key@].host,
                    old(self)@[key@].date,
                    digest_of(old(self)@[key@].body),
                ),
                old(self)@[key@].sig,
            ) is Err ==> (r matches Err(Error::BadCache(_))) && !final(self)@.contains_key(key@),
    {
        proof {
            if old(self)@.contains_key(key@) {
                let c = old(self)@[key@];
                lemma_cache_fail_closed(
                    client.verify_key@,
                    client.cache_lifetime,
                    c.sig,
                    c.target,
                    c.host,
                    c.date,
                    c.body,
                    now,
                );
            }
        }
        let outcome = match self.get(key) {
            None => {
                proof {
                    assert(old(self)@.remove(key@) =~= old(self)@);
                }
                return Err(Error::BadCache(CacheFault::Missing));
            },
            Some(c) => client.verify_response_cache(c, now),
        };
        if outcome.is_err() {
            self.delete(key);
        }
        outcome
    }
}

/// Whether a validated license's response is worth caching: the license is valid, the
/// caller asked for caching, and the license has an expiry to bound it.
pub fn should_cache_response(license_valid: bool, cache_valid_response: bool, has_expiry: bool) -> (r:
    bool)
    ensures
        r == (license_valid && cache_valid_response && has_expiry),
{
    license_valid && cache_valid_response && has_expiry
}

impl KeygenResponseCache {
    /// A copy of the record, field for field.
    pub fn clone_record(&self) -> (r: KeygenResponseCache)
        ensures
            r@ == self@,
    {
        let r = KeygenResponseCache {
            sig: self.sig.clone(),
            target: self.target.clone(),
            host: self.host.clone(),
            date: self.date.clone(),
            body: self.body.clone(),
        };
        r
    }
}

} // verus!
