//! The object-store side of the pipeline: the result of a successful write,
//! the derived public URL, and an in-memory store that implements the same
//! `upload` interface as the network-backed client, so callers and tests can
//! substitute one for the other.

use vstd::prelude::*;
use vstd::string::StringExecFns;

verus! {

/// What a successful store write returns: the object key, the derived public
/// URL, and the store's opaque version marker when it supplied one.
pub struct UploadResult {
    pub key: String,
    pub url: String,
    pub etag: Option<String>,
}

/// A failed store write, with the transport's message kept for diagnostics.
#[derive(Debug)]
pub struct StorageError {
    pub message: String,
}

/// The public URL under which an object key is served from a bucket.
pub open spec fn s3_url_spec(bucket: Seq<char>, region: Seq<char>, key: Seq<char>) -> Seq<char> {
    "https://"@ + bucket + ".s3."@ + region + ".amazonaws.com/"@ + key
}

/// Derives the public URL for `key` in `bucket` within `region`.
pub fn s3_url(bucket: &str, region: &str, key: &str) -> (r: String)
    ensures
        r@ == s3_url_spec(bucket@, region@, key@),
{
    let mut url = String::new();
    url.append("https://");
    url.append(bucket);
    url.append(".s3.");
    url.append(region);
    url.append(".amazonaws.com/");
    url.append(key);
    proof {
        assert(url@ =~= s3_url_spec(bucket@, region@, key@));
    }
    url
}

/// Relies on `str`'s `PartialEq`: two string slices compare equal exactly
/// when their characters do.
#[verifier::external_body]
fn str_eq(a: &str, b: &str) -> (r: bool)
    ensures
        r == (a@ == b@),
{
    a == b
}

/// The key-to-bytes map a sequence of writes leaves behind: later entries
/// overwrite earlier ones with the same key.
pub open spec fn store_map(entries: Seq<(String, Vec<u8>)>) -> Map<Seq<char>, Seq<u8>>
    decreases entries.len(),
{
    if entries.len() == 0 {
        Map::empty()
    } else {
        store_map(entries.drop_last()).insert(entries.last().0@, entries.last().1@)
    }
}

/// An in-memory object store: the substitutable double for the network
/// client, with the same `upload` contract shape. Its view is the map from
/// keys to the bytes a read of that key would return.
pub struct MemoryStore {
    pub bucket_name: String,
    pub region: String,
    /// The entity tag this store hands back on each successful write;
    /// injectable, so tests can check that the tag passes through.
    pub etag: Option<String>,
    pub entries: Vec<(String, Vec<u8>)>,
}

impl View for MemoryStore {
    type V = Map<Seq<char>, Seq<u8>>;

    closed spec fn view(&self) -> Map<Seq<char>, Seq<u8>> {
        store_map(self.entries@)
    }
}

impl MemoryStore {
    /// An empty store serving `bucket_name` in `region`.
    pub fn new(bucket_name: String, region: String) -> (r: Self)
        ensures
            r@ == Map::<Seq<char>, Seq<u8>>::empty(),
            r.bucket_name == bucket_name,
            r.region == region,
            r.etag is None,
    {
        MemoryStore { bucket_name, region, etag: None, entries: Vec::new() }
    }

    /// Writes `buffer` under `key`, silently overwriting any prior object
    /// with that key, and returns the key's upload result. The in-memory
    /// store never fails.
    pub fn upload(&mut self, buffer: Vec<u8>, key: &str) -> (r: Result<
        UploadResult,
        StorageError,
    >)
        ensures
            final(self)@ == old(self)@.insert(key@, buffer@),
            final(self).bucket_name == old(self).bucket_name,
            final(self).region == old(self).region,
            final(self).etag == old(self).etag,
            r matches Ok(u) ==> u.key@ == key@ && u.url@ == s3_url_spec(
                old(self).bucket_name@,
                old(self).region@,
                key@,
            ) && u.etag == old(self).etag,
            r is Ok,
    {
        let url = s3_url(self.bucket_name.as_str(), self.region.as_str(), key);
        let etag = match &self.etag {
            Some(tag) => Some(tag.clone()),
            None => None,
        };
        let stored_key = key.to_owned();
        let ghost entries_before = self.entries@;
        self.entries.push((stored_key, buffer));
        proof {
            assert(self.entries@.drop_last() =~= entries_before);
        }
        Ok(UploadResult { key: key.to_owned(), url, etag })
    }

    /// Reads the bytes most recently written under `key`, if any.
    pub fn get(&self, key: &str) -> (r: Option<&Vec<u8>>)
        ensures
            r matches Some(v) ==> self@.contains_key(key@) && v@ == self@[key@],
            (r is Some) <==> self@.contains_key(key@),
    {
        let mut i: usize = self.entries.len();
        proof {
            assert(self.entries@.take(self.entries@.len() as int) =~= self.entries@);
        }
        while i > 0
            invariant
                i <= self.entries@.len(),
                store_map(self.entries@).contains_key(key@) == store_map(
                    self.entries@.take(i as int),
                ).contains_key(key@),
                store_map(self.entries@).contains_key(key@) ==> store_map(self.entries@)[key@]
                    == store_map(self.entries@.take(i as int))[key@],
            decreases i,
        {
            i = i - 1;
            proof {
                assert(self.entries@.take(i as int + 1).drop_last() =~= self.entries@.take(
                    i as int,
                ));
                assert(self.entries@.take(i as int + 1).last() == self.entries@[i as int]);
            }
            if str_eq(self.entries[i].0.as_str(), key) {
                return Some(&self.entries[i].1);
            }
        }
        proof {
            assert(self.entries@.take(0) =~= Seq::<(String, Vec<u8>)>::empty());
        }
        None
    }
}

/// Uploading the same key twice leaves the second payload: after writes of
/// `v1` then `v2` under one key `k`, the store's map holds `v2` at `k`, just
/// as if only the second write had happened. Together with `upload`'s and
/// `get`'s contracts, a read of `k` after the two writes returns `v2`.
pub proof fn lemma_second_upload_wins(
    m: Map<Seq<char>, Seq<u8>>,
    k: Seq<char>,
    v1: Seq<u8>,
    v2: Seq<u8>,
)
    ensures
        m.insert(k, v1).insert(k, v2)[k] == v2,
        m.insert(k, v1).insert(k, v2) == m.insert(k, v2),
{
    assert(m.insert(k, v1).insert(k, v2) =~= m.insert(k, v2));
}

} // verus!
