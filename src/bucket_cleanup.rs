//! The bucket cleanup's decisions: which stored objects are orphaned or
//! expired, and the tally of a run.
use crate::expiration::s3_host_marker;
use crate::text::{lemma_find_from_bounds, begins_with, find, find_from, path_after_host, path_of, starts_with_text, tail_from};
use vstd::prelude::*;
use vstd::string::*;

verus! {

/// Days after which an object that nothing refers to is deleted.
pub const ORPHAN_AGE_DAYS: i64 = 30;

/// The address prefix of the objects of `bucket`.
pub open spec fn bucket_prefix(bucket: Seq<char>) -> Seq<char> {
    "https://"@ + bucket + s3_host_marker()
}

/// The key of an address within `bucket`: what follows the bucket's prefix,
/// or for any other address its path.
pub open spec fn bucket_key_of(url: Seq<char>, bucket: Seq<char>) -> Seq<char> {
    if begins_with(url, bucket_prefix(bucket)) {
        url.subrange(bucket_prefix(bucket).len() as int, url.len() as int)
    } else {
        path_of(url)
    }
}

/// Extracts the object key of an address of `bucket`; an address of another
/// host yields its path. There is always a key.
pub fn extract_s3_key(url: &str, bucket_name: &str) -> (r: Option<String>)
    ensures
        r matches Some(k) && k@ == bucket_key_of(url@, bucket_name@),
{
    let mut prefix = String::from_str("https://");
    prefix.append(bucket_name);
    prefix.append(".s3.amazonaws.com/");
    proof {
        reveal_strlit("https://");
        reveal_strlit(".s3.amazonaws.com/");
    }
    if starts_with_text(url, prefix.as_str()) {
        Some(tail_from(url, prefix.as_str().unicode_len()))
    } else {
        Some(path_after_host(url))
    }
}

/// The key of an address of any storage host: after an AWS host, after an
/// R2 host, or else the address's path.
pub open spec fn any_key_of(url: Seq<char>) -> Seq<char> {
    match find_from(url, ".amazonaws.com/"@, 0) {
        Some(i) => url.subrange(i + 15, url.len() as int),
        None => match find_from(url, ".r2.dev/"@, 0) {
            Some(i) => url.subrange(i + 8, url.len() as int),
            None => path_of(url),
        },
    }
}

/// Extracts the object key from an address of any storage host. There is
/// always a key.
pub fn extract_s3_key_from_any_url(url: &str) -> (r: Option<String>)
    ensures
        r matches Some(k) && k@ == any_key_of(url@),
{
    let len = url.unicode_len();
    let aws = ".amazonaws.com/";
    let r2 = ".r2.dev/";
    proof {
        // Positions in `url` fit in `usize`.
        assert(len == url@.len());
        reveal_strlit(".amazonaws.com/");
        reveal_strlit(".r2.dev/");
        lemma_find_from_bounds(url@, aws@, 0);
        lemma_find_from_bounds(url@, r2@, 0);
    }
    match find(url, aws, 0) {
        Some(pos) => Some(tail_from(url, pos + 15)),
        None => match find(url, r2, 0) {
            Some(pos) => Some(tail_from(url, pos + 8)),
            None => Some(path_after_host(url)),
        },
    }
}

/// Some element of `v` reads `k`.
pub open spec fn holds_text(v: Seq<String>, k: Seq<char>) -> bool {
    exists|i: int| 0 <= i < v.len() && (#[trigger] v[i])@ == k
}

pub fn contains_text(v: &Vec<String>, k: &String) -> (r: bool)
    ensures
        r == holds_text(v@, k@),
{
    let mut i: usize = 0;
    while i < v.len()
        invariant
            i <= v.len(),
            forall|j: int| 0 <= j < i ==> (#[trigger] v@[j])@ != k@,
        decreases v.len() - i,
    {
        if v[i] == *k {
            return true;
        }
        i = i + 1;
    }
    false
}

/// The keys of the addresses that live rows refer to.
pub fn active_keys(urls: &Vec<String>, bucket_name: &str) -> (r: Vec<String>)
    ensures
        r@.len() == urls@.len(),
        forall|i: int| 0 <= i < r@.len() ==> (#[trigger] r@[i])@ == bucket_key_of(urls@[i]@, bucket_name@),
{
    let mut out: Vec<String> = Vec::new();
    let mut i: usize = 0;
    while i < urls.len()
        invariant
            i <= urls.len(),
            out@.len() == i,
            forall|j: int| 0 <= j < i ==> (#[trigger] out@[j])@ == bucket_key_of(urls@[j]@, bucket_name@),
        decreases urls.len() - i,
    {
        if let Some(k) = extract_s3_key(urls[i].as_str(), bucket_name) {
            out.push(k);
        }
        i = i + 1;
    }
    out
}

/// An object is deleted when it belongs to an expired story, or when no live
/// row refers to it and it is older than the orphan age.
pub open spec fn doomed(key: Seq<char>, age_days: i64, expired: Seq<String>, active: Seq<String>) -> bool {
    holds_text(expired, key) || (!holds_text(active, key) && age_days > ORPHAN_AGE_DAYS)
}

pub fn should_delete(key: &String, age_days: i64, expired_keys: &Vec<String>, active_keys: &Vec<String>) -> (r: bool)
    ensures
        r == doomed(key@, age_days, expired_keys@, active_keys@),
{
    if contains_text(expired_keys, key) {
        true
    } else {
        !contains_text(active_keys, key) && age_days > ORPHAN_AGE_DAYS
    }
}

/// The tally of one cleanup run.
#[derive(Debug)]
pub struct CleanupStats {
    pub files_scanned: usize,
    pub files_deleted: usize,
    pub bytes_freed: i64,
}

impl CleanupStats {
    /// A run that scanned `files_scanned` objects and deleted none yet.
    pub fn scanned(files_scanned: usize) -> (r: CleanupStats)
        ensures
            r.files_scanned == files_scanned,
            r.files_deleted == 0,
            r.bytes_freed == 0,
    {
        CleanupStats { files_scanned, files_deleted: 0, bytes_freed: 0 }
    }

    /// Counts one deleted object of `size` bytes.
    pub fn record_deletion(&mut self, size: i64)
        requires
            old(self).files_deleted < usize::MAX,
            i64::MIN <= old(self).bytes_freed + size <= i64::MAX,
        ensures
            final(self).files_scanned == old(self).files_scanned,
            final(self).files_deleted == old(self).files_deleted + 1,
            final(self).bytes_freed == old(self).bytes_freed + size,
    {
        self.files_deleted = self.files_deleted + 1;
        self.bytes_freed = self.bytes_freed + size;
    }
}

} // verus!
