//! The download history: the record that deduplication and reporting
//! consult. Persistence lives outside the crate; this is the record's
//! logic.

use vstd::prelude::*;

use crate::clock::now_unix_seconds;
use crate::strutil::{contains_str, lower_of, spec_contains, str_eq, to_lowercase_str};

verus! {

/// One recorded download.
#[derive(Debug)]
pub struct HistoryEntry {
    pub url: String,
    pub title: String,
    pub file_path: String,
    pub file_size: u64,
    /// Seconds since the Unix epoch at which the entry was recorded.
    pub timestamp: u64,
    pub quality: String,
    pub format: String,
}

impl Clone for HistoryEntry {
    /// A clone is the same entry, field for field.
    fn clone(&self) -> (r: Self)
        ensures
            r == *self,
    {
        HistoryEntry {
            url: self.url.clone(),
            title: self.title.clone(),
            file_path: self.file_path.clone(),
            file_size: self.file_size,
            timestamp: self.timestamp,
            quality: self.quality.clone(),
            format: self.format.clone(),
        }
    }
}

impl HistoryEntry {
    /// A fresh entry stamped with the current time.
    pub fn new(
        url: String,
        title: String,
        file_path: String,
        file_size: u64,
        quality: String,
        format: String,
    ) -> (r: HistoryEntry)
        ensures
            r.url == url,
            r.title == title,
            r.file_path == file_path,
            r.file_size == file_size,
            r.quality == quality,
            r.format == format,
    {
        HistoryEntry { url, title, file_path, file_size, timestamp: now_unix_seconds(), quality, format }
    }
}

/// Whether some entry records `url`.
pub open spec fn spec_contains_url(entries: Seq<HistoryEntry>, url: Seq<char>) -> bool {
    exists|k: int| 0 <= k < entries.len() && entries[k].url@ == url
}

/// Whether an entry matches a lowercased search query: its title or
/// its URL contains the query, compared case-insensitively.
pub open spec fn entry_matches_query(e: HistoryEntry, query_lower: Seq<char>) -> bool {
    spec_contains(lower_of(e.title@), query_lower) || spec_contains(lower_of(e.url@), query_lower)
}

/// The entries that match a lowercased query, in their original order.
pub open spec fn spec_search(entries: Seq<HistoryEntry>, query_lower: Seq<char>) -> Seq<
    HistoryEntry,
>
    decreases entries.len(),
{
    if entries.len() == 0 {
        Seq::empty()
    } else {
        spec_search(entries.drop_last(), query_lower) + if entry_matches_query(
            entries.last(),
            query_lower,
        ) {
            seq![entries.last()]
        } else {
            Seq::empty()
        }
    }
}

/// The entries with a timestamp strictly newer than `cutoff`, in their
/// original order.
pub open spec fn spec_retain_newer(entries: Seq<HistoryEntry>, cutoff: u64) -> Seq<HistoryEntry>
    decreases entries.len(),
{
    if entries.len() == 0 {
        Seq::empty()
    } else {
        spec_retain_newer(entries.drop_last(), cutoff) + if entries.last().timestamp > cutoff {
            seq![entries.last()]
        } else {
            Seq::empty()
        }
    }
}

/// Whether `entries` is sorted newest first.
pub open spec fn sorted_newest_first(entries: Seq<HistoryEntry>) -> bool {
    forall|i: int, j: int|
        0 <= i < j < entries.len() ==> entries[i].timestamp >= entries[j].timestamp
}

/// The download record.
#[derive(Debug)]
pub struct History {
    pub entries: Vec<HistoryEntry>,
}

impl Clone for History {
    /// A clone holds the same entries.
    fn clone(&self) -> (r: Self)
        ensures
            r.entries@ == self.entries@,
    {
        let n = self.entries.len();
        let mut out: Vec<HistoryEntry> = Vec::new();
        let mut k: usize = 0;
        while k < n
            invariant
                n == self.entries@.len(),
                k <= n,
                out@ == self.entries@.subrange(0, k as int),
            decreases n - k,
        {
            out.push(self.entries[k].clone());
            proof {
                assert(out@ =~= self.entries@.subrange(0, k + 1));
            }
            k = k + 1;
        }
        proof {
            assert(self.entries@.subrange(0, n as int) =~= self.entries@);
        }
        History { entries: out }
    }
}

impl History {
    /// An empty record.
    pub fn new() -> (r: History)
        ensures
            r.entries@.len() == 0,
    {
        History { entries: Vec::new() }
    }

    /// Appends one entry.
    pub fn add_entry(&mut self, entry: HistoryEntry)
        ensures
            final(self).entries@ == old(self).entries@ + seq![entry],
    {
        self.entries.push(entry);
    }

    /// Whether `url` was already recorded.
    pub fn contains_url(&self, url: &str) -> (r: bool)
        ensures
            r == spec_contains_url(self.entries@, url@),
    {
        let n = self.entries.len();
        let mut k: usize = 0;
        while k < n
            invariant
                n == self.entries@.len(),
                k <= n,
                forall|k2: int| 0 <= k2 < k ==> self.entries@[k2].url@ != url@,
            decreases n - k,
        {
            if str_eq(self.entries[k].url.as_str(), url) {
                return true;
            }
            k = k + 1;
        }
        false
    }

    /// The first entry recording `url`, if any.
    pub fn get_entry_by_url(&self, url: &str) -> (r: Option<&HistoryEntry>)
        ensures
            match r {
                Option::Some(e) => exists|k: int|
                    0 <= k < self.entries@.len() && self.entries@[k] == *e && e.url@ == url@,
                Option::None => !spec_contains_url(self.entries@, url@),
            },
    {
        let n = self.entries.len();
        let mut k: usize = 0;
        while k < n
            invariant
                n == self.entries@.len(),
                k <= n,
                forall|k2: int| 0 <= k2 < k ==> self.entries@[k2].url@ != url@,
            decreases n - k,
        {
            if str_eq(self.entries[k].url.as_str(), url) {
                return Some(&self.entries[k]);
            }
            k = k + 1;
        }
        None
    }

    /// The entries whose title or URL contains `query`, compared
    /// case-insensitively, in their original order.
    pub fn search(&self, query: &str) -> (r: Vec<HistoryEntry>)
        ensures
            r@ == spec_search(self.entries@, lower_of(query@)),
    {
        let query_lower = to_lowercase_str(query);
        let n = self.entries.len();
        let mut out: Vec<HistoryEntry> = Vec::new();
        let mut k: usize = 0;
        while k < n
            invariant
                n == self.entries@.len(),
                k <= n,
                query_lower@ == lower_of(query@),
                out@ == spec_search(self.entries@.subrange(0, k as int), query_lower@),
            decreases n - k,
        {
            let e = &self.entries[k];
            let tl = to_lowercase_str(e.title.as_str());
            let ul = to_lowercase_str(e.url.as_str());
            let m = contains_str(tl.as_str(), query_lower.as_str()) || contains_str(
                ul.as_str(),
                query_lower.as_str(),
            );
            proof {
                assert(self.entries@.subrange(0, k + 1).drop_last() =~= self.entries@.subrange(
                    0,
                    k as int,
                ));
                assert(self.entries@.subrange(0, k + 1).last() == self.entries@[k as int]);
            }
            if m {
                out.push(e.clone());
            }
            k = k + 1;
        }
        proof {
            assert(self.entries@.subrange(0, n as int) =~= self.entries@);
        }
        out
    }

    /// The `limit` newest entries, newest first. Ties keep no
    /// particular order; the result is drawn from the record.
    pub fn get_recent(&self, limit: usize) -> (r: Vec<HistoryEntry>)
        ensures
            r@.len() == vstd::math::min(limit as int, self.entries@.len() as int),
            sorted_newest_first(r@),
            forall|i: int| 0 <= i < r@.len() ==> self.entries@.contains(#[trigger] r@[i]),
    {
        let mut sorted: Vec<HistoryEntry> = Vec::new();
        let n = self.entries.len();
        let mut k: usize = 0;
        while k < n
            invariant
                n == self.entries@.len(),
                k <= n,
                sorted@.len() == k,
                sorted_newest_first(sorted@),
                forall|i: int|
                    0 <= i < sorted@.len() ==> self.entries@.contains(#[trigger] sorted@[i]),
            decreases n - k,
        {
            let e = self.entries[k].clone();
            // insert e keeping the order: newest (largest timestamp) first
            let mut pos: usize = 0;
            while pos < sorted.len() && sorted[pos].timestamp >= e.timestamp
                invariant
                    pos <= sorted@.len(),
                    sorted_newest_first(sorted@),
                    forall|i: int| 0 <= i < pos ==> sorted@[i].timestamp >= e.timestamp,
                decreases sorted@.len() - pos,
            {
                pos = pos + 1;
            }
            let ghost s_old = sorted@;
            let ghost p = pos as int;
            let ghost ent = e;
            sorted.insert(pos, e);
            proof {
                s_old.insert_ensures(p, ent);
                assert forall|i: int, j: int|
                    0 <= i < j < sorted@.len() implies sorted@[i].timestamp
                    >= sorted@[j].timestamp by {
                    if j < p {
                        assert(sorted@[i] == s_old[i] && sorted@[j] == s_old[j]);
                    } else if j == p {
                        assert(sorted@[i] == s_old[i] && sorted@[j] == ent);
                    } else {
                        assert(sorted@[j] == s_old[j - 1]);
                        if i < p {
                            assert(sorted@[i] == s_old[i]);
                            if p < s_old.len() {
                                assert(s_old[i].timestamp >= e.timestamp || i < p);
                            }
                        } else if i == p {
                            assert(sorted@[i] == ent);
                            assert(!(s_old[p].timestamp >= ent.timestamp));
                        } else {
                            assert(sorted@[i] == s_old[i - 1]);
                        }
                    }
                }
                assert forall|i: int| 0 <= i < sorted@.len() implies self.entries@.contains(
                    #[trigger] sorted@[i],
                ) by {
                    if i < p {
                        assert(sorted@[i] == s_old[i]);
                    } else if i == p {
                        assert(sorted@[i] == ent);
                        assert(self.entries@[k as int] == ent);
                    } else {
                        assert(sorted@[i] == s_old[i - 1]);
                    }
                }
            }
            k = k + 1;
        }
        let ghost before = sorted@;
        sorted.truncate(limit);
        proof {
            assert forall|i: int| 0 <= i < sorted@.len() implies #[trigger] sorted@[i]
                == before[i] by {
                if limit < before.len() {
                    assert(sorted@ == before.subrange(0, limit as int));
                }
            }
        }
        sorted
    }

    /// Forgets every entry.
    pub fn clear(&mut self)
        ensures
            final(self).entries@.len() == 0,
    {
        self.entries.clear();
    }

    /// Removes the entries recorded at or before `cutoff`.
    pub fn remove_older_than_cutoff(&mut self, cutoff: u64)
        ensures
            final(self).entries@ == spec_retain_newer(old(self).entries@, cutoff),
    {
        let n = self.entries.len();
        let mut out: Vec<HistoryEntry> = Vec::new();
        let mut k: usize = 0;
        while k < n
            invariant
                n == self.entries@.len(),
                self.entries@ == old(self).entries@,
                k <= n,
                out@ == spec_retain_newer(self.entries@.subrange(0, k as int), cutoff),
            decreases n - k,
        {
            proof {
                assert(self.entries@.subrange(0, k + 1).drop_last() =~= self.entries@.subrange(
                    0,
                    k as int,
                ));
                assert(self.entries@.subrange(0, k + 1).last() == self.entries@[k as int]);
            }
            if self.entries[k].timestamp > cutoff {
                let e = self.entries[k].clone();
                out.push(e);
            }
            k = k + 1;
        }
        proof {
            assert(self.entries@.subrange(0, n as int) =~= self.entries@);
        }
        self.entries = out;
    }

    /// Removes the entries older than `days` days, measured from the
    /// clock now: what stays is a newer-than-some-cutoff subsequence.
    pub fn clear_older_than(&mut self, days: u64)
        ensures
            exists|c: u64| final(self).entries@ == spec_retain_newer(old(self).entries@, c),
    {
        let now = now_unix_seconds();
        let span = if days > u64::MAX / 86400 {
            u64::MAX
        } else {
            days * 86400
        };
        let cutoff = if now > span {
            now - span
        } else {
            0
        };
        self.remove_older_than_cutoff(cutoff);
    }

    /// How many entries the record holds.
    pub fn len(&self) -> (r: usize)
        ensures
            r == self.entries@.len(),
    {
        self.entries.len()
    }

    /// Whether the record holds nothing.
    pub fn is_empty(&self) -> (r: bool)
        ensures
            r == (self.entries@.len() == 0),
    {
        self.entries.is_empty()
    }
}

} // verus!
