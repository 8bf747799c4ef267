use vstd::prelude::*;
use crate::text::{join, join_path};

verus! {

/// One cached download: the request it answered and the file it produced.
pub struct CacheRecord {
    /// Canonical text of the request URL; the key of the table.
    pub url: String,
    /// File name of the downloaded media inside the output directory.
    pub name: String,
}

/// The table that `records` builds when they are inserted in order: a later
/// record for the same URL replaces an earlier one.
pub open spec fn table_of(records: Seq<CacheRecord>) -> Map<Seq<char>, Seq<char>>
    decreases records.len(),
{
    if records.len() == 0 {
        Map::empty()
    } else {
        let last = records.last();
        table_of(records.drop_last()).insert(last.url@, last.name@)
    }
}

/// Where the asset cached for `url` lives, if any.
pub open spec fn lookup_path(
    table: Map<Seq<char>, Seq<char>>,
    out_dir: Seq<char>,
    url: Seq<char>,
) -> Option<Seq<char>> {
    if table.contains_key(url) {
        Some(join_path(out_dir, table[url]))
    } else {
        None
    }
}

/// Whether a request for `url` has to download the media again.
pub open spec fn fetch_needed(table: Map<Seq<char>, Seq<char>>, url: Seq<char>, use_cache: bool) -> bool {
    !use_cache || !table.contains_key(url)
}

/// What `table_of` makes of records whose URLs are all different: each
/// record's name under its URL, and no other key.
pub proof fn table_of_distinct(records: Seq<CacheRecord>)
    requires
        forall|i: int, j: int|
            0 <= i < records.len() && 0 <= j < records.len() && i != j
                ==> #[trigger] records[i].url@ != #[trigger] records[j].url@,
    ensures
        forall|i: int|
            0 <= i < records.len() ==> {
                &&& table_of(records).contains_key(#[trigger] records[i].url@)
                &&& table_of(records)[records[i].url@] == records[i].name@
            },
        forall|u: Seq<char>|
            #[trigger] table_of(records).contains_key(u) ==> exists|i: int|
                0 <= i < records.len() && #[trigger] records[i].url@ == u,
    decreases records.len(),
{
    if records.len() > 0 {
        let init = records.drop_last();
        table_of_distinct(init);
        let n = records.len() - 1;
        assert(table_of(records) == table_of(init).insert(records[n].url@, records[n].name@));
        assert forall|i: int| 0 <= i < records.len() implies {
            &&& table_of(records).contains_key(#[trigger] records[i].url@)
            &&& table_of(records)[records[i].url@] == records[i].name@
        } by {
            if i < n {
                assert(init[i] == records[i]);
                assert(records[i].url@ != records[n].url@);
            }
        }
        assert forall|u: Seq<char>| #[trigger] table_of(records).contains_key(u) implies exists|i: int|
            0 <= i < records.len() && #[trigger] records[i].url@ == u by {
            if u != records[n].url@ {
                assert(table_of(init).contains_key(u));
                let k = choose|k: int| 0 <= k < init.len() && #[trigger] init[k].url@ == u;
                assert(init[k] == records[k]);
                assert(records[k].url@ == u);
            } else {
                assert(records[n].url@ == u);
            }
        }
    }
}

/// The table from request URL to downloaded file name.
pub struct CacheManager {
    records: Vec<CacheRecord>,
    table: Ghost<Map<Seq<char>, Seq<char>>>,
}

impl View for CacheManager {
    type V = Map<Seq<char>, Seq<char>>;

    closed spec fn view(&self) -> Map<Seq<char>, Seq<char>> {
        self.table@
    }
}

impl CacheManager {
    /// The records agree with the table, one record per URL.
    pub closed spec fn wf(&self) -> bool {
        &&& forall|i: int|
            0 <= i < self.records@.len() ==> {
                &&& self.table@.contains_key(#[trigger] self.records@[i].url@)
                &&& self.table@[self.records@[i].url@] == self.records@[i].name@
            }
        &&& forall|i: int, j: int|
            0 <= i < self.records@.len() && 0 <= j < self.records@.len() && i != j
                ==> #[trigger] self.records@[i].url@ != #[trigger] self.records@[j].url@
        &&& forall|u: Seq<char>|
            #[trigger] self.table@.contains_key(u) ==> exists|i: int|
                0 <= i < self.records@.len() && #[trigger] self.records@[i].url@ == u
        &&& self.records@.len() == self.table@.dom().len()
        &&& self.table@.dom().finite()
    }

    /// Number of records held: one per URL.
    pub closed spec fn spec_len(&self) -> nat {
        self.records@.len()
    }

    /// The table holding `stored` (a table read back from storage, or nothing).
    pub fn initialize(stored: &Vec<CacheRecord>) -> (r: CacheManager)
        ensures
            r.wf(),
            r@ == table_of(stored@),
    {
        let mut r = CacheManager { records: Vec::new(), table: Ghost(Map::empty()) };
        proof {
            assert(stored@.subrange(0, 0) =~= Seq::<CacheRecord>::empty());
        }
        let mut i: usize = 0;
        while i < stored.len()
            invariant
                r.wf(),
                i <= stored@.len(),
                r@ == table_of(stored@.subrange(0, i as int)),
            decreases stored@.len() - i,
        {
            let rec = &stored[i];
            r.add_record(rec.url.as_str(), rec.name.clone());
            proof {
                let next = stored@.subrange(0, i + 1);
                assert(next.drop_last() =~= stored@.subrange(0, i as int));
                assert(next.last() == stored@[i as int]);
            }
            i = i + 1;
        }
        proof {
            assert(stored@.subrange(0, i as int) =~= stored@);
        }
        r
    }

    fn find(&self, url: &str) -> (r: Option<usize>)
        requires
            self.wf(),
        ensures
            match r {
                Some(i) => i < self.records@.len() && self.records@[i as int].url@ == url@,
                None => !self@.contains_key(url@),
            },
    {
        let key = String::from_str(url);
        let mut i: usize = 0;
        while i < self.records.len()
            invariant
                self.wf(),
                key@ == url@,
                i <= self.records@.len(),
                forall|k: int| 0 <= k < i ==> #[trigger] self.records@[k].url@ != url@,
            decreases self.records@.len() - i,
        {
            if self.records[i].url == key {
                return Some(i);
            }
            i = i + 1;
        }
        None
    }

    /// Whether a record exists for exactly this URL text.
    pub fn contains(&self, url: &str) -> (r: bool)
        requires
            self.wf(),
        ensures
            r == self@.contains_key(url@),
    {
        self.find(url).is_some()
    }

    /// The path of the file cached for `url` inside `out_dir`, if there is a record.
    /// Whether the file is still on disk is not checked.
    pub fn get_video_path(&self, out_dir: &str, url: &str) -> (r: Option<String>)
        requires
            self.wf(),
        ensures
            r matches Some(p) ==> lookup_path(self@, out_dir@, url@) == Some(p@),
            r is None ==> lookup_path(self@, out_dir@, url@) is None,
    {
        match self.find(url) {
            Some(i) => Some(join(out_dir, self.records[i].name.as_str())),
            None => None,
        }
    }

    /// Whether a request for `url` must download the media: always when the
    /// cache is not used, otherwise only when no record exists.
    pub fn needs_fetch(&self, url: &str, use_cache: bool) -> (r: bool)
        requires
            self.wf(),
        ensures
            r == fetch_needed(self@, url@, use_cache),
    {
        !use_cache || !self.contains(url)
    }

    /// Records that `url` was downloaded to the file `file_name`, replacing an
    /// earlier record for the same URL.
    pub fn add_record(&mut self, url: &str, file_name: String)
        requires
            old(self).wf(),
        ensures
            final(self).wf(),
            final(self)@ == old(self)@.insert(url@, file_name@),
            final(self).spec_len() == old(self).spec_len() + if old(self)@.contains_key(url@) { 0int } else { 1int },
    {
        let ghost name = file_name@;
        let rec = CacheRecord { url: String::from_str(url), name: file_name };
        let ghost old_records = self.records@;
        let ghost old_table = self.table@;
        match self.find(url) {
            Some(i) => {
                self.records.set(i, rec);
                self.table = Ghost(old_table.insert(url@, name));
                proof {
                    assert(old_table.dom().insert(url@) =~= old_table.dom());
                    assert forall|u: Seq<char>| #[trigger] self.table@.contains_key(u) implies exists|k: int|
                        0 <= k < self.records@.len() && #[trigger] self.records@[k].url@ == u by {
                        if u != url@ {
                            let k = choose|k: int| 0 <= k < old_records.len() && #[trigger] old_records[k].url@ == u;
                            assert(self.records@[k].url@ == u);
                        } else {
                            assert(self.records@[i as int].url@ == u);
                        }
                    }
                }
            },
            None => {
                self.records.push(rec);
                self.table = Ghost(old_table.insert(url@, name));
                proof {
                    assert(!old_table.dom().contains(url@));
                    assert forall|u: Seq<char>| #[trigger] self.table@.contains_key(u) implies exists|k: int|
                        0 <= k < self.records@.len() && #[trigger] self.records@[k].url@ == u by {
                        if u != url@ {
                            let k = choose|k: int| 0 <= k < old_records.len() && #[trigger] old_records[k].url@ == u;
                            assert(self.records@[k].url@ == u);
                        } else {
                            assert(self.records@[old_records.len() as int].url@ == u);
                        }
                    }
                }
            },
        }
    }

    /// The records, one per URL, for writing the table back to storage.
    pub fn records(&self) -> (r: &Vec<CacheRecord>)
        requires
            self.wf(),
        ensures
            r@.len() == self.spec_len(),
            forall|i: int| 0 <= i < r@.len() ==> self@.contains_key(#[trigger] r@[i].url@) && self@[r@[i].url@] == r@[i].name@,
            forall|u: Seq<char>| #[trigger] self@.contains_key(u) ==> exists|i: int| 0 <= i < r@.len() && #[trigger] r@[i].url@ == u,
            table_of(r@) == self@,
    {
        proof {
            table_of_distinct(self.records@);
            assert(table_of(self.records@) =~= self@);
        }
        &self.records
    }
}

/// Inserting a record for `url` and then looking `url` up gives the file's
/// path inside the output directory.
pub proof fn insert_then_lookup(
    table: Map<Seq<char>, Seq<char>>,
    out_dir: Seq<char>,
    url: Seq<char>,
    name: Seq<char>,
)
    ensures
        lookup_path(table.insert(url, name), out_dir, url) == Some(join_path(out_dir, name)),
{
}

/// A fresh table holds no URL; after an insert for `url` it holds `url`, and an
/// insert for another URL does not change whether it holds `url`.
pub proof fn contains_after_insert(
    table: Map<Seq<char>, Seq<char>>,
    url: Seq<char>,
    other: Seq<char>,
    name: Seq<char>,
)
    ensures
        !table_of(Seq::empty()).contains_key(url),
        table.insert(url, name).contains_key(url),
        other != url ==> (table.insert(other, name).contains_key(url) == table.contains_key(url)),
{
}

/// The last insert for a URL wins: the earlier name is gone, and the table is
/// as if only the last insert had been made.
pub proof fn reinsert_overwrites(
    table: Map<Seq<char>, Seq<char>>,
    url: Seq<char>,
    first: Seq<char>,
    second: Seq<char>,
)
    ensures
        table.insert(url, first).insert(url, second) == table.insert(url, second),
        table.insert(url, first).insert(url, second)[url] == second,
        table.insert(url, first).insert(url, second).dom() == table.insert(url, first).dom(),
{
    assert(table.insert(url, first).insert(url, second) =~= table.insert(url, second));
    assert(table.insert(url, first).insert(url, second).dom() =~= table.insert(url, first).dom());
}

/// Once a URL has been recorded, a request for it with the cache in use needs
/// no download.
pub proof fn recorded_needs_no_fetch(table: Map<Seq<char>, Seq<char>>, url: Seq<char>, name: Seq<char>)
    ensures
        !fetch_needed(table.insert(url, name), url, true),
        fetch_needed(table.insert(url, name), url, false),
{
}

} // verus!
