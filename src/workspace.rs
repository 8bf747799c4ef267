use vstd::prelude::*;
use crate::text::{join, join_path};

verus! {

/// The application's own directory inside the user's data directory `data_dir`.
pub open spec fn working_dir_of(data_dir: Seq<char>) -> Seq<char> {
    join_path(data_dir, seq!['y', 'o', 'u', 't', 'e', 'r', 'm'])
}

/// Where helper programs live.
pub open spec fn bin_dir_of(data_dir: Seq<char>) -> Seq<char> {
    join_path(working_dir_of(data_dir), seq!['b', 'i', 'n'])
}

/// Where downloaded media files live.
pub open spec fn out_dir_of(data_dir: Seq<char>) -> Seq<char> {
    join_path(working_dir_of(data_dir), seq!['o', 'u', 't'])
}

/// Where the cache table is stored.
pub open spec fn cache_path_of(data_dir: Seq<char>) -> Seq<char> {
    join_path(working_dir_of(data_dir), seq!['c', 'a', 'c', 'h', 'e', '.', 'j', 's', 'o', 'n'])
}

pub fn get_working_dir(data_dir: &str) -> (r: String)
    ensures
        r@ == working_dir_of(data_dir@),
{
    proof {
        reveal_strlit("youterm");
    }
    join(data_dir, "youterm")
}

pub fn get_bin_dir(data_dir: &str) -> (r: String)
    ensures
        r@ == bin_dir_of(data_dir@),
{
    let base = get_working_dir(data_dir);
    proof {
        reveal_strlit("bin");
    }
    join(base.as_str(), "bin")
}

pub fn get_out_dir(data_dir: &str) -> (r: String)
    ensures
        r@ == out_dir_of(data_dir@),
{
    let base = get_working_dir(data_dir);
    proof {
        reveal_strlit("out");
    }
    join(base.as_str(), "out")
}

pub fn get_cache_path(data_dir: &str) -> (r: String)
    ensures
        r@ == cache_path_of(data_dir@),
{
    let base = get_working_dir(data_dir);
    proof {
        reveal_strlit("cache.json");
    }
    join(base.as_str(), "cache.json")
}

} // verus!
