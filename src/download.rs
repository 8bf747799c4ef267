use vstd::prelude::*;
use crate::text::{contains_str, contains_text};

verus! {

/// A file in the output directory is the download of a video with this title.
pub open spec fn is_download_of(file_name: Seq<char>, title: Seq<char>) -> bool {
    contains_text(file_name, title) && contains_text(file_name, seq!['m', 'p', '4'])
}

/// Among the names of the files in the output directory, in the order they
/// were listed, the first that holds the video's title and "mp4".
pub fn find_downloaded_file(entries: &Vec<String>, title: &str) -> (r: Option<String>)
    ensures
        match r {
            Some(name) => exists|i: int|
                0 <= i < entries@.len() && entries@[i]@ == name@ && is_download_of(entries@[i]@, title@)
                    && forall|k: int| 0 <= k < i ==> !is_download_of(#[trigger] entries@[k]@, title@),
            None => forall|k: int| 0 <= k < entries@.len() ==> !is_download_of(#[trigger] entries@[k]@, title@),
        },
{
    proof {
        reveal_strlit("mp4");
        assert("mp4"@ =~= seq!['m', 'p', '4']);
    }
    let mut i: usize = 0;
    while i < entries.len()
        invariant
            i <= entries@.len(),
            "mp4"@ == seq!['m', 'p', '4'],
            forall|k: int| 0 <= k < i ==> !is_download_of(#[trigger] entries@[k]@, title@),
        decreases entries@.len() - i,
    {
        let name = entries[i].as_str();
        if contains_str(name, title) && contains_str(name, "mp4") {
            let found = entries[i].clone();
            assert(is_download_of(entries@[i as int]@, title@));
            return Some(found);
        }
        i = i + 1;
    }
    None
}

} // verus!
