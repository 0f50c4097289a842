use std::collections::VecDeque;
use vstd::prelude::*;
use vstd::string::*;
use crate::error::PlayError;
use crate::room::{locators, Song};

verus! {

/// What the media resolver made of a play request.
pub enum Resolved {
    /// One video, with its stream locator where the resolver found one.
    Single(Option<String>),
    /// A playlist, with each entry's stream locator where the resolver
    /// listed entries.
    Many(Option<Vec<Option<String>>>),
}

/// Whether every entry has a stream locator.
pub open spec fn all_present(entries: Seq<Option<String>>) -> bool {
    forall|i: int| 0 <= i < entries.len() ==> #[trigger] entries[i] is Some
}

/// The entries' stream locators, in order.
pub open spec fn present_locators(entries: Seq<Option<String>>) -> Seq<Seq<char>> {
    entries.map_values(|e: Option<String>| e->0@)
}

/// Whether every song the resolver returned has a stream locator.
pub open spec fn resolvable(resolved: Resolved) -> bool {
    match resolved {
        Resolved::Single(s) => s is Some,
        Resolved::Many(Some(es)) => all_present(es@),
        Resolved::Many(None) => false,
    }
}

/// The stream locators of what the resolver returned, in order.
pub open spec fn resolved_locators(resolved: Resolved) -> Seq<Seq<char>> {
    match resolved {
        Resolved::Single(Some(s)) => seq![s@],
        Resolved::Many(Some(es)) => present_locators(es@),
        _ => Seq::empty(),
    }
}

/// The query handed to the resolver for a URL: the first search hit for it.
pub fn search_query(url: &str) -> (r: String)
    ensures
        r@ == "ytsearch1:"@ + url@,
{
    String::from_str("ytsearch1:").concat(url)
}

/// The songs to enqueue for what the resolver returned on `url`, in order:
/// the single video, or every entry of the playlist. A video without a
/// locator, a playlist without entries, or any entry without a locator fails
/// the whole request, and nothing is enqueued.
pub fn songs_from(resolved: Resolved, url: &str) -> (r: Result<VecDeque<Song>, PlayError>)
    ensures
        resolvable(resolved) ==> (r matches Ok(v) && locators(v@) == resolved_locators(resolved)),
        !resolvable(resolved) ==> (r matches Err(PlayError::Ytdl(u)) && u@ == url@),
{
    match resolved {
        Resolved::Single(Some(s)) => {
            let mut v: VecDeque<Song> = VecDeque::new();
            v.push_back(Song::new(s));
            assert(locators(v@) =~= seq![s@]);
            Ok(v)
        },
        Resolved::Single(None) => Err(PlayError::Ytdl(String::from_str(url))),
        Resolved::Many(None) => Err(PlayError::Ytdl(String::from_str(url))),
        Resolved::Many(Some(es)) => {
            let mut v: VecDeque<Song> = VecDeque::new();
            let mut i: usize = 0;
            while i < es.len()
                invariant
                    0 <= i <= es@.len(),
                    resolvable(resolved) == all_present(es@),
                    resolved_locators(resolved) == present_locators(es@),
                    v@.len() == i,
                    all_present(es@.take(i as int)),
                    locators(v@) == present_locators(es@.take(i as int)),
                decreases es@.len() - i,
            {
                let ghost before = v@;
                match &es[i] {
                    Some(s) => {
                        v.push_back(Song::new(s.clone()));
                        assert(es@.take(i + 1) =~= es@.take(i as int).push(es@[i as int]));
                        assert(locators(v@) =~= locators(before).push(s@));
                        assert(present_locators(es@.take(i + 1)) =~= present_locators(
                            es@.take(i as int),
                        ).push(s@));
                    },
                    None => {
                        assert(es@[i as int] is None);
                        assert(!all_present(es@));
                        return Err(PlayError::Ytdl(String::from_str(url)));
                    },
                }
                i = i + 1;
            }
            assert(es@.take(i as int) =~= es@);
            Ok(v)
        },
    }
}

} // verus!
