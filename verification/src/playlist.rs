//! Recognising YouTube URLs and extracting the playlist identifier
//! from a playlist link's query string.

use vstd::prelude::*;
use vstd::string::StringExecFns;

use crate::text::{contains_sub, has_substring, str_eq};

verus! {

/// What the `url` crate decodes a string's query into: the ordered,
/// percent-decoded key/value pairs, or nothing when the string is not
/// a valid URL. Deterministic in the string alone.
pub uninterp spec fn url_query_pairs(s: Seq<char>) -> Option<Seq<(Seq<char>, Seq<char>)>>;

/// View of a vector of owned key/value pairs.
pub open spec fn pairs_view(v: Seq<(String, String)>) -> Seq<(Seq<char>, Seq<char>)> {
    v.map_values(|p: (String, String)| (p.0@, p.1@))
}

/// Relies on url::Url::parse and url::Url::query_pairs: parsing either
/// fails or yields the URL's decoded query pairs in order, and both
/// depend on the input string alone.
#[verifier::external_body]
fn parse_url_query_pairs(s: &str) -> (r: Option<Vec<(String, String)>>)
    ensures
        match r {
            Some(v) => url_query_pairs(s@) == Some(pairs_view(v@)),
            None => url_query_pairs(s@) is None,
        },
{
    match url::Url::parse(s) {
        Ok(u) => Some(u.query_pairs().map(|(k, v)| (k.into_owned(), v.into_owned())).collect()),
        Err(_) => None,
    }
}

/// The value of the first pair whose key is `key`.
pub open spec fn first_value_for(ps: Seq<(Seq<char>, Seq<char>)>, key: Seq<char>) -> Option<
    Seq<char>,
>
    decreases ps.len(),
{
    if ps.len() == 0 {
        None
    } else if ps[0].0 == key {
        Some(ps[0].1)
    } else {
        first_value_for(ps.drop_first(), key)
    }
}

/// The playlist identifier a URL carries: the value of its first
/// `list` query parameter, if the string parses as a URL at all.
pub open spec fn spec_playlist_id(u: Seq<char>) -> Option<Seq<char>> {
    match url_query_pairs(u) {
        Some(ps) => first_value_for(ps, "list"@),
        None => None,
    }
}

/// A YouTube URL worth trying: a `youtube.com` watch link or a
/// `youtu.be` share link.
pub open spec fn spec_is_valid_youtube_url(u: Seq<char>) -> bool {
    (has_substring(u, "youtube.com"@) && has_substring(u, "/watch"@)) || has_substring(
        u,
        "youtu.be"@,
    )
}

/// Whether the given text looks like a playable YouTube URL.
pub fn is_valid_youtube_url(url: String) -> (r: bool)
    ensures
        r == spec_is_valid_youtube_url(url@),
{
    (contains_sub(url.as_str(), "youtube.com") && contains_sub(url.as_str(), "/watch"))
        || contains_sub(url.as_str(), "youtu.be")
}

/// Extracts the playlist identifier from a playlist URL: the value of
/// its first `list` query parameter. Strings that do not parse as a
/// URL, or whose query carries no `list` parameter, are reported as
/// unresolvable.
pub fn get_id_playlist(url: String) -> (r: Result<String, String>)
    ensures
        match r {
            Ok(id) => spec_playlist_id(url@) == Some(id@),
            Err(_) => spec_playlist_id(url@) is None,
        },
{
    match parse_url_query_pairs(url.as_str()) {
        None => Err(String::from_str("Não foi possivel resolver link")),
        Some(pairs) => {
            let ghost full = pairs_view(pairs@);
            proof {
                assert(full.skip(0) =~= full);
            }
            let mut i: usize = 0;
            while i < pairs.len()
                invariant
                    i <= pairs@.len(),
                    full == pairs_view(pairs@),
                    url_query_pairs(url@) == Some(full),
                    first_value_for(full, "list"@) == first_value_for(
                        full.skip(i as int),
                        "list"@,
                    ),
                decreases pairs@.len() - i,
            {
                let found = str_eq(pairs[i].0.as_str(), "list");
                proof {
                    assert(full.skip(i as int)[0] == (pairs@[i as int].0@, pairs@[i as int].1@));
                }
                if found {
                    return Ok(pairs[i].1.clone());
                }
                proof {
                    assert(full.skip(i as int).drop_first() =~= full.skip(i + 1));
                }
                i = i + 1;
            }
            proof {
                assert(full.skip(pairs@.len() as int) =~= Seq::<(Seq<char>, Seq<char>)>::empty());
            }
            Err(String::from_str("Não foi possivel resolver link"))
        },
    }
}

/// Builds the watch link for a video identifier.
pub fn create_link_youtbe(id: String) -> (r: String)
    ensures
        r@ == "https://www.youtube.com/watch?v="@ + id@,
{
    let mut link = String::from_str("https://www.youtube.com/watch?v=");
    link.append(id.as_str());
    link
}

} // verus!
