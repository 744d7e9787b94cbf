//! Search-side model: the search URL, the result type, the first-result
//! policy, and the canonical video URL.

use vstd::prelude::*;
use crate::download::DownloadError;

verus! {

/// One candidate returned by the search mirror.
#[derive(Default, Debug, Clone, PartialEq)]
pub struct SearchResult {
    pub title: String,
    pub video_id: String,
}

pub type YoutubeSearchResults = Vec<SearchResult>;

/// URL of a search for `query`, ordered by `sort_by`, restricted to
/// `res_type` results.
pub fn search_url(query: &str, sort_by: &str, res_type: &str) -> (r: String)
    ensures
        r@ == "https://iv.ggtyler.dev/api/v1/search?q="@ + query@ + "&sort_by="@ + sort_by@
            + "&type="@ + res_type@,
{
    let mut r = String::from_str("https://iv.ggtyler.dev/api/v1/search?q=");
    r.append(query);
    r.append("&sort_by=");
    r.append(sort_by);
    r.append("&type=");
    r.append(res_type);
    r
}

/// First-result policy: exactly the first candidate's identifier is used,
/// whatever follows it; an empty candidate list is the fatal error the run
/// aborts with.
pub fn first_video_id(results: &YoutubeSearchResults) -> (r: Result<String, DownloadError>)
    ensures
        results@.len() == 0 ==> r == Err::<String, DownloadError>(DownloadError::NoSearchResults),
        results@.len() > 0 ==> (r matches Ok(id) && id@ == results@[0].video_id@),
{
    if results.len() == 0 {
        Err(DownloadError::NoSearchResults)
    } else {
        Ok(results[0].video_id.clone())
    }
}

/// The canonical video URL for a search result's identifier.
pub fn video_url(video_id: &str) -> (r: String)
    ensures
        r@ == "https://youtu.be/"@ + video_id@,
{
    let mut r = String::from_str("https://youtu.be/");
    r.append(video_id);
    r
}

} // verus!
