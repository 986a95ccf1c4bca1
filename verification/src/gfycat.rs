//! Gfycat and Redgifs retrieval planning.
//!
//! Both hosts serve a video either directly — when the id in the URL looks
//! well-formed — or through a JSON API that yields the media URL. The
//! functions here extract the id, judge its shape, and build the candidate
//! URLs; the requests themselves happen outside the library.

use vstd::prelude::*;
use crate::error::FetchError;
use crate::strutil::{find_first, find_from, lemma_find_from_is_occurrence, str_eq, str_to_chars};

verus! {

/// Specifies the format videos from Gfycat are downloaded in.
#[derive(Debug, Clone, Copy, PartialEq, Eq, Structural)]
pub enum GfycatType {
    /// Use `mp4` videos.
    Mp4,

    /// Use `webm` videos.
    Webm,
}

/// The file-type name of a Gfycat media type.
pub open spec fn gfycat_type_text(t: GfycatType) -> Seq<char> {
    match t {
        GfycatType::Mp4 => "mp4"@,
        GfycatType::Webm => "webm"@,
    }
}

impl GfycatType {
    /// The file-type name, as used in URLs and extensions.
    pub fn as_str(self) -> (r: &'static str)
        ensures
            r@ == gfycat_type_text(self),
    {
        match self {
            GfycatType::Mp4 => "mp4",
            GfycatType::Webm => "webm",
        }
    }
}

/// Parses the name of a Gfycat media type.
pub fn parse_gfycat_type(s: &str) -> (r: Option<GfycatType>)
    ensures
        s@ == "mp4"@ ==> r == Some(GfycatType::Mp4),
        s@ == "webm"@ ==> r == Some(GfycatType::Webm),
        s@ != "mp4"@ && s@ != "webm"@ ==> r is None,
{
    proof {
        reveal_strlit("mp4");
        reveal_strlit("webm");
        assert("mp4"@.len() == 3);
        assert("webm"@.len() == 4);
        assert("mp4"@ != "webm"@);
    }
    if str_eq(s, "mp4") {
        Some(GfycatType::Mp4)
    } else if str_eq(s, "webm") {
        Some(GfycatType::Webm)
    } else {
        None
    }
}

/// The Gfycat id within a URL path: the part between the initial `/` and the
/// first `-`, or everything after the initial `/` when there is no `-`.
pub open spec fn gfycat_id_of(url: Seq<char>) -> Seq<char> {
    match find_from(url, seq!['-'], 0) {
        Some(k) => url.subrange(1, k),
        None => url.skip(1),
    }
}

/// Whether a character is an ASCII uppercase letter.
pub open spec fn is_upper_char(c: char) -> bool {
    65 <= c as u32 <= 90
}

/// Whether an id looks well-formed: Gfycat's canonical ids carry ASCII
/// uppercase letters, while lowercased copies do not resolve directly.
pub open spec fn gfycat_well_formed(id: Seq<char>) -> bool {
    exists|i: int| 0 <= i < id.len() && is_upper_char(id[i])
}

/// Extracts the Gfycat id from the URL path, and whether it looks
/// well-formed.
pub fn extract_id<'a>(url: &'a str) -> (r: (&'a str, bool))
    requires
        url@.len() >= 1,
        url@[0] != '-',
    ensures
        r.0@ == gfycat_id_of(url@),
        r.1 == gfycat_well_formed(gfycat_id_of(url@)),
{
    let chars = str_to_chars(url);
    let mut dash: Vec<char> = Vec::new();
    dash.push('-');
    proof {
        assert(dash@ =~= seq!['-']);
    }
    let n = url.unicode_len();
    let end: usize = match find_first(&chars, &dash) {
        Some(k) => {
            proof {
                lemma_find_from_is_occurrence(url@, seq!['-'], 0, k as int);
                assert(url@.subrange(k as int, k + 1)[0] == url@[k as int]);
                assert(url@[k as int] == '-');
                assert(k != 0);
            }
            k
        },
        None => n,
    };
    let id = url.substring_char(1, end);
    proof {
        assert(url@.subrange(1, n as int) =~= url@.skip(1));
        assert(id@ == gfycat_id_of(url@));
    }
    let mut wf = false;
    let m = id.unicode_len();
    let mut i: usize = 0;
    while i < m
        invariant
            m == id@.len(),
            i <= m,
            wf == exists|j: int| 0 <= j < i && is_upper_char(id@[j]),
        decreases m - i,
    {
        let c = id.get_char(i);
        if (c as u32) >= 65 && (c as u32) <= 90 {
            wf = true;
        }
        i = i + 1;
    }
    (id, wf)
}

/// The id part of a Redgifs URL path: the path with its leading `/watch` cut
/// off, handed to the same id extraction as Gfycat.
pub fn redgifs_id<'a>(path: &'a str) -> (r: Result<(&'a str, bool), FetchError>)
    requires
        path@.len() != 6,
        path@.len() > 6 ==> path@[6] != '-',
    ensures
        path@.len() < 6 ==> (r matches Err(e) && e matches FetchError::MalformedResponse(m)
            && m@ == "Malformed URL"@),
        path@.len() > 6 ==> (r matches Ok(p) && p.0@ == gfycat_id_of(path@.skip(6)) && p.1
            == gfycat_well_formed(gfycat_id_of(path@.skip(6)))),
{
    let n = path.unicode_len();
    if n < 6 {
        return Err(FetchError::MalformedResponse("Malformed URL".to_owned()));
    }
    let sub = path.substring_char(6, n);
    proof {
        assert(sub@ == path@.skip(6));
        assert(sub@[0] == path@[6]);
    }
    let (id, wf) = extract_id(sub);
    Ok((id, wf))
}

/// The direct-download URL for a well-formed Gfycat id.
pub open spec fn gfycat_direct_url_text(id: Seq<char>, t: GfycatType) -> Seq<char> {
    "https://giant.gfycat.com/"@ + id + "."@ + gfycat_type_text(t)
}

/// Builds the direct-download URL on `giant.gfycat.com`.
pub fn gfycat_direct_url(id: &str, t: GfycatType) -> (r: String)
    ensures
        r@ == gfycat_direct_url_text(id@, t),
{
    let mut s = "https://giant.gfycat.com/".to_owned();
    s.append(id);
    s.append(".");
    s.append(t.as_str());
    s
}

/// The direct-download URL for a well-formed Redgifs id.
pub open spec fn redgifs_direct_url_text(id: Seq<char>, t: GfycatType) -> Seq<char> {
    "https://thumbs1.redgifs.com/"@ + id + "."@ + gfycat_type_text(t)
}

/// Builds the direct-download URL on `thumbs1.redgifs.com`.
pub fn redgifs_direct_url(id: &str, t: GfycatType) -> (r: String)
    ensures
        r@ == redgifs_direct_url_text(id@, t),
{
    let mut s = "https://thumbs1.redgifs.com/".to_owned();
    s.append(id);
    s.append(".");
    s.append(t.as_str());
    s
}

/// The Gfycat API lookup URL for an id.
pub open spec fn gfycat_api_url_text(id: Seq<char>) -> Seq<char> {
    "https://api.gfycat.com/v1/gfycats/"@ + id
}

/// Builds the Gfycat API lookup URL.
pub fn gfycat_api_url(id: &str) -> (r: String)
    ensures
        r@ == gfycat_api_url_text(id@),
{
    let mut s = "https://api.gfycat.com/v1/gfycats/".to_owned();
    s.append(id);
    s
}

/// The Redgifs API lookup URL for an id.
pub open spec fn redgifs_api_url_text(id: Seq<char>) -> Seq<char> {
    "https://api.redgifs.com/v1/gfycats/"@ + id
}

/// Builds the Redgifs API lookup URL.
pub fn redgifs_api_url(id: &str) -> (r: String)
    ensures
        r@ == redgifs_api_url_text(id@),
{
    let mut s = "https://api.redgifs.com/v1/gfycats/".to_owned();
    s.append(id);
    s
}

/// A Gfycat video's media URLs, as the API reports them.
#[derive(Debug, Clone)]
pub struct GfyItem {
    /// The URL of the `mp4` rendering.
    pub mp4_url: String,

    /// The URL of the `webm` rendering.
    pub webm_url: String,
}

/// Picks the media URL matching the configured media type.
pub fn gfycat_media_url<'a>(item: &'a GfyItem, t: GfycatType) -> (r: &'a String)
    ensures
        t == GfycatType::Mp4 ==> r@ == item.mp4_url@,
        t == GfycatType::Webm ==> r@ == item.webm_url@,
{
    match t {
        GfycatType::Mp4 => &item.mp4_url,
        GfycatType::Webm => &item.webm_url,
    }
}

} // verus!
