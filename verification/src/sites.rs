//! Download dispatch: one strategy per supported host, and the file
//! extension a saved item gets.
//!
//! Exactly one strategy is selected per item by exact host match against a
//! small closed set. A self post bypasses host dispatch entirely; an
//! unmatched host fails — or, in force mode, falls back to writing the raw
//! response body.

use vstd::prelude::*;
use crate::error::FetchError;
use crate::gfycat::GfycatType;
use crate::pushshift::SecureMedia;
use crate::strutil::str_eq;

verus! {

/// A fetching job.
/// Used for describing every download job.
#[derive(Debug, Clone)]
pub struct FetchJob {
    /// The domain of the post.
    pub domain: String,

    /// Whether the post is a self post.
    pub is_selfpost: bool,

    /// The URL the post links to.
    /// This is not necessarily a reddit URL.
    pub url: String,

    /// The output file name.
    pub output: String,

    /// The text of the post if it is a self post.
    pub text: Option<String>,

    /// The media description if the item is a `v.redd.it` video.
    pub media: Option<SecureMedia>,
}

/// The retrieval strategies, one per supported host, with the self-post and
/// force fallbacks.
#[derive(Debug, Clone, Copy, PartialEq, Eq, Structural)]
pub enum FetchStrategy {
    /// Write the item's own text directly.
    SelfPost,

    /// Plain download from `i.redd.it`.
    RedditImage,

    /// A `v.redd.it` video: planned by the configured mode.
    RedditVideo,

    /// Plain download from `i.imgur.com`.
    ImgurDirect,

    /// An `imgur.com` album, gallery, or unprefixed direct link.
    ImgurAlbum,

    /// A `gfycat.com` video: direct or through the API.
    Gfycat,

    /// A `redgifs.com` video: direct or through the API.
    Redgifs,

    /// Plain download from `giant.gfycat.com`.
    GfycatGiant,

    /// Plain download from a thumbs host.
    GfycatThumbs,

    /// Plain download from `i.pinimg.com`.
    Pinterest,

    /// Plain download from `i.postimg.cc`.
    Postimages,

    /// Force mode: write whatever the URL answers to disk.
    Force,
}

/// Whether a host is in the closed set of supported domains.
pub open spec fn known_domain(d: Seq<char>) -> bool {
    ||| d == "i.redd.it"@
    ||| d == "v.redd.it"@
    ||| d == "i.imgur.com"@
    ||| d == "imgur.com"@
    ||| d == "gfycat.com"@
    ||| d == "redgifs.com"@
    ||| d == "giant.gfycat.com"@
    ||| d == "thumbs.gfycat.com"@
    ||| d == "thumbs1.redgifs.com"@
    ||| d == "i.pinimg.com"@
    ||| d == "i.postimg.cc"@
}

/// Selects the strategy for one item.
///
/// A self post with text is written directly, one without text is a
/// malformed item. Otherwise the host decides; an unmatched host fails with
/// an unsupported-domain error unless force mode is on.
pub fn select_strategy(domain: &str, is_selfpost: bool, has_text: bool, force: bool) -> (r:
    Result<FetchStrategy, FetchError>)
    ensures
        is_selfpost && has_text ==> r == Result::<FetchStrategy, FetchError>::Ok(
            FetchStrategy::SelfPost,
        ),
        is_selfpost && !has_text ==> (r matches Err(e) && e matches FetchError::MalformedResponse(
            m,
        ) && m@ == "Malformed self post: field 'selftext' missing"@),
        !is_selfpost ==> {
            if domain@ == "i.redd.it"@ {
                r == Result::<FetchStrategy, FetchError>::Ok(FetchStrategy::RedditImage)
            } else if domain@ == "v.redd.it"@ {
                r == Result::<FetchStrategy, FetchError>::Ok(FetchStrategy::RedditVideo)
            } else if domain@ == "i.imgur.com"@ {
                r == Result::<FetchStrategy, FetchError>::Ok(FetchStrategy::ImgurDirect)
            } else if domain@ == "imgur.com"@ {
                r == Result::<FetchStrategy, FetchError>::Ok(FetchStrategy::ImgurAlbum)
            } else if domain@ == "gfycat.com"@ {
                r == Result::<FetchStrategy, FetchError>::Ok(FetchStrategy::Gfycat)
            } else if domain@ == "redgifs.com"@ {
                r == Result::<FetchStrategy, FetchError>::Ok(FetchStrategy::Redgifs)
            } else if domain@ == "giant.gfycat.com"@ {
                r == Result::<FetchStrategy, FetchError>::Ok(FetchStrategy::GfycatGiant)
            } else if domain@ == "thumbs.gfycat.com"@ || domain@ == "thumbs1.redgifs.com"@ {
                r == Result::<FetchStrategy, FetchError>::Ok(FetchStrategy::GfycatThumbs)
            } else if domain@ == "i.pinimg.com"@ {
                r == Result::<FetchStrategy, FetchError>::Ok(FetchStrategy::Pinterest)
            } else if domain@ == "i.postimg.cc"@ {
                r == Result::<FetchStrategy, FetchError>::Ok(FetchStrategy::Postimages)
            } else if force {
                r == Result::<FetchStrategy, FetchError>::Ok(FetchStrategy::Force)
            } else {
                r matches Err(e) && e matches FetchError::UnsupportedDomain(d) && d@ == domain@
            }
        },
{
    if is_selfpost {
        if has_text {
            Ok(FetchStrategy::SelfPost)
        } else {
            Err(FetchError::MalformedResponse(
                "Malformed self post: field 'selftext' missing".to_owned(),
            ))
        }
    } else if str_eq(domain, "i.redd.it") {
        Ok(FetchStrategy::RedditImage)
    } else if str_eq(domain, "v.redd.it") {
        Ok(FetchStrategy::RedditVideo)
    } else if str_eq(domain, "i.imgur.com") {
        Ok(FetchStrategy::ImgurDirect)
    } else if str_eq(domain, "imgur.com") {
        Ok(FetchStrategy::ImgurAlbum)
    } else if str_eq(domain, "gfycat.com") {
        Ok(FetchStrategy::Gfycat)
    } else if str_eq(domain, "redgifs.com") {
        Ok(FetchStrategy::Redgifs)
    } else if str_eq(domain, "giant.gfycat.com") {
        Ok(FetchStrategy::GfycatGiant)
    } else if str_eq(domain, "thumbs.gfycat.com") {
        Ok(FetchStrategy::GfycatThumbs)
    } else if str_eq(domain, "thumbs1.redgifs.com") {
        Ok(FetchStrategy::GfycatThumbs)
    } else if str_eq(domain, "i.pinimg.com") {
        Ok(FetchStrategy::Pinterest)
    } else if str_eq(domain, "i.postimg.cc") {
        Ok(FetchStrategy::Postimages)
    } else if force {
        Ok(FetchStrategy::Force)
    } else {
        Err(FetchError::UnsupportedDomain(domain.to_owned()))
    }
}

/// The trailing dot-suffix of a path, scanning backward from position `i`:
/// stops at the first `.` (the suffix starts there) or the first `/` (the
/// final segment has no dot).
pub open spec fn dot_suffix_from(path: Seq<char>, i: int) -> Option<Seq<char>>
    decreases i + 1 when -1 <= i < path.len()
{
    if i < 0 {
        None
    } else if path[i] == '.' {
        Some(path.skip(i))
    } else if path[i] == '/' {
        None
    } else {
        dot_suffix_from(path, i - 1)
    }
}

/// The extension a URL path implies: the dot-suffix of its final segment.
pub open spec fn path_extension(path: Seq<char>) -> Option<Seq<char>> {
    dot_suffix_from(path, path.len() - 1)
}

/// The extension an item's file gets: self posts are text, `v.redd.it` is
/// always video, `gfycat.com` follows the configured media type, and
/// anything else takes the dot-suffix of the URL path's final segment.
pub open spec fn extension_of(
    host: Option<Seq<char>>,
    path: Seq<char>,
    t: GfycatType,
    is_selfpost: bool,
) -> Option<Seq<char>> {
    if is_selfpost {
        Some(".txt"@)
    } else if host == Some("v.redd.it"@) {
        Some(".mp4"@)
    } else if host == Some("gfycat.com"@) {
        match t {
            GfycatType::Mp4 => Some(".mp4"@),
            GfycatType::Webm => Some(".webm"@),
        }
    } else {
        path_extension(path)
    }
}

/// Gets the file extension of an URL.
pub fn file_extension<'a>(
    host: Option<&str>,
    path: &'a str,
    gfycat_type: GfycatType,
    is_selfpost: bool,
) -> (r: Option<&'a str>)
    ensures
        ({
            let h = match host {
                Some(h) => Some(h@),
                None => None,
            };
            match r {
                Some(e) => extension_of(h, path@, gfycat_type, is_selfpost) == Some(e@),
                None => extension_of(h, path@, gfycat_type, is_selfpost) is None,
            }
        }),
{
    if is_selfpost {
        return Some(".txt");
    }
    let is_vreddit = match host {
        Some(h) => str_eq(h, "v.redd.it"),
        None => false,
    };
    if is_vreddit {
        return Some(".mp4");
    }
    let is_gfycat = match host {
        Some(h) => str_eq(h, "gfycat.com"),
        None => false,
    };
    if is_gfycat {
        return match gfycat_type {
            GfycatType::Mp4 => Some(".mp4"),
            GfycatType::Webm => Some(".webm"),
        };
    }
    let ghost hv = match host {
        Some(h) => Some(h@),
        None => None::<Seq<char>>,
    };
    proof {
        assert(extension_of(hv, path@, gfycat_type, is_selfpost) == path_extension(path@));
    }
    let n = path.unicode_len();
    let mut j: usize = n;
    while j > 0
        invariant
            n == path@.len(),
            j <= n,
            hv == (match host {
                Some(h) => Some(h@),
                None => None::<Seq<char>>,
            }),
            extension_of(hv, path@, gfycat_type, is_selfpost) == path_extension(path@),
            path_extension(path@) == dot_suffix_from(path@, j - 1),
        decreases j,
    {
        j = j - 1;
        let c = path.get_char(j);
        if c == '.' {
            let ext = path.substring_char(j, n);
            proof {
                assert(ext@ == path@.skip(j as int));
            }
            return Some(ext);
        }
        if c == '/' {
            return None;
        }
    }
    None
}

/// Returns the currently supported domains.
pub fn supported_domains() -> (r: &'static str)
    ensures
        r@ == supported_domains_text(),
{
    "i.redd.it\nv.redd.it\ni.imgur.com\nimgur.com\ngfycat.com\nthumbs.gfycat.com\ngiant.gfycat.com\nredgifs.com\nthumbs1.redgifs.com\ni.pinimg.com\ni.postimg.cc"
}

/// The text listing the supported domains.
pub open spec fn supported_domains_text() -> Seq<char> {
    "i.redd.it\nv.redd.it\ni.imgur.com\nimgur.com\ngfycat.com\nthumbs.gfycat.com\ngiant.gfycat.com\nredgifs.com\nthumbs1.redgifs.com\ni.pinimg.com\ni.postimg.cc"@
}

} // verus!
