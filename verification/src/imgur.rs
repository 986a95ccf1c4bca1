//! Imgur retrieval planning: albums, galleries and direct images.
//!
//! An `imgur.com` link is an album (`/a/…`), a gallery (`/gallery/…`), or a
//! direct image without the `i.` host prefix. Albums are scraped from an
//! embed page — one line of its HTML carries the album JSON — and galleries
//! come from a JSON API; both yield a list of images that are then
//! downloaded one by one. The requests themselves happen outside the
//! library.

use vstd::prelude::*;
use crate::decimal::{dec_rep, u64_to_string};
use crate::strutil::{find_first, find_from, lemma_find_from_is_occurrence, occurs_at, occurs_at_exec, str_to_chars};

verus! {

/// An image on Imgur.
#[derive(Debug, Clone, PartialEq, Eq)]
pub struct Image {
    /// The image's hash, the path part of its direct URL.
    pub hash: String,

    /// The image's file extension, dot included.
    pub ext: String,
}

/// What an `imgur.com` path denotes.
#[derive(Debug, Clone)]
pub enum ImgurTarget {
    /// An album, with its id.
    Album(String),

    /// A gallery, with its id.
    Gallery(String),

    /// Anything else: assumed to be a direct image link without the `i.`
    /// host prefix.
    Direct,
}

/// The album id of an `/a/…` path: the part between `/a/` and the next
/// slash, or the rest of the path.
pub open spec fn imgur_album_id(path: Seq<char>) -> Seq<char> {
    let rest = path.skip(3);
    match find_from(rest, seq!['/'], 0) {
        Some(k) => rest.subrange(0, k),
        None => rest,
    }
}

/// The gallery id of a `/gallery/…` path: the rest of the path, with one
/// trailing slash removed first.
pub open spec fn imgur_gallery_id(path: Seq<char>) -> Seq<char> {
    let trimmed = if path.len() > 0 && path.last() == '/' {
        path.drop_last()
    } else {
        path
    };
    trimmed.skip(9)
}

/// Classifies an `imgur.com` path and extracts the album or gallery id.
///
/// The bare path `/gallery/` carries no id at all and is left out.
pub fn imgur_target(path: &str) -> (r: ImgurTarget)
    requires
        path@ != "/gallery/"@,
    ensures
        "/a/"@.is_prefix_of(path@) ==> (r matches ImgurTarget::Album(id) && id@
            == imgur_album_id(path@)),
        !"/a/"@.is_prefix_of(path@) && "/gallery/"@.is_prefix_of(path@) ==> (r
            matches ImgurTarget::Gallery(id) && id@ == imgur_gallery_id(path@)),
        !"/a/"@.is_prefix_of(path@) && !"/gallery/"@.is_prefix_of(path@) ==> r is Direct,
{
    proof {
        reveal_strlit("/a/");
        reveal_strlit("/gallery/");
        reveal_strlit("/");
    }
    let n = path.unicode_len();
    if crate::strutil::str_starts_with(path, "/a/") {
        let rest = path.substring_char(3, n);
        let chars = str_to_chars(rest);
        let mut slash: Vec<char> = Vec::new();
        slash.push('/');
        proof {
            assert(slash@ =~= seq!['/']);
            assert(rest@ == path@.skip(3));
        }
        let end: usize = match find_first(&chars, &slash) {
            Some(k) => k,
            None => rest.unicode_len(),
        };
        proof {
            if find_from(rest@, seq!['/'], 0) is Some {
                lemma_find_from_is_occurrence(rest@, seq!['/'], 0, end as int);
            }
            assert(rest@.subrange(0, rest@.len() as int) =~= rest@);
        }
        let id = rest.substring_char(0, end);
        return ImgurTarget::Album(id.to_owned());
    }
    if crate::strutil::str_starts_with(path, "/gallery/") {
        proof {
            if n == 9 {
                assert(path@ =~= "/gallery/"@);
                assert(false);
            }
        }
        let trimmed = if n > 0 && path.get_char(n - 1) == '/' {
            proof {
                assert(path@.subrange(0, n - 1) =~= path@.drop_last());
            }
            path.substring_char(0, n - 1)
        } else {
            proof {
                assert(path@.subrange(0, n as int) =~= path@);
            }
            path.substring_char(0, n)
        };
        let m = trimmed.unicode_len();
        let id = trimmed.substring_char(9, m);
        return ImgurTarget::Gallery(id.to_owned());
    }
    ImgurTarget::Direct
}

/// The embed-page URL of an album, whose HTML carries the album JSON.
pub open spec fn imgur_album_embed_url_text(id: Seq<char>) -> Seq<char> {
    "https://imgur.com/a/"@ + id + "/embed"@
}

/// Builds the embed-page URL of an album.
pub fn imgur_album_embed_url(id: &str) -> (r: String)
    ensures
        r@ == imgur_album_embed_url_text(id@),
{
    let mut s = "https://imgur.com/a/".to_owned();
    s.append(id);
    s.append("/embed");
    s
}

/// The JSON API URL of a gallery.
pub open spec fn imgur_gallery_json_url_text(id: Seq<char>) -> Seq<char> {
    "https://imgur.com/gallery/"@ + id + ".json"@
}

/// Builds the JSON API URL of a gallery.
pub fn imgur_gallery_json_url(id: &str) -> (r: String)
    ensures
        r@ == imgur_gallery_json_url_text(id@),
{
    let mut s = "https://imgur.com/gallery/".to_owned();
    s.append(id);
    s.append(".json");
    s
}

/// The direct-image URL for an `imgur.com` path without the `i.` prefix.
pub open spec fn imgur_direct_url_text(path: Seq<char>) -> Seq<char> {
    "https://i.imgur.com"@ + path
}

/// Builds the direct-image URL for an unprefixed `imgur.com` path.
pub fn imgur_direct_url(path: &str) -> (r: String)
    ensures
        r@ == imgur_direct_url_text(path@),
{
    let mut s = "https://i.imgur.com".to_owned();
    s.append(path);
    s
}

/// The direct URL of one album or gallery image.
pub open spec fn imgur_image_url_text(hash: Seq<char>, ext: Seq<char>) -> Seq<char> {
    "https://i.imgur.com/"@ + hash + ext
}

/// Builds the direct URL of one album or gallery image.
pub fn imgur_image_url(image: &Image) -> (r: String)
    ensures
        r@ == imgur_image_url_text(image.hash@, image.ext@),
{
    let mut s = "https://i.imgur.com/".to_owned();
    s.append(image.hash.as_str());
    s.append(image.ext.as_str());
    s
}

/// The file name of the `i`-th image of an album: its index and extension.
pub open spec fn imgur_image_name_text(i: nat, ext: Seq<char>) -> Seq<char> {
    dec_rep(i) + ext
}

/// Builds the file name of the `i`-th image of an album.
pub fn imgur_image_name(i: usize, image: &Image) -> (r: String)
    ensures
        r@ == imgur_image_name_text(i as nat, image.ext@),
{
    let mut s = u64_to_string(i as u64);
    s.append(image.ext.as_str());
    s
}

/// Whether a character is whitespace; names the verdict of
/// `char::is_whitespace`, a function of the character alone.
pub uninterp spec fn char_is_whitespace(c: char) -> bool;

/// Tests one character.
///
/// Relies on `char::is_whitespace`; its verdict is named by
/// `char_is_whitespace`.
#[verifier::external_body]
fn is_whitespace_char(c: char) -> (r: bool)
    ensures
        r == char_is_whitespace(c),
{
    c.is_whitespace()
}

/// The first position at or after `i` that is not whitespace, or the end.
pub open spec fn skip_whitespace(s: Seq<char>, i: int) -> int
    decreases s.len() - i when 0 <= i <= s.len()
{
    if i >= s.len() {
        i
    } else if char_is_whitespace(s[i]) {
        skip_whitespace(s, i + 1)
    } else {
        i
    }
}

/// The end of `s` with trailing whitespace removed.
pub open spec fn trimmed_end(s: Seq<char>, i: int) -> int
    decreases i when 0 <= i <= s.len()
{
    if i <= 0 {
        0
    } else if char_is_whitespace(s[i - 1]) {
        trimmed_end(s, i - 1)
    } else {
        i
    }
}

/// The slice of an embed-page line that holds the album JSON, if the line
/// is the one carrying it: the line's leading whitespace is skipped, the
/// line must then begin with the album marker, and the JSON runs from after
/// the first `:` up to the last non-whitespace character, which closes the
/// assignment and is dropped.
pub fn album_json_slice(line: &str) -> (r: Option<String>)
    ensures
        ({
            let t = line@.skip(skip_whitespace(line@, 0));
            let e = trimmed_end(line@, line@.len() as int);
            if "album"@.is_prefix_of(t) {
                match find_from(line@, seq![':'], 0) {
                    Some(c) => {
                        if c + 1 <= e - 1 {
                            r matches Some(s) && s@ == line@.subrange(c + 1, e - 1)
                        } else {
                            r is None
                        }
                    },
                    None => r is None,
                }
            } else {
                r is None
            }
        }),
{
    proof {
        reveal_strlit("album");
        reveal_strlit(":");
    }
    let chars = str_to_chars(line);
    let n = line.unicode_len();
    let mut lead: usize = 0;
    while lead < n && is_whitespace_char(chars[lead])
        invariant
            n == line@.len(),
            chars@ == line@,
            lead <= n,
            skip_whitespace(line@, 0) == skip_whitespace(line@, lead as int),
        decreases n - lead,
    {
        lead = lead + 1;
    }
    proof {
        assert(skip_whitespace(line@, 0) == lead as int);
    }
    let ghost t = line@.skip(lead as int);
    let mut marker: Vec<char> = Vec::new();
    marker.push('a');
    marker.push('l');
    marker.push('b');
    marker.push('u');
    marker.push('m');
    proof {
        assert(marker@ =~= "album"@);
    }
    let starts = occurs_at_exec(&chars, &marker, lead);
    proof {
        if occurs_at(line@, marker@, lead as int) {
            assert(line@.skip(lead as int).subrange(0, 5) =~= line@.subrange(
                lead as int,
                lead + 5,
            ));
            assert(marker@.is_prefix_of(t));
        } else {
            if marker@.is_prefix_of(t) {
                assert(line@.subrange(lead as int, lead + 5) =~= line@.skip(lead as int).subrange(
                    0,
                    5,
                ));
                assert(occurs_at(line@, marker@, lead as int));
            }
        }
    }
    if !starts {
        return None;
    }
    let mut colon_pat: Vec<char> = Vec::new();
    colon_pat.push(':');
    proof {
        assert(colon_pat@ =~= seq![':']);
    }
    let colon: usize = match find_first(&chars, &colon_pat) {
        Some(c) => c,
        None => {
            return None;
        },
    };
    let mut e: usize = n;
    while e > 0 && is_whitespace_char(chars[e - 1])
        invariant
            n == line@.len(),
            chars@ == line@,
            e <= n,
            trimmed_end(line@, n as int) == trimmed_end(line@, e as int),
        decreases e,
    {
        e = e - 1;
    }
    proof {
        assert(trimmed_end(line@, n as int) == e as int);
    }
    if colon + 1 <= e && e >= 1 && colon + 1 <= e - 1 {
        let s = line.substring_char(colon + 1, e - 1);
        proof {
            lemma_find_from_is_occurrence(line@, seq![':'], 0, colon as int);
        }
        Some(s.to_owned())
    } else {
        None
    }
}

} // verus!
