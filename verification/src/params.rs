//! The run-wide configuration, and the validation of target names.

use vstd::prelude::*;
use crate::gfycat::GfycatType;
use crate::pushshift::Subreddit;
use crate::reddit::VRedditMode;
use crate::strutil::push_char;
use crate::title::Title;
use vstd::string::StringSliceAdditionalSpecFns;
use vstd::utf8::encode_utf8;

verus! {

/// The parameters of one run.
#[derive(Debug, Clone)]
pub struct Parameters {
    /// The maximum length of a generated file name.
    pub max_file_name_length: usize,

    /// Whether to force downloads from unsupported hosts by writing the raw
    /// response body to disk.
    pub force: bool,

    /// Whether to stop at the first already-retrieved item of each target.
    pub update: bool,

    /// Whether to place files directly in the output directory rather than
    /// in one subdirectory per target.
    pub no_parent: bool,

    /// Only retrieve items after this time.
    pub after: Option<u64>,

    /// Only retrieve items before this time.
    pub before: Option<u64>,

    /// The number of items requested per page.
    pub batch_size: u64,

    /// The number of simultaneous download jobs.
    pub queue_size: usize,

    /// Whether to retrieve self posts as text files.
    pub selfposts: bool,

    /// Hosts not to download from.
    pub exclude: Vec<String>,

    /// The media type of Gfycat videos.
    pub gfycat_type: GfycatType,

    /// How `v.redd.it` videos are downloaded.
    pub vreddit_mode: VRedditMode,

    /// The naming template.
    pub title: Title,
}

impl Parameters {
    /// The configuration's internal consistency: a compiled template, and a
    /// concurrency limit within the sane range.
    pub open spec fn wf(&self) -> bool {
        &&& self.title.wf()
        &&& 1 <= self.queue_size <= 1000
    }
}

/// Whether a character counts as alphanumeric; names the verdict of
/// `char::is_alphanumeric`, a function of the character alone.
pub uninterp spec fn char_is_alphanumeric(c: char) -> bool;

/// Whether a character may appear in a target name.
pub open spec fn valid_name_char(c: char) -> bool {
    char_is_alphanumeric(c) || c == '-' || c == '_'
}

/// Whether a target name is acceptable: at most 21 bytes, all characters
/// alphanumeric, `-` or `_`.
pub open spec fn valid_name(s: Seq<char>) -> bool {
    &&& encode_utf8(s).len() <= 21
    &&& forall|i: int| 0 <= i < s.len() ==> valid_name_char(#[trigger] s[i])
}

/// Tests one character.
///
/// Relies on `char::is_alphanumeric`; its verdict is named by
/// `char_is_alphanumeric`.
#[verifier::external_body]
fn is_alphanumeric_char(c: char) -> (r: bool)
    ensures
        r == char_is_alphanumeric(c),
{
    c.is_alphanumeric()
}

/// Verifies a subreddit name.
pub fn verify_name(name: &str) -> (r: Result<(), String>)
    ensures
        r is Ok <==> valid_name(name@),
        encode_utf8(name@).len() > 21 ==> (r matches Err(m) && m@
            == "Subreddit names have a maximum length of 21 characters"@),
        encode_utf8(name@).len() <= 21 && !valid_name(name@) ==> (r matches Err(m)
            && exists|i: int|
            0 <= i < name@.len() && !valid_name_char(#[trigger] name@[i]) && m@
                == "Subreddit names can only contain alphanumeric characters, '"@ + seq![
                name@[i],
            ] + "' found"@),
{
    let bytes = name.as_bytes();
    proof {
        assert(name.spec_bytes() == encode_utf8(name@));
        assert(bytes@ == encode_utf8(name@));
    }
    if bytes.len() > 21 {
        return Err("Subreddit names have a maximum length of 21 characters".to_owned());
    }
    proof {
        assert(bytes@.len() <= 21);
        assert(encode_utf8(name@).len() <= 21);
    }
    let n = name.unicode_len();
    let mut i: usize = 0;
    while i < n
        invariant
            n == name@.len(),
            i <= n,
            encode_utf8(name@).len() <= 21,
            forall|j: int| 0 <= j < i ==> valid_name_char(#[trigger] name@[j]),
        decreases n - i,
    {
        let c = name.get_char(i);
        if !(is_alphanumeric_char(c) || c == '-' || c == '_') {
            let mut m = "Subreddit names can only contain alphanumeric characters, '".to_owned();
            push_char(&mut m, c);
            m.append("' found");
            proof {
                assert(m@ =~= "Subreddit names can only contain alphanumeric characters, '"@
                    + seq![name@[i as int]] + "' found"@);
            }
            return Err(m);
        }
        i = i + 1;
    }
    Ok(())
}

/// The collection target a command-line name denotes: whether it is a
/// profile, and the name with its prefix stripped.
pub open spec fn stripped_target(name: Seq<char>) -> (bool, Seq<char>) {
    if "/u/"@.is_prefix_of(name) {
        (true, name.skip(3))
    } else if "u/"@.is_prefix_of(name) {
        (true, name.skip(2))
    } else if "/r/"@.is_prefix_of(name) {
        (false, name.skip(3))
    } else if "r/"@.is_prefix_of(name) {
        (false, name.skip(2))
    } else {
        (false, name)
    }
}

/// Parses a subreddit name.
///
/// The input is assumed to be a subreddit unless prefixed with `u/` or
/// `/u/`. The prefixes `r/`, `/r/`, `u/` and `/u/` are automatically
/// removed. An error is returned if the name is invalid.
pub fn parse_input(name: &str) -> (r: Result<Subreddit, String>)
    ensures
        ({
            let target = stripped_target(name@);
            match r {
                Ok(s) => valid_name(target.1) && match s {
                    Subreddit::Profile(n) => target.0 && n@ == target.1,
                    Subreddit::Subreddit(n) => !target.0 && n@ == target.1,
                },
                Err(_) => !valid_name(target.1),
            }
        }),
{
    proof {
        reveal_strlit("/u/");
        reveal_strlit("u/");
        reveal_strlit("/r/");
        reveal_strlit("r/");
    }
    let n = name.unicode_len();
    if crate::strutil::str_starts_with(name, "/u/") {
        let rest = name.substring_char(3, n);
        return match verify_name(rest) {
            Ok(_) => Ok(Subreddit::Profile(rest.to_owned())),
            Err(e) => Err(e),
        };
    }
    if crate::strutil::str_starts_with(name, "u/") {
        let rest = name.substring_char(2, n);
        return match verify_name(rest) {
            Ok(_) => Ok(Subreddit::Profile(rest.to_owned())),
            Err(e) => Err(e),
        };
    }
    if crate::strutil::str_starts_with(name, "/r/") {
        let rest = name.substring_char(3, n);
        return match verify_name(rest) {
            Ok(_) => Ok(Subreddit::Subreddit(rest.to_owned())),
            Err(e) => Err(e),
        };
    }
    if crate::strutil::str_starts_with(name, "r/") {
        let rest = name.substring_char(2, n);
        return match verify_name(rest) {
            Ok(_) => Ok(Subreddit::Subreddit(rest.to_owned())),
            Err(e) => Err(e),
        };
    }
    match verify_name(name) {
        Ok(_) => Ok(Subreddit::Subreddit(name.to_owned())),
        Err(e) => Err(e),
    }
}

} // verus!
