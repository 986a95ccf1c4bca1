//! Planning for reddit-hosted media.
//!
//! An image on `i.redd.it` is a plain download. A video on `v.redd.it` is
//! downloaded without audio, merged from separate video and audio streams by
//! an external tool, or fetched through a user-supplied website — the choice
//! is configured once per run. The functions here turn an item's media
//! description into the URLs and temporary-file names of that plan; the
//! downloads and the merge happen outside the library.

use vstd::prelude::*;
use crate::decimal::{dec_rep, u64_to_string};
use crate::error::FetchError;
use crate::pushshift::SecureMedia;
use crate::strutil::{replace_first, replaced_first};

verus! {

/// Specifies how videos from `v.redd.it` are downloaded.
#[derive(Debug, Clone)]
pub enum VRedditMode {
    /// Leave out the audio.
    NoAudio,

    /// Use an external tool to combine the audio and video.
    Ffmpeg,

    /// Use a website to download the video.
    /// The characters `{}` are replaced by the ID.
    Website(String),
}

/// Parses the name of a `v.redd.it` mode; any unrecognized value is a
/// website URL pattern.
pub fn parse_vreddit_mode(s: &str) -> (m: VRedditMode)
    ensures
        s@ == "no-audio"@ ==> m == VRedditMode::NoAudio,
        s@ == "ffmpeg"@ ==> m == VRedditMode::Ffmpeg,
        s@ != "no-audio"@ && s@ != "ffmpeg"@ ==> (m matches VRedditMode::Website(u) && u@ == s@),
{
    proof {
        reveal_strlit("no-audio");
        reveal_strlit("ffmpeg");
        assert("no-audio"@.len() == 8);
        assert("ffmpeg"@.len() == 6);
        assert("no-audio"@ != "ffmpeg"@);
    }
    if crate::strutil::str_eq(s, "no-audio") {
        VRedditMode::NoAudio
    } else if crate::strutil::str_eq(s, "ffmpeg") {
        VRedditMode::Ffmpeg
    } else {
        VRedditMode::Website(s.to_owned())
    }
}

/// One concrete way to retrieve a `v.redd.it` video.
#[derive(Debug, Clone)]
pub enum VRedditPlan {
    /// Download this one URL to the output file.
    Direct {
        /// The URL to download.
        url: String,
    },

    /// Download video and audio separately, then merge them with the
    /// external tool into the output file.
    Merge {
        /// The URL of the video stream.
        video_url: String,

        /// The URL of the audio stream.
        audio_url: String,

        /// The temporary file name for the video stream.
        video_name: String,

        /// The temporary file name for the audio stream.
        audio_name: String,
    },
}

/// The video-stream URL of a `v.redd.it` id at a given height.
pub open spec fn vreddit_video_url_text(id: Seq<char>, height: u64) -> Seq<char> {
    "https://v.redd.it/"@ + id + "/DASH_"@ + dec_rep(height as nat)
}

/// The audio-stream URL of a `v.redd.it` id.
pub open spec fn vreddit_audio_url_text(id: Seq<char>) -> Seq<char> {
    "https://v.redd.it/"@ + id + "/audio"@
}

/// The temporary file name of a downloaded video stream.
pub open spec fn vreddit_video_name_text(id: Seq<char>) -> Seq<char> {
    "v_redd_it_"@ + id + "_video"@
}

/// The temporary file name of a downloaded audio stream.
pub open spec fn vreddit_audio_name_text(id: Seq<char>) -> Seq<char> {
    "v_redd_it_"@ + id + "_audio"@
}

/// The id of a `v.redd.it` URL: its path without the leading `/`.
pub open spec fn vreddit_id_of(path: Seq<char>) -> Seq<char> {
    path.skip(1)
}

/// Turns a `v.redd.it` item's media description and the configured mode into
/// a retrieval plan.
///
/// An item without a video description cannot be downloaded; that failure is
/// recovered per item.
pub fn plan_vreddit(path: &str, mode: &VRedditMode, media: &Option<SecureMedia>) -> (r: Result<
    VRedditPlan,
    FetchError,
>)
    requires
        path@.len() >= 1,
    ensures
        ({
            let video = match media {
                Some(m) => m.reddit_video,
                None => None,
            };
            match video {
                None => (r matches Err(e) && e matches FetchError::MalformedResponse(msg) && msg@
                    == "No downloadable media found"@),
                Some(v) => match mode {
                    VRedditMode::NoAudio => (r matches Ok(p) && p matches VRedditPlan::Direct {
                        url,
                    } && url@ == v.fallback_url@),
                    VRedditMode::Ffmpeg => (r matches Ok(p) && p matches VRedditPlan::Merge {
                        video_url,
                        audio_url,
                        video_name,
                        audio_name,
                    } && video_url@ == vreddit_video_url_text(vreddit_id_of(path@), v.height)
                        && audio_url@ == vreddit_audio_url_text(vreddit_id_of(path@))
                        && video_name@ == vreddit_video_name_text(vreddit_id_of(path@))
                        && audio_name@ == vreddit_audio_name_text(vreddit_id_of(path@))),
                    VRedditMode::Website(u) => (r matches Ok(p) && p matches VRedditPlan::Direct {
                        url,
                    } && url@ == replaced_first(u@, "{}"@, vreddit_id_of(path@))),
                },
            }
        }),
{
    let video = match media {
        Some(m) => match &m.reddit_video {
            Some(v) => Some(v),
            None => None,
        },
        None => None,
    };
    let video = match video {
        Some(v) => v,
        None => {
            return Err(FetchError::MalformedResponse("No downloadable media found".to_owned()));
        },
    };
    let n = path.unicode_len();
    let id = path.substring_char(1, n);
    proof {
        assert(id@ == vreddit_id_of(path@));
    }
    match mode {
        VRedditMode::NoAudio => Ok(VRedditPlan::Direct { url: video.fallback_url.clone() }),
        VRedditMode::Ffmpeg => {
            let mut video_url = "https://v.redd.it/".to_owned();
            video_url.append(id);
            video_url.append("/DASH_");
            let h = u64_to_string(video.height);
            video_url.append(h.as_str());
            let mut audio_url = "https://v.redd.it/".to_owned();
            audio_url.append(id);
            audio_url.append("/audio");
            let mut video_name = "v_redd_it_".to_owned();
            video_name.append(id);
            video_name.append("_video");
            let mut audio_name = "v_redd_it_".to_owned();
            audio_name.append(id);
            audio_name.append("_audio");
            proof {
                assert(video_url@ =~= vreddit_video_url_text(id@, video.height));
                assert(audio_url@ =~= vreddit_audio_url_text(id@));
                assert(video_name@ =~= vreddit_video_name_text(id@));
                assert(audio_name@ =~= vreddit_audio_name_text(id@));
            }
            Ok(VRedditPlan::Merge { video_url, audio_url, video_name, audio_name })
        },
        VRedditMode::Website(u) => {
            let url = replace_first(u.as_str(), "{}", id);
            Ok(VRedditPlan::Direct { url })
        },
    }
}

} // verus!
