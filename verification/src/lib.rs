/*!
A library for ripping the linked contents of entire subreddits: it walks a
paginated search API backward through time, resolves each post's media through
a host-specific fetch strategy, names the output files from a template, and
keeps repeated runs incremental through a resume marker.

The modules hold the pure, verified core: pagination and cursor handling,
the bounded download queue's admission discipline, the naming engine, the
resume-marker encoding, and the per-host URL planning. The surrounding
process (HTTP, file system, terminal) drives these from outside.
*/

use vstd::prelude::*;

mod decimal;
mod error;
mod gfycat;
mod imgur;
mod marker;
mod net;
mod params;
mod pushshift;
mod queue;
mod reddit;
mod sites;
mod strutil;
mod subreddit;
mod title;

pub use decimal::u64_to_string;
pub use error::{Error, FetchError};
pub use gfycat::{
    extract_id, gfycat_api_url, gfycat_direct_url, gfycat_media_url, parse_gfycat_type,
    redgifs_api_url, redgifs_direct_url, redgifs_id, GfycatType, GfyItem,
};
pub use imgur::{
    album_json_slice, imgur_album_embed_url, imgur_direct_url, imgur_gallery_json_url,
    imgur_image_name, imgur_image_url, imgur_target, Image, ImgurTarget,
};
pub use marker::{marker_contents, marker_first_line};
pub use queue::TaskQueue;
pub use sites::{file_extension, select_strategy, supported_domains, FetchJob, FetchStrategy};
pub use subreddit::{process_page, step_item, ItemAction, ItemStep, PagePlan, SkipReason};
pub use net::{classify_imgur_status, classify_status, parse_domains, UrlParts};
pub use params::{parse_input, verify_name, Parameters};
pub use pushshift::{
    build_api_url, evaluate_page, page_exhausted, page_url, Post, PushShift, RawItem,
    RedditVideo, SecureMedia, Subreddit,
};
pub use reddit::{parse_vreddit_mode, plan_vreddit, VRedditMode, VRedditPlan};
pub use strutil::{replace_first, str_eq};
pub use title::{clean, formatting_help, FieldValue, Item, Title};

verus! {

} // verus!
