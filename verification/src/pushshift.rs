//! The paginator: queries against the search API and the walk backward
//! through time.
//!
//! A page query carries the collection target, a batch size, the fields that
//! the naming template needs, optional domain exclusions and time bounds, and
//! the cursor as upper time bound. The response's items arrive newest-first;
//! the cursor advances to the timestamp of the page's last item, and an empty
//! page ends the target.

use vstd::prelude::*;
use crate::decimal::{dec_rep, u64_to_string};
use crate::error::Error;
use crate::params::Parameters;
use crate::title::Item;

verus! {

/// A subreddit on reddit.
///
/// It might seem surprising that the profiles are summarised under a
/// structure called "subreddit", however reddit actually treats user
/// profiles as subreddits: posting to one's profile is posting to
/// `/r/u_{username}`.
#[derive(Debug, Clone, PartialEq)]
pub enum Subreddit {
    /// A subreddit.
    Subreddit(String),

    /// The profile of a user.
    Profile(String),
}

impl Subreddit {
    /// Converts this subreddit into a string usable as a path. Profiles get
    /// a distinguishing prefix so they cannot collide with same-named
    /// subreddits.
    pub fn to_path(&self) -> (r: String)
        ensures
            match self {
                Subreddit::Subreddit(name) => r@ == name@,
                Subreddit::Profile(name) => r@ == "u_"@ + name@,
            },
    {
        match self {
            Subreddit::Subreddit(name) => name.clone(),
            Subreddit::Profile(name) => {
                let mut s = "u_".to_owned();
                s.append(name.as_str());
                s
            },
        }
    }

    /// The display form of this subreddit, as users write it.
    pub fn to_display(&self) -> (r: String)
        ensures
            match self {
                Subreddit::Subreddit(name) => r@ == "/r/"@ + name@,
                Subreddit::Profile(name) => r@ == "/u/"@ + name@,
            },
    {
        match self {
            Subreddit::Subreddit(name) => {
                let mut s = "/r/".to_owned();
                s.append(name.as_str());
                s
            },
            Subreddit::Profile(name) => {
                let mut s = "/u/".to_owned();
                s.append(name.as_str());
                s
            },
        }
    }

    /// The query parameter selecting this target in a page query.
    pub fn query_param(&self) -> (r: String)
        ensures
            match self {
                Subreddit::Subreddit(name) => r@ == "&subreddit="@ + name@,
                Subreddit::Profile(name) => r@ == "&author="@ + name@,
            },
    {
        match self {
            Subreddit::Subreddit(name) => {
                let mut s = "&subreddit=".to_owned();
                s.append(name.as_str());
                s
            },
            Subreddit::Profile(name) => {
                let mut s = "&author=".to_owned();
                s.append(name.as_str());
                s
            },
        }
    }
}

/// A video hosted on `v.redd.it`.
#[derive(Debug, Clone)]
pub struct RedditVideo {
    /// The no-audio URL of the video.
    pub fallback_url: String,

    /// The video height.
    pub height: u64,
}

/// An optional part of a post on reddit.
#[derive(Debug, Clone)]
pub struct SecureMedia {
    /// The video description, where the post links a `v.redd.it` video.
    pub reddit_video: Option<RedditVideo>,
}

/// A post on reddit: the fields that dispatch needs.
#[derive(Debug, Clone)]
pub struct Post {
    /// The host the post links to.
    pub domain: String,

    /// The media description of a `v.redd.it` video.
    pub secure_media: Option<SecureMedia>,

    /// The text of a self post.
    pub selftext: Option<String>,
}

/// The output of the search API: a page of posts.
#[derive(Debug, Clone)]
pub struct PushShift {
    /// The page's posts, newest first.
    pub data: Vec<Post>,
}

/// One retrieved item, as the search API hands it over: the mandatory fields
/// read one by one — each may be missing — and the full attribute set for
/// the naming engine.
#[derive(Debug, Clone)]
pub struct RawItem {
    /// The item's id.
    pub id: Option<String>,

    /// The item's creation time, the pagination cursor's unit.
    pub created_utc: Option<u64>,

    /// The URL the item links to.
    pub url: Option<String>,

    /// Whether the item is a self post.
    pub is_self: Option<bool>,

    /// The host the item links to.
    pub domain: Option<String>,

    /// The text of a self post.
    pub selftext: Option<String>,

    /// The media description of a `v.redd.it` video.
    pub secure_media: Option<SecureMedia>,

    /// The item's attributes, for the naming engine.
    pub attrs: Item,
}

/// The constant lead of every page query.
pub open spec fn api_base_text() -> Seq<char> {
    "https://api.pushshift.io/reddit/search/submission?sort_type=created_utc&sort=desc&size="@
}

/// The mandatory fields of every page query.
pub open spec fn api_fields_base_text() -> Seq<char> {
    "&fields=id,created_utc,domain,url,secure_media,is_self"@
}

/// The `,{field}` tail of the field list: one entry per template field.
pub open spec fn fields_param_text(fields: Seq<Seq<char>>) -> Seq<char>
    decreases fields.len(),
{
    if fields.len() == 0 {
        Seq::empty()
    } else {
        fields_param_text(fields.drop_last()) + ","@ + fields.last()
    }
}

/// The `!{domain}` list of a domain-exclusion parameter.
pub open spec fn exclude_list_text(ds: Seq<Seq<char>>) -> Seq<char>
    decreases ds.len(),
{
    if ds.len() == 0 {
        Seq::empty()
    } else if ds.len() == 1 {
        "!"@ + ds[0]
    } else {
        exclude_list_text(ds.drop_last()) + ",!"@ + ds.last()
    }
}

/// The full page-query URL, up to the target and cursor parameters.
pub open spec fn api_url_text(
    batch: nat,
    fields: Seq<Seq<char>>,
    selfposts: bool,
    exclude: Seq<Seq<char>>,
    after: Option<u64>,
) -> Seq<char> {
    api_base_text() + dec_rep(batch) + api_fields_base_text() + fields_param_text(fields) + (
    if selfposts {
        ",selftext"@
    } else {
        "&is_self=false"@
    }) + (if exclude.len() == 0 {
        Seq::<char>::empty()
    } else {
        "&domain="@ + exclude_list_text(exclude)
    }) + (match after {
        Some(t) => "&after="@ + dec_rep(t as nat),
        None => Seq::<char>::empty(),
    })
}

/// Creates an URL for the search API which can later be reused.
pub fn build_api_url(parameters: &Parameters) -> (r: String)
    ensures
        r@ == api_url_text(
            parameters.batch_size as nat,
            parameters.title.spec_fields(),
            parameters.selfposts,
            parameters.exclude@.map_values(|d: String| d@),
            parameters.after,
        ),
{
    let ghost fviews = parameters.title.spec_fields();
    let ghost dviews = parameters.exclude@.map_values(|d: String| d@);
    let mut s = "https://api.pushshift.io/reddit/search/submission?sort_type=created_utc&sort=desc&size=".to_owned();
    let num = u64_to_string(parameters.batch_size);
    s.append(num.as_str());
    s.append("&fields=id,created_utc,domain,url,secure_media,is_self");
    let ghost p0 = api_base_text() + dec_rep(parameters.batch_size as nat)
        + api_fields_base_text();
    proof {
        assert(s@ =~= p0);
        assert(fviews.subrange(0, 0) =~= Seq::<Seq<char>>::empty());
        assert(s@ =~= p0 + fields_param_text(fviews.subrange(0, 0)));
    }
    let fields = parameters.title.iter();
    let mut i: usize = 0;
    while i < fields.len()
        invariant
            i <= fields@.len(),
            fields@.map_values(|f: String| f@) == fviews,
            s@ == p0 + fields_param_text(fviews.subrange(0, i as int)),
        decreases fields@.len() - i,
    {
        let ghost before_s = s@;
        s.append(",");
        s.append(fields[i].as_str());
        proof {
            assert(fviews.subrange(0, i + 1).drop_last() =~= fviews.subrange(0, i as int));
            assert(fviews.subrange(0, i + 1).last() == fviews[i as int]);
            assert(fviews[i as int] == fields@[i as int]@);
            assert(s@ =~= p0 + fields_param_text(fviews.subrange(0, i + 1)));
        }
        i = i + 1;
    }
    proof {
        assert(fviews.subrange(0, fviews.len() as int) =~= fviews);
    }
    let ghost p1 = p0 + fields_param_text(fviews);
    if parameters.selfposts {
        s.append(",selftext");
        proof {
            assert(s@ =~= p1 + ",selftext"@);
        }
    } else {
        s.append("&is_self=false");
        proof {
            assert(s@ =~= p1 + "&is_self=false"@);
        }
    }
    let ghost p2 = p1 + (if parameters.selfposts {
        ",selftext"@
    } else {
        "&is_self=false"@
    });
    if parameters.exclude.len() > 0 {
        s.append("&domain=");
        let mut k: usize = 0;
        proof {
            assert(s@ =~= p2 + "&domain="@ + exclude_list_text(dviews.subrange(0, 0)));
        }
        while k < parameters.exclude.len()
            invariant
                k <= parameters.exclude@.len(),
                dviews == parameters.exclude@.map_values(|d: String| d@),
                s@ == p2 + "&domain="@ + exclude_list_text(dviews.subrange(0, k as int)),
            decreases parameters.exclude@.len() - k,
        {
            if k > 0 {
                s.append(",!");
            } else {
                s.append("!");
            }
            s.append(parameters.exclude[k].as_str());
            proof {
                let sub1 = dviews.subrange(0, k + 1);
                assert(sub1.drop_last() =~= dviews.subrange(0, k as int));
                assert(sub1.last() == dviews[k as int]);
                assert(dviews[k as int] == parameters.exclude@[k as int]@);
                if k == 0 {
                    assert(dviews.subrange(0, 0).len() == 0);
                    assert(exclude_list_text(dviews.subrange(0, 0)) == Seq::<char>::empty());
                    assert(exclude_list_text(sub1) =~= "!"@ + dviews[0]);
                    assert(s@ =~= p2 + "&domain="@ + exclude_list_text(sub1));
                } else {
                    assert(exclude_list_text(sub1) =~= exclude_list_text(
                        dviews.subrange(0, k as int),
                    ) + ",!"@ + dviews[k as int]);
                    assert(s@ =~= p2 + "&domain="@ + exclude_list_text(sub1));
                }
            }
            k = k + 1;
        }
        proof {
            assert(dviews.subrange(0, dviews.len() as int) =~= dviews);
        }
    } else {
        proof {
            assert(dviews.len() == 0);
        }
    }
    let ghost p3 = p2 + (if dviews.len() == 0 {
        Seq::<char>::empty()
    } else {
        "&domain="@ + exclude_list_text(dviews)
    });
    proof {
        assert(s@ =~= p3);
    }
    match parameters.after {
        Some(t) => {
            s.append("&after=");
            let num2 = u64_to_string(t);
            s.append(num2.as_str());
            proof {
                assert(s@ =~= p3 + "&after="@ + dec_rep(t as nat));
            }
        },
        None => {
        },
    }
    proof {
        assert(s@ =~= api_url_text(
            parameters.batch_size as nat,
            fviews,
            parameters.selfposts,
            dviews,
            parameters.after,
        ));
    }
    s
}

/// Appends the cursor to a page query: the next page holds only items
/// strictly older than the cursor.
pub fn page_url(base: &str, before: &Option<u64>) -> (r: String)
    ensures
        r@ == base@ + (match before {
            Some(t) => "&before="@ + dec_rep(*t as nat),
            None => Seq::<char>::empty(),
        }),
{
    let mut s = base.to_owned();
    match before {
        Some(t) => {
            s.append("&before=");
            let num = u64_to_string(*t);
            s.append(num.as_str());
            proof {
                assert(s@ =~= base@ + ("&before="@ + dec_rep(*t as nat)));
            }
        },
        None => {
            proof {
                assert(s@ =~= base@ + Seq::<char>::empty());
            }
        },
    }
    s
}

/// The message of a page answered with a non-success status.
pub open spec fn bad_status_text(status: u16) -> Seq<char> {
    "Invalid response code "@ + dec_rep(status as nat) + " from API"@
}

/// The message of a page whose body does not have the expected shape.
pub open spec fn bad_shape_text() -> Seq<char> {
    "Unexpectedly received invalid JSON\n\nThis is likely caused by a broken backend and not your fault.\nPlease update the application. If the error persists, open an issue on GitHub."@
}

/// Judges one page response and advances the cursor.
///
/// A non-success status or a body without the expected `data` array is fatal
/// to the run for this target. On success the cursor moves to the creation
/// time of the page's last — oldest — item; a non-empty page whose last item
/// carries no creation time is a schema violation. An empty page leaves the
/// cursor alone: the target is exhausted.
pub fn evaluate_page(status: u16, data: Option<Vec<RawItem>>, before: &mut Option<u64>) -> (r:
    Result<Vec<RawItem>, Error>)
    ensures
        !(200 <= status < 300) ==> (r matches Err(e) && e matches Error::Message(m) && m@
            == bad_status_text(status) && *final(before) == *old(before)),
        (200 <= status < 300) ==> match data {
            None => (r matches Err(e) && e matches Error::Message(m) && m@ == bad_shape_text()
                && *final(before) == *old(before)),
            Some(posts) => match r {
                Ok(v) => {
                    &&& v == posts
                    &&& posts@.len() == 0 ==> *final(before) == *old(before)
                    &&& posts@.len() > 0 ==> (posts@.last().created_utc matches Some(t)
                        && *final(before) == Some(t))
                },
                Err(e) => {
                    &&& posts@.len() > 0
                    &&& posts@.last().created_utc is None
                    &&& e matches Error::Message(m) && m@ == bad_shape_text()
                    &&& *final(before) == *old(before)
                },
            },
        },
{
    if !(200 <= status && status < 300) {
        let mut m = "Invalid response code ".to_owned();
        let num = u64_to_string(status as u64);
        m.append(num.as_str());
        m.append(" from API");
        proof {
            assert(m@ =~= bad_status_text(status));
        }
        return Err(Error::Message(m));
    }
    match data {
        None => Err(Error::Message(
            "Unexpectedly received invalid JSON\n\nThis is likely caused by a broken backend and not your fault.\nPlease update the application. If the error persists, open an issue on GitHub.".to_owned(),
        )),
        Some(posts) => {
            if posts.len() == 0 {
                return Ok(posts);
            }
            let last = posts.len() - 1;
            match posts[last].created_utc {
                Some(t) => {
                    *before = Some(t);
                    Ok(posts)
                },
                None => Err(Error::Message(
                    "Unexpectedly received invalid JSON\n\nThis is likely caused by a broken backend and not your fault.\nPlease update the application. If the error persists, open an issue on GitHub.".to_owned(),
                )),
            }
        },
    }
}

/// The pagination loop's convergence test: an empty page means the target
/// is exhausted, and the walk stops.
pub fn page_exhausted(items: &Vec<RawItem>) -> (r: bool)
    ensures
        r == (items@.len() == 0),
{
    items.len() == 0
}

/// Pagination terminates: across the non-empty pages of one target the
/// cursor strictly decreases, and a strictly decreasing sequence of cursor
/// values cannot be longer than its first value allows — with the empty page
/// ending the walk, every finite backing dataset is exhausted after finitely
/// many pages.
pub proof fn lemma_pagination_terminates(cursors: Seq<u64>)
    requires
        cursors.len() >= 1,
        forall|i: int| 0 <= i < cursors.len() - 1 ==> #[trigger] cursors[i + 1] < cursors[i],
    ensures
        cursors.len() <= cursors[0] + 1,
    decreases cursors.len(),
{
    if cursors.len() >= 2 {
        let tail = cursors.drop_first();
        assert forall|i: int| 0 <= i < tail.len() - 1 implies #[trigger] tail[i + 1] < tail[i] by {
            assert(tail[i + 1] == cursors[i + 2]);
            assert(tail[i] == cursors[i + 1]);
        }
        lemma_pagination_terminates(tail);
        assert(tail[0] == cursors[1]);
        assert(cursors[1] < cursors[0]);
    }
}

} // verus!
