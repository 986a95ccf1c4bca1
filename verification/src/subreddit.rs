//! The per-target pipeline coordinator.
//!
//! For each collection target the run walks pages newest-first. Every item
//! is judged on its own: update mode stops at the resume marker's id, a
//! malformed item is skipped with a warning, and anything else becomes a
//! fetch job — with the resume marker written on the run's first identified
//! item, before any job of the run is submitted. The page loop, the queue
//! draining and the outcome logging are driven from outside the library
//! against the plans built here.

use vstd::prelude::*;
use crate::net::{parse_url, url_host_of, url_is_valid, url_path_of};
use crate::params::Parameters;
use crate::pushshift::RawItem;
use crate::sites::{extension_of, file_extension, FetchJob};
use crate::strutil::str_eq;
use crate::title::{apply_template, truncated};

verus! {

/// Why one item was passed over.
#[derive(Debug, Clone, Copy, PartialEq, Eq, Structural)]
pub enum SkipReason {
    /// The item carries no id.
    MissingId,

    /// The item carries no URL.
    MissingUrl,

    /// The item's URL does not parse.
    InvalidUrl,

    /// The item does not say whether it is a self post.
    MissingIsSelf,

    /// The item carries no host.
    MissingDomain,

    /// The item's file extension alone exceeds the name-length budget.
    NameBudget,
}

/// What the coordinator does with one item.
#[derive(Debug)]
pub enum ItemAction {
    /// Update mode found the resume marker's id: the target's remaining
    /// items and pages are already retrieved.
    Stop,

    /// The item is skipped with a warning; its siblings are unaffected.
    Skip(SkipReason),

    /// A fetch job, to be submitted to the bounded queue.
    Submit(FetchJob),
}

/// One item's disposition: a resume-marker write to make first — before
/// the job is submitted — and the action.
#[derive(Debug)]
pub struct ItemStep {
    /// The id to write as the target's resume marker, set on the run's
    /// first identified item.
    pub marker_write: Option<String>,

    /// What to do with the item.
    pub action: ItemAction,
}

/// The view of an optional string.
pub open spec fn opt_text(o: Option<String>) -> Option<Seq<char>> {
    match o {
        Some(s) => Some(s@),
        None => None,
    }
}

/// Whether update mode stops at this item: its id equals the resume marker
/// read at the start of the run.
pub open spec fn stops_at(params: Parameters, newest: Option<Seq<char>>, item: RawItem) -> bool {
    &&& params.update
    &&& item.id is Some
    &&& newest is Some
    &&& item.id->0@ == newest->0
}

/// The extension the item's file gets, as plain text: empty where the URL
/// path has none.
pub open spec fn item_extension(params: Parameters, item: RawItem) -> Seq<char> {
    match extension_of(
        url_host_of(item.url->0@),
        url_path_of(item.url->0@),
        params.gfycat_type,
        item.is_self->0,
    ) {
        Some(e) => e,
        None => Seq::empty(),
    }
}

/// The file name the item gets: the formatted template, truncated so that
/// name and extension together fit the budget, with the extension appended.
pub open spec fn item_file_name(params: Parameters, item: RawItem) -> Seq<char> {
    truncated(
        apply_template(
            params.title.spec_haystack(),
            params.title.spec_fields(),
            item.attrs.entries@,
        ),
        params.max_file_name_length - item_extension(params, item).len(),
    ) + item_extension(params, item)
}

/// What the fetch job built for a valid item holds.
pub open spec fn job_rel(params: Parameters, item: RawItem, job: FetchJob) -> bool {
    &&& job.domain@ == item.domain->0@
    &&& job.is_selfpost == item.is_self->0
    &&& job.url@ == item.url->0@
    &&& job.output@ == item_file_name(params, item)
    &&& job.text == item.selftext
    &&& job.media == item.secure_media
}

/// The action an identified, non-stopping item gets: each malformed field
/// skips the item alone, anything else becomes a fetch job.
pub open spec fn action_rel(params: Parameters, item: RawItem, action: ItemAction) -> bool {
    if item.url is None {
        action matches ItemAction::Skip(r) && r == SkipReason::MissingUrl
    } else if !url_is_valid(item.url->0@) {
        action matches ItemAction::Skip(r) && r == SkipReason::InvalidUrl
    } else if item.is_self is None {
        action matches ItemAction::Skip(r) && r == SkipReason::MissingIsSelf
    } else if item.domain is None {
        action matches ItemAction::Skip(r) && r == SkipReason::MissingDomain
    } else if item_extension(params, item).len() > params.max_file_name_length {
        action matches ItemAction::Skip(r) && r == SkipReason::NameBudget
    } else {
        action matches ItemAction::Submit(job) && job_rel(params, item, job)
    }
}

/// The disposition one item gets, given whether the marker was already
/// written this run and the marker id read at the run's start.
pub open spec fn step_item_rel(
    params: Parameters,
    updated: bool,
    newest: Option<Seq<char>>,
    item: RawItem,
    step: ItemStep,
) -> bool {
    if stops_at(params, newest, item) {
        &&& step.action is Stop
        &&& step.marker_write is None
    } else if item.id is None {
        &&& step.action matches ItemAction::Skip(r) && r == SkipReason::MissingId
        &&& step.marker_write is None
    } else {
        &&& (if updated {
            step.marker_write is None
        } else {
            step.marker_write matches Some(w) && w@ == item.id->0@
        })
        &&& action_rel(params, item, step.action)
    }
}

/// Plans one item of a page.
pub fn step_item(
    params: &Parameters,
    updated: bool,
    newest_id: &Option<String>,
    item: RawItem,
) -> (r: ItemStep)
    requires
        params.wf(),
    ensures
        step_item_rel(*params, updated, opt_text(*newest_id), item, r),
{
    let RawItem {
        id: id_opt,
        created_utc: _created,
        url: url_opt,
        is_self: is_self_opt,
        domain: domain_opt,
        selftext,
        secure_media,
        attrs,
    } = item;
    let id: String = match id_opt {
        Some(id) => id,
        None => {
            return ItemStep {
                marker_write: None,
                action: ItemAction::Skip(SkipReason::MissingId),
            };
        },
    };
    if params.update {
        if let Some(marker) = newest_id {
            if str_eq(id.as_str(), marker.as_str()) {
                return ItemStep { marker_write: None, action: ItemAction::Stop };
            }
        }
    }
    let marker_write: Option<String> = if updated {
        None
    } else {
        Some(id)
    };
    let url: String = match url_opt {
        Some(u) => u,
        None => {
            return ItemStep { marker_write, action: ItemAction::Skip(SkipReason::MissingUrl) };
        },
    };
    let parts = match parse_url(url.as_str()) {
        Some(p) => p,
        None => {
            return ItemStep { marker_write, action: ItemAction::Skip(SkipReason::InvalidUrl) };
        },
    };
    let is_self: bool = match is_self_opt {
        Some(b) => b,
        None => {
            return ItemStep { marker_write, action: ItemAction::Skip(SkipReason::MissingIsSelf) };
        },
    };
    let domain: String = match domain_opt {
        Some(d) => d,
        None => {
            return ItemStep { marker_write, action: ItemAction::Skip(SkipReason::MissingDomain) };
        },
    };
    let host_ref: Option<&str> = match &parts.host {
        Some(h) => Some(h.as_str()),
        None => None,
    };
    let ext: &str = match file_extension(
        host_ref,
        parts.path.as_str(),
        params.gfycat_type,
        is_self,
    ) {
        Some(e) => e,
        None => "",
    };
    proof {
        reveal_strlit("");
        assert(ext@ == item_extension(*params, item));
    }
    let ext_len = ext.unicode_len();
    if ext_len > params.max_file_name_length {
        return ItemStep { marker_write, action: ItemAction::Skip(SkipReason::NameBudget) };
    }
    let budget = params.max_file_name_length - ext_len;
    let mut name = params.title.format(&attrs, budget);
    name.append(ext);
    let job = FetchJob {
        domain,
        is_selfpost: is_self,
        url,
        output: name,
        text: selftext,
        media: secure_media,
    };
    ItemStep { marker_write, action: ItemAction::Submit(job) }
}

/// Whether the resume-marker flag is set when item `k` of a page comes up:
/// it is set once any earlier item of the page carried an id.
pub open spec fn updated_before(items: Seq<RawItem>, updated0: bool, k: int) -> bool
    decreases k when k >= 0
{
    if k <= 0 {
        updated0
    } else {
        updated_before(items, updated0, k - 1) || items[k - 1].id is Some
    }
}

/// The plan for one page of items.
#[derive(Debug)]
pub struct PagePlan {
    /// One step per processed item, in page order.
    pub steps: Vec<ItemStep>,

    /// Whether update mode ended the target within this page.
    pub stopped: bool,

    /// Whether the resume marker stands written after this page.
    pub updated: bool,
}

/// Plans one page: items are taken in page order until the update-mode
/// stop, and each item's step depends on that item, the run flags and the
/// resume marker alone.
pub fn process_page(
    params: &Parameters,
    updated0: bool,
    newest_id: &Option<String>,
    items: Vec<RawItem>,
) -> (p: PagePlan)
    requires
        params.wf(),
    ensures
        p.steps@.len() <= items@.len(),
        forall|k: int|
            0 <= k < p.steps@.len() ==> step_item_rel(
                *params,
                updated_before(items@, updated0, k),
                opt_text(*newest_id),
                items@[k],
                #[trigger] p.steps@[k],
            ),
        forall|k: int| 0 <= k < p.steps@.len() - 1 ==> !((#[trigger] p.steps@[k]).action is Stop),
        !p.stopped ==> {
            &&& p.steps@.len() == items@.len()
            &&& p.updated == updated_before(items@, updated0, items@.len() as int)
            &&& forall|k: int|
                0 <= k < p.steps@.len() ==> !((#[trigger] p.steps@[k]).action is Stop)
        },
        p.stopped ==> {
            &&& p.steps@.len() >= 1
            &&& p.steps@.last().action is Stop
            &&& p.updated == updated_before(items@, updated0, p.steps@.len() - 1)
        },
{
    let ghost items0 = items@;
    let mut items = items;
    let mut steps: Vec<ItemStep> = Vec::new();
    let mut updated = updated0;
    let mut stopped = false;
    let ghost mut k: int = 0;
    proof {
        assert(items0.skip(0) =~= items0);
    }
    while items.len() > 0 && !stopped
        invariant
            params.wf(),
            0 <= k <= items0.len(),
            k + items@.len() == items0.len(),
            items@ == items0.skip(k),
            steps@.len() == k,
            forall|j: int|
                0 <= j < steps@.len() ==> step_item_rel(
                    *params,
                    updated_before(items0, updated0, j),
                    opt_text(*newest_id),
                    items0[j],
                    #[trigger] steps@[j],
                ),
            forall|j: int| 0 <= j < steps@.len() - 1 ==> !((#[trigger] steps@[j]).action is Stop),
            !stopped ==> {
                &&& updated == updated_before(items0, updated0, k)
                &&& forall|j: int|
                    0 <= j < steps@.len() ==> !((#[trigger] steps@[j]).action is Stop)
            },
            stopped ==> {
                &&& steps@.len() >= 1
                &&& steps@.last().action is Stop
                &&& updated == updated_before(items0, updated0, k - 1)
            },
        decreases items@.len(),
    {
        let ghost old_items = items@;
        let item = items.remove(0);
        proof {
            assert(item == items0.skip(k)[0]);
            assert(items0.skip(k)[0] == items0[k]);
            assert(items@ =~= items0.skip(k + 1));
        }
        let ghost item_g = item;
        let has_id = item.id.is_some();
        let step = step_item(params, updated, newest_id, item);
        let is_stop = match &step.action {
            ItemAction::Stop => true,
            _ => false,
        };
        steps.push(step);
        proof {
            assert(updated_before(items0, updated0, k + 1) == (updated_before(
                items0,
                updated0,
                k,
            ) || items0[k].id is Some));
        }
        if is_stop {
            stopped = true;
        } else {
            if has_id {
                updated = true;
            }
        }
        proof {
            k = k + 1;
        }
    }
    proof {
        if !stopped {
            assert(items@.len() == 0);
            assert(k == items0.len());
        }
    }
    PagePlan { steps, stopped, updated }
}

/// The marker flag advances the same way for two pages that agree except in
/// one exchanged item, as long as both versions of that item carry an id —
/// or both lack one.
proof fn lemma_updated_before_same(
    items1: Seq<RawItem>,
    items2: Seq<RawItem>,
    updated0: bool,
    x: int,
    k: int,
)
    requires
        items1.len() == items2.len(),
        0 <= x < items1.len(),
        forall|t: int| 0 <= t < items1.len() && t != x ==> items1[t] == items2[t],
        (items1[x].id is Some) == (items2[x].id is Some),
        0 <= k <= items1.len(),
    ensures
        updated_before(items1, updated0, k) == updated_before(items2, updated0, k),
    decreases k,
{
    if k > 0 {
        lemma_updated_before_same(items1, items2, updated0, x, k - 1);
        assert((items1[k - 1].id is Some) == (items2[k - 1].id is Some));
    }
}

/// One failing item does not prevent its siblings: an item's step is a
/// function of that item, the run flags, and the resume marker alone.
/// Exchange any one item of a page for another that equally carries an id —
/// say, one whose host is unsupported, whose fields are malformed, or whose
/// fetch will fail — and every sibling's acceptable steps are exactly the
/// ones it had before.
pub proof fn lemma_sibling_items_independent(
    params: Parameters,
    updated0: bool,
    newest: Option<Seq<char>>,
    items1: Seq<RawItem>,
    items2: Seq<RawItem>,
    x: int,
    j: int,
    step: ItemStep,
)
    requires
        items1.len() == items2.len(),
        0 <= x < items1.len(),
        forall|t: int| 0 <= t < items1.len() && t != x ==> items1[t] == items2[t],
        (items1[x].id is Some) == (items2[x].id is Some),
        0 <= j < items1.len(),
        j != x,
    ensures
        updated_before(items1, updated0, j) == updated_before(items2, updated0, j),
        step_item_rel(params, updated_before(items1, updated0, j), newest, items1[j], step)
            == step_item_rel(params, updated_before(items2, updated0, j), newest, items2[j], step),
{
    lemma_updated_before_same(items1, items2, updated0, x, j);
    assert(items1[j] == items2[j]);
}

} // verus!

