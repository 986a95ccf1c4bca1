//! Tests of the pipeline core: page queries and evaluation, the per-item
//! coordinator steps, the bounded queue, the resume marker, and the run
//! configuration.

use redditrip::{
    build_api_url, evaluate_page, marker_contents, marker_first_line, page_exhausted, page_url,
    parse_domains, parse_input, u64_to_string, verify_name, Error, FetchJob, FieldValue,
    GfycatType, Item, ItemAction, Parameters, RawItem, SkipReason, Subreddit, TaskQueue, Title,
    VRedditMode,
};

fn params_with(title: &str) -> Parameters {
    Parameters {
        max_file_name_length: 255,
        force: false,
        update: false,
        no_parent: false,
        after: None,
        before: None,
        batch_size: 250,
        queue_size: 16,
        selfposts: false,
        exclude: Vec::new(),
        gfycat_type: GfycatType::Mp4,
        vreddit_mode: VRedditMode::NoAudio,
        title: Title::new(title),
    }
}

fn attrs_of(entries: &[(&str, &str)]) -> Item {
    let mut item = Item::new();
    for (name, value) in entries {
        item.push_entry((*name).to_string(), FieldValue::Text((*value).to_string()));
    }
    item
}

fn raw_item(id: &str, url: &str, domain: &str, attrs: Item) -> RawItem {
    RawItem {
        id: Some(id.to_string()),
        created_utc: Some(1000),
        url: Some(url.to_string()),
        is_self: Some(false),
        domain: Some(domain.to_string()),
        selftext: None,
        secure_media: None,
        attrs,
    }
}

#[test]
fn test_build_api_url() {
    assert_eq!(
        "https://api.pushshift.io/reddit/search/submission?sort_type=created_utc&sort=desc&size=250&fields=id,created_utc,domain,url,secure_media,is_self,id,title&is_self=false",
        build_api_url(&params_with("{id}-{title}"))
    );
    let mut p = params_with("{id}-{title}");
    p.batch_size = 0;
    p.selfposts = true;
    assert_eq!(
        "https://api.pushshift.io/reddit/search/submission?sort_type=created_utc&sort=desc&size=0&fields=id,created_utc,domain,url,secure_media,is_self,id,title,selftext",
        build_api_url(&p)
    );
    let mut p = params_with("{id}-{title}");
    p.exclude = vec!["domain1".to_string(), "domain2".to_string()];
    assert_eq!(
        "https://api.pushshift.io/reddit/search/submission?sort_type=created_utc&sort=desc&size=250&fields=id,created_utc,domain,url,secure_media,is_self,id,title&is_self=false&domain=!domain1,!domain2",
        build_api_url(&p)
    );
    let mut p = params_with("{id}-{title}");
    p.after = Some(946684800);
    assert_eq!(
        "https://api.pushshift.io/reddit/search/submission?sort_type=created_utc&sort=desc&size=250&fields=id,created_utc,domain,url,secure_media,is_self,id,title&is_self=false&after=946684800",
        build_api_url(&p)
    );
    assert_eq!(
        "https://api.pushshift.io/reddit/search/submission?sort_type=created_utc&sort=desc&size=250&fields=id,created_utc,domain,url,secure_media,is_self,author,full_link,id&is_self=false",
        build_api_url(&params_with("{id}{author}{full_link}"))
    );
}

#[test]
fn page_url_appends_the_cursor() {
    assert_eq!("base", page_url("base", &None));
    assert_eq!("base&before=1500", page_url("base", &Some(1500)));
}

#[test]
fn evaluate_page_rejects_bad_status() {
    let mut before = Some(99u64);
    let r = evaluate_page(500, Some(Vec::new()), &mut before);
    match r {
        Err(Error::Message(m)) => assert_eq!("Invalid response code 500 from API", m),
        _ => panic!("expected a status error"),
    }
    assert_eq!(Some(99), before);
}

#[test]
fn evaluate_page_rejects_missing_data() {
    let mut before = None;
    let r = evaluate_page(200, None, &mut before);
    match r {
        Err(Error::Message(m)) => {
            assert!(m.starts_with("Unexpectedly received invalid JSON"))
        }
        _ => panic!("expected a shape error"),
    }
    assert_eq!(None, before);
}

#[test]
fn evaluate_page_empty_page_exhausts_the_target() {
    let mut before = Some(77u64);
    let r = evaluate_page(200, Some(Vec::new()), &mut before);
    let posts = r.expect("an empty page is a success");
    assert!(page_exhausted(&posts));
    assert_eq!(Some(77), before);
}

#[test]
fn evaluate_page_advances_the_cursor() {
    let mut before = Some(2000u64);
    let newer = raw_item("a", "https://i.redd.it/a.jpg", "i.redd.it", Item::new());
    let mut older = raw_item("b", "https://i.redd.it/b.jpg", "i.redd.it", Item::new());
    older.created_utc = Some(100);
    let r = evaluate_page(200, Some(vec![newer, older]), &mut before);
    let posts = r.expect("a well-formed page is a success");
    assert!(!page_exhausted(&posts));
    assert_eq!(2, posts.len());
    assert_eq!(Some(100), before);
}

#[test]
fn evaluate_page_rejects_missing_timestamp() {
    let mut before = Some(2000u64);
    let mut item = raw_item("a", "https://i.redd.it/a.jpg", "i.redd.it", Item::new());
    item.created_utc = None;
    let r = evaluate_page(200, Some(vec![item]), &mut before);
    assert!(r.is_err());
    assert_eq!(Some(2000), before);
}

#[test]
fn pagination_terminates_on_a_finite_dataset() {
    // A finite dataset served newest-first in pages of two: each page holds
    // only items strictly older than the cursor, and the page after the
    // last item is empty. The walk stops after finitely many pages.
    let dataset: Vec<u64> = vec![90, 80, 70, 60, 50];
    let mut before: Option<u64> = Some(100);
    let mut pages = 0;
    loop {
        let page: Vec<RawItem> = dataset
            .iter()
            .filter(|t| before.map_or(true, |b| **t < b))
            .take(2)
            .map(|t| {
                let mut item = raw_item(
                    &format!("id{}", t),
                    "https://i.redd.it/a.jpg",
                    "i.redd.it",
                    Item::new(),
                );
                item.created_utc = Some(*t);
                item
            })
            .collect();
        let items = evaluate_page(200, Some(page), &mut before).unwrap();
        if page_exhausted(&items) {
            break;
        }
        pages += 1;
        assert!(pages <= 10, "pagination must converge");
    }
    assert_eq!(3, pages);
    assert_eq!(Some(50), before);
}

#[test]
fn step_item_builds_a_job_and_writes_the_marker() {
    let params = params_with("{id}-{title}");
    let item = raw_item(
        "abc123",
        "https://i.redd.it/pic.jpg",
        "i.redd.it",
        attrs_of(&[("id", "abc123"), ("title", "Hello World")]),
    );
    let step = redditrip::step_item(&params, false, &None, item);
    assert_eq!(Some("abc123".to_string()), step.marker_write);
    match step.action {
        ItemAction::Submit(job) => {
            assert_eq!("i.redd.it", job.domain);
            assert!(!job.is_selfpost);
            assert_eq!("https://i.redd.it/pic.jpg", job.url);
            assert_eq!("abc123-Hello World.jpg", job.output);
        }
        _ => panic!("expected a job"),
    }
}

#[test]
fn step_item_truncates_the_name_but_not_the_extension() {
    let mut params = params_with("{id}-{title}");
    params.max_file_name_length = 10;
    let item = raw_item(
        "abcdef",
        "https://i.redd.it/pic.jpg",
        "i.redd.it",
        attrs_of(&[("id", "abcdef"), ("title", "a long title")]),
    );
    let step = redditrip::step_item(&params, true, &None, item);
    match step.action {
        ItemAction::Submit(job) => assert_eq!("abcdef.jpg", job.output),
        _ => panic!("expected a job"),
    }
}

#[test]
fn step_item_stops_at_the_resume_marker() {
    let mut params = params_with("{id}-{title}");
    params.update = true;
    let item = raw_item("same", "https://i.redd.it/a.jpg", "i.redd.it", Item::new());
    let step = redditrip::step_item(&params, false, &Some("same".to_string()), item);
    assert_eq!(None, step.marker_write);
    assert!(matches!(step.action, ItemAction::Stop));
}

#[test]
fn step_item_skips_malformed_items() {
    let params = params_with("{id}-{title}");
    let mut no_id = raw_item("x", "https://i.redd.it/a.jpg", "i.redd.it", Item::new());
    no_id.id = None;
    let step = redditrip::step_item(&params, false, &None, no_id);
    assert_eq!(None, step.marker_write);
    assert!(matches!(
        step.action,
        ItemAction::Skip(SkipReason::MissingId)
    ));

    let mut no_url = raw_item("x", "u", "i.redd.it", Item::new());
    no_url.url = None;
    let step = redditrip::step_item(&params, false, &None, no_url);
    assert_eq!(Some("x".to_string()), step.marker_write);
    assert!(matches!(
        step.action,
        ItemAction::Skip(SkipReason::MissingUrl)
    ));

    let mut no_flag = raw_item("y", "https://i.redd.it/a.jpg", "i.redd.it", Item::new());
    no_flag.is_self = None;
    let step = redditrip::step_item(&params, true, &None, no_flag);
    assert_eq!(None, step.marker_write);
    assert!(matches!(
        step.action,
        ItemAction::Skip(SkipReason::MissingIsSelf)
    ));
}

#[test]
fn process_page_failing_item_leaves_siblings_alone() {
    let params = params_with("{id}");
    let mut bad = raw_item("one", "u", "i.redd.it", attrs_of(&[("id", "one")]));
    bad.url = None;
    let good = raw_item(
        "two",
        "https://i.redd.it/b.png",
        "i.redd.it",
        attrs_of(&[("id", "two")]),
    );
    let plan = redditrip::process_page(&params, false, &None, vec![bad, good]);
    assert!(!plan.stopped);
    assert!(plan.updated);
    assert_eq!(2, plan.steps.len());
    assert!(matches!(
        plan.steps[0].action,
        ItemAction::Skip(SkipReason::MissingUrl)
    ));
    match &plan.steps[1].action {
        ItemAction::Submit(job) => assert_eq!("two.png", job.output),
        _ => panic!("the sibling of a failing item must still be processed"),
    }
    assert_eq!(Some("one".to_string()), plan.steps[0].marker_write);
    assert_eq!(None, plan.steps[1].marker_write);
}

#[test]
fn process_page_stops_at_the_marker_mid_page() {
    let mut params = params_with("{id}");
    params.update = true;
    let first = raw_item(
        "new",
        "https://i.redd.it/a.png",
        "i.redd.it",
        attrs_of(&[("id", "new")]),
    );
    let known = raw_item("seen", "https://i.redd.it/b.png", "i.redd.it", Item::new());
    let later = raw_item("old", "https://i.redd.it/c.png", "i.redd.it", Item::new());
    let plan = redditrip::process_page(
        &params,
        false,
        &Some("seen".to_string()),
        vec![first, known, later],
    );
    assert!(plan.stopped);
    assert_eq!(2, plan.steps.len());
    assert!(matches!(plan.steps[1].action, ItemAction::Stop));
}

#[test]
fn queue_respects_the_concurrency_limit() {
    fn job(name: &str) -> FetchJob {
        FetchJob {
            domain: "i.redd.it".to_string(),
            is_selfpost: false,
            url: format!("https://i.redd.it/{}", name),
            output: name.to_string(),
            text: None,
            media: None,
        }
    }
    let mut queue = TaskQueue::new(2);
    assert_eq!(0, queue.len());
    assert!(!queue.is_full());
    queue.submit(job("a"));
    queue.submit(job("b"));
    assert_eq!(2, queue.len());
    assert!(queue.is_full());
    // At capacity: exactly one job completes, then the next submission
    // brings the queue back to the limit, never beyond it.
    let done = queue.complete(0);
    assert_eq!("a", done.output);
    assert!(!queue.is_full());
    queue.submit(job("c"));
    assert_eq!(2, queue.len());
    assert!(queue.is_full());
    let done = queue.complete(1);
    assert_eq!("c", done.output);
    let done = queue.complete(0);
    assert_eq!("b", done.output);
    assert_eq!(0, queue.len());
}

#[test]
fn update_file() {
    // The marker file is rewritten whole on every write: reading after a
    // sequence of writes yields the last id, whatever stood there before.
    let mut file = marker_contents("Lorem");
    file = marker_contents("ipsum");
    assert_eq!("ipsum", marker_first_line(&file));
    file = marker_contents("dolor");
    assert_eq!("dolor", marker_first_line(&file));
}

#[test]
fn marker_round_trip_details() {
    let contents = marker_contents("t3_abcdef");
    assert!(contents.starts_with("t3_abcdef\n# "));
    assert_eq!("t3_abcdef", marker_first_line(&contents));
    assert_eq!("bare", marker_first_line("bare"));
    assert_eq!("", marker_first_line("\ncomment only"));
}

#[test]
fn decimal_rendering() {
    assert_eq!("0", u64_to_string(0));
    assert_eq!("7", u64_to_string(7));
    assert_eq!("12345", u64_to_string(12345));
    assert_eq!("18446744073709551615", u64_to_string(u64::MAX));
}

#[test]
fn parse_input_recognizes_prefixes() {
    assert_eq!(
        Ok(Subreddit::Subreddit("pics".to_string())),
        parse_input("pics")
    );
    assert_eq!(
        Ok(Subreddit::Subreddit("pics".to_string())),
        parse_input("r/pics")
    );
    assert_eq!(
        Ok(Subreddit::Subreddit("pics".to_string())),
        parse_input("/r/pics")
    );
    assert_eq!(
        Ok(Subreddit::Profile("someone".to_string())),
        parse_input("u/someone")
    );
    assert_eq!(
        Ok(Subreddit::Profile("someone".to_string())),
        parse_input("/u/someone")
    );
    assert!(parse_input("bad name").is_err());
}

#[test]
fn verify_name_checks_length_and_characters() {
    assert!(verify_name("valid_Name-123").is_ok());
    assert_eq!(
        Err("Subreddit names have a maximum length of 21 characters".to_string()),
        verify_name("abcdefghijklmnopqrstuv")
    );
    assert_eq!(
        Err("Subreddit names can only contain alphanumeric characters, '!' found".to_string()),
        verify_name("wat!")
    );
}

#[test]
fn parse_domains_extracts_the_host() {
    assert_eq!(
        Ok("i.redd.it".to_string()),
        parse_domains("https://i.redd.it/abc.jpg")
    );
    assert_eq!(Ok("imgur.com".to_string()), parse_domains("imgur.com"));
    assert!(parse_domains("/only/a/path").is_err());
}

#[test]
fn error_carries_its_source() {
    let plain = Error::new("something broke".to_string());
    assert!(plain.source().is_none());
    assert_eq!(None, plain.into_source());
    let wrapped = Error::Inner("connection reset".to_string());
    assert_eq!(Some(&"connection reset".to_string()), wrapped.source());
    assert_eq!(Some("connection reset".to_string()), wrapped.into_source());
    let bug = Error::bug();
    match bug {
        Error::Message(m) => assert!(m.starts_with("This is likely a bug")),
        _ => panic!("expected a message"),
    }
}
