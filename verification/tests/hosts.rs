//! Tests of the host-specific planning: dispatch, extensions, and the URL
//! builders of each supported host.

use redditrip::{
    album_json_slice, extract_id, file_extension, imgur_target, parse_gfycat_type,
    parse_vreddit_mode, plan_vreddit, replace_first, select_strategy, str_eq, supported_domains,
    FetchError, FetchStrategy, GfycatType, ImgurTarget, RedditVideo, SecureMedia, Subreddit,
    VRedditMode, VRedditPlan,
};

fn ext_of(url: &'static str, t: GfycatType, is_self: bool) -> Option<String> {
    let uri = http::Uri::from_static(url);
    file_extension(uri.host(), uri.path(), t, is_self).map(|e| e.to_string())
}

#[test]
fn test_url_extension() {
    let data = "http://example.com/";
    assert_eq!(Some(".txt"), ext_of(data, GfycatType::Mp4, true).as_deref());

    let data = "http://example.com/a/b.c";
    assert_eq!(Some(".c"), ext_of(data, GfycatType::Mp4, false).as_deref());
    let data = "http://example.com/a.bc";
    assert_eq!(Some(".bc"), ext_of(data, GfycatType::Mp4, false).as_deref());

    let data = "http://example.com/";
    assert_eq!(None, ext_of(data, GfycatType::Mp4, false).as_deref());
    let data = "http://example.com/none";
    assert_eq!(None, ext_of(data, GfycatType::Mp4, false).as_deref());

    let data = "https://gfycat.com/";
    assert_eq!(Some(".mp4"), ext_of(data, GfycatType::Mp4, false).as_deref());
    let data = "https://gfycat.com/";
    assert_eq!(Some(".webm"), ext_of(data, GfycatType::Webm, false).as_deref());
    let data = "http://gfycat.com/.webm";
    assert_eq!(Some(".mp4"), ext_of(data, GfycatType::Mp4, false).as_deref());
    let data = "http://gfycat.com/.mp4";
    assert_eq!(Some(".webm"), ext_of(data, GfycatType::Webm, false).as_deref());

    let data = "http://imgur.com/image.jpg";
    assert_eq!(Some(".jpg"), ext_of(data, GfycatType::Mp4, false).as_deref());
    let data = "http://imgur.com/a/id";
    assert_eq!(None, ext_of(data, GfycatType::Mp4, false).as_deref());
    let data = "http://imgur.com/a/id/";
    assert_eq!(None, ext_of(data, GfycatType::Mp4, false).as_deref());
}

#[test]
fn gfycat_id() {
    assert_eq!(("loremipsum", false), extract_id("/loremipsum"));
    assert_eq!(("LoremIpsum", true), extract_id("/LoremIpsum"));
    assert_eq!(("loremipsum", false), extract_id("/loremipsum-some-text"));
    assert_eq!(("LoremIpsum", true), extract_id("/LoremIpsum-some-text"));
}

#[test]
fn dispatch_by_domain() {
    let table: &[(&str, FetchStrategy)] = &[
        ("i.redd.it", FetchStrategy::RedditImage),
        ("v.redd.it", FetchStrategy::RedditVideo),
        ("i.imgur.com", FetchStrategy::ImgurDirect),
        ("imgur.com", FetchStrategy::ImgurAlbum),
        ("gfycat.com", FetchStrategy::Gfycat),
        ("redgifs.com", FetchStrategy::Redgifs),
        ("giant.gfycat.com", FetchStrategy::GfycatGiant),
        ("thumbs.gfycat.com", FetchStrategy::GfycatThumbs),
        ("thumbs1.redgifs.com", FetchStrategy::GfycatThumbs),
        ("i.pinimg.com", FetchStrategy::Pinterest),
        ("i.postimg.cc", FetchStrategy::Postimages),
    ];
    for (domain, expected) in table {
        assert_eq!(Ok(*expected), select_strategy(domain, false, false, false));
    }
}

#[test]
fn dispatch_self_posts_and_fallbacks() {
    assert_eq!(
        Ok(FetchStrategy::SelfPost),
        select_strategy("anything.example", true, true, false)
    );
    match select_strategy("anything.example", true, false, false) {
        Err(FetchError::MalformedResponse(m)) => {
            assert_eq!("Malformed self post: field 'selftext' missing", m)
        }
        _ => panic!("a self post without text is malformed"),
    }
    assert_eq!(
        Ok(FetchStrategy::Force),
        select_strategy("unknown.example", false, false, true)
    );
    match select_strategy("unknown.example", false, false, false) {
        Err(FetchError::UnsupportedDomain(d)) => assert_eq!("unknown.example", d),
        _ => panic!("an unknown host without force mode is unsupported"),
    }
}

#[test]
fn unsupported_domain_message() {
    let e = FetchError::UnsupportedDomain("unknown.example".to_string());
    assert_eq!("Unsupported domain 'unknown.example'", e.describe());
    let e = FetchError::UnexpectedStatus(503);
    assert_eq!("Unexpected response code 503", e.describe());
    let e = FetchError::NotFound;
    assert_eq!("File not found", e.describe());
}

#[test]
fn status_classification() {
    assert!(redditrip::classify_status(200).is_ok());
    assert!(redditrip::classify_status(204).is_ok());
    assert!(matches!(
        redditrip::classify_status(404),
        Err(FetchError::NotFound)
    ));
    assert!(matches!(
        redditrip::classify_status(500),
        Err(FetchError::UnexpectedStatus(500))
    ));
    assert!(matches!(
        redditrip::classify_imgur_status(302),
        Err(FetchError::NotFound)
    ));
    assert!(redditrip::classify_imgur_status(200).is_ok());
}

#[test]
fn gfycat_urls() {
    assert_eq!("mp4", GfycatType::Mp4.as_str());
    assert_eq!("webm", GfycatType::Webm.as_str());
    assert_eq!(Some(GfycatType::Mp4), parse_gfycat_type("mp4"));
    assert_eq!(Some(GfycatType::Webm), parse_gfycat_type("webm"));
    assert_eq!(None, parse_gfycat_type("avi"));
    assert_eq!(
        "https://giant.gfycat.com/LoremIpsum.mp4",
        redditrip::gfycat_direct_url("LoremIpsum", GfycatType::Mp4)
    );
    assert_eq!(
        "https://thumbs1.redgifs.com/LoremIpsum.webm",
        redditrip::redgifs_direct_url("LoremIpsum", GfycatType::Webm)
    );
    assert_eq!(
        "https://api.gfycat.com/v1/gfycats/loremipsum",
        redditrip::gfycat_api_url("loremipsum")
    );
    assert_eq!(
        "https://api.redgifs.com/v1/gfycats/loremipsum",
        redditrip::redgifs_api_url("loremipsum")
    );
}

#[test]
fn redgifs_id_cuts_the_watch_prefix() {
    assert_eq!(
        Ok(("loremipsum", false)),
        redditrip::redgifs_id("/watch/loremipsum")
    );
    assert_eq!(
        Ok(("LoremIpsum", true)),
        redditrip::redgifs_id("/watch/LoremIpsum-some-text")
    );
    match redditrip::redgifs_id("/bad") {
        Err(FetchError::MalformedResponse(m)) => assert_eq!("Malformed URL", m),
        _ => panic!("a short path is malformed"),
    }
}

#[test]
fn imgur_paths() {
    match imgur_target("/a/dFz23") {
        ImgurTarget::Album(id) => assert_eq!("dFz23", id),
        _ => panic!("an /a/ path is an album"),
    }
    match imgur_target("/a/dFz23/extra") {
        ImgurTarget::Album(id) => assert_eq!("dFz23", id),
        _ => panic!("an /a/ path is an album"),
    }
    match imgur_target("/gallery/dFz23") {
        ImgurTarget::Gallery(id) => assert_eq!("dFz23", id),
        _ => panic!("a /gallery/ path is a gallery"),
    }
    match imgur_target("/gallery/dFz23/") {
        ImgurTarget::Gallery(id) => assert_eq!("dFz23", id),
        _ => panic!("a trailing slash is stripped"),
    }
    assert!(matches!(imgur_target("/image.jpg"), ImgurTarget::Direct));
    assert_eq!(
        "https://imgur.com/a/dFz23/embed",
        redditrip::imgur_album_embed_url("dFz23")
    );
    assert_eq!(
        "https://imgur.com/gallery/dFz23.json",
        redditrip::imgur_gallery_json_url("dFz23")
    );
    assert_eq!(
        "https://i.imgur.com/image.jpg",
        redditrip::imgur_direct_url("/image.jpg")
    );
    let image = redditrip::Image {
        hash: "bxv008g".to_string(),
        ext: ".gif".to_string(),
    };
    assert_eq!(
        "https://i.imgur.com/bxv008g.gif",
        redditrip::imgur_image_url(&image)
    );
    assert_eq!("3.gif", redditrip::imgur_image_name(3, &image));
}

#[test]
fn imgur_album_line_scan() {
    assert_eq!(
        Some(" {\"x\":1}".to_string()),
        album_json_slice("  album: {\"x\":1},")
    );
    assert_eq!(None, album_json_slice("  images: {\"x\":1},"));
    assert_eq!(None, album_json_slice("  album without colon"));
}

#[test]
fn vreddit_planning() {
    let media = Some(SecureMedia {
        reddit_video: Some(RedditVideo {
            fallback_url: "https://v.redd.it/vid123/DASH_720.mp4".to_string(),
            height: 720,
        }),
    });
    match plan_vreddit("/vid123", &VRedditMode::NoAudio, &media) {
        Ok(VRedditPlan::Direct { url }) => {
            assert_eq!("https://v.redd.it/vid123/DASH_720.mp4", url)
        }
        _ => panic!("no-audio downloads the fallback URL"),
    }
    match plan_vreddit("/vid123", &VRedditMode::Ffmpeg, &media) {
        Ok(VRedditPlan::Merge {
            video_url,
            audio_url,
            video_name,
            audio_name,
        }) => {
            assert_eq!("https://v.redd.it/vid123/DASH_720", video_url);
            assert_eq!("https://v.redd.it/vid123/audio", audio_url);
            assert_eq!("v_redd_it_vid123_video", video_name);
            assert_eq!("v_redd_it_vid123_audio", audio_name);
        }
        _ => panic!("the merge mode downloads both streams"),
    }
    let site = VRedditMode::Website("https://dl.example/{}/get".to_string());
    match plan_vreddit("/vid123", &site, &media) {
        Ok(VRedditPlan::Direct { url }) => assert_eq!("https://dl.example/vid123/get", url),
        _ => panic!("the website mode substitutes the id"),
    }
    match plan_vreddit("/vid123", &VRedditMode::NoAudio, &None) {
        Err(FetchError::MalformedResponse(m)) => assert_eq!("No downloadable media found", m),
        _ => panic!("an item without media cannot be downloaded"),
    }
}

#[test]
fn vreddit_mode_parsing() {
    assert!(matches!(
        parse_vreddit_mode("no-audio"),
        VRedditMode::NoAudio
    ));
    assert!(matches!(parse_vreddit_mode("ffmpeg"), VRedditMode::Ffmpeg));
    match parse_vreddit_mode("https://dl.example/{}") {
        VRedditMode::Website(u) => assert_eq!("https://dl.example/{}", u),
        _ => panic!("anything else is a website pattern"),
    }
}

#[test]
fn replace_first_replaces_only_the_first() {
    assert_eq!("a-X-b-{}", replace_first("a-{}-b-{}", "{}", "X"));
    assert_eq!("unchanged", replace_first("unchanged", "{}", "X"));
    assert_eq!("", replace_first("", "{}", "X"));
}

#[test]
fn subreddit_paths() {
    let sub = Subreddit::Subreddit("pics".to_string());
    assert_eq!("pics", sub.to_path());
    assert_eq!("/r/pics", sub.to_display());
    assert_eq!("&subreddit=pics", sub.query_param());
    let profile = Subreddit::Profile("someone".to_string());
    assert_eq!("u_someone", profile.to_path());
    assert_eq!("/u/someone", profile.to_display());
    assert_eq!("&author=someone", profile.query_param());
}

#[test]
fn static_help_texts() {
    assert!(supported_domains().contains("i.redd.it"));
    assert!(supported_domains().contains("i.postimg.cc"));
    assert!(redditrip::formatting_help().contains("created_utc: integer"));
    assert!(str_eq("same", "same"));
    assert!(!str_eq("same", "other"));
}
