use rngpaper::changer::{Action, ChangeError, Changer, Event, MAX_RETRIES, RETRY_BACKOFF_MILLIS};
use rngpaper::config::{Categories, Config, Purity};

fn demo_config() -> Config {
    let mut c = Config::default();
    c.collections = Some(vec!["@demo".to_string()]);
    c.categories = Some(Categories { general: Some(false), anime: Some(true), people: Some(false) });
    c.purity = Some(Purity { sfw: Some(true), sketchy: Some(false), nsfw: Some(false) });
    c.api_key = None;
    c
}

fn started() -> (Changer, String) {
    let (changer, action) = Changer::start(&demo_config());
    match action {
        Action::FetchPage { url } => (changer, url),
        other => panic!("expected a first-page fetch, got {other:?}"),
    }
}

#[test]
fn start_fetches_base_query() {
    let (_, url) = started();
    assert_eq!(url, "https://wallhaven.cc/api/v1/search?q=@demo&categories=010&purity=100");
}

#[test]
fn single_page_issues_no_second_fetch_and_reaches_both_items() {
    let mut seen_a = false;
    let mut seen_b = false;
    for _ in 0..500 {
        let (mut changer, _) = started();
        let action = changer.step(Event::Page {
            paths: vec!["https://i.test/x/a.jpg".to_string(), "https://i.test/x/b.png".to_string()],
            last_page: 1,
        });
        match action {
            Action::CheckCache { file_name } => match file_name.as_str() {
                "a.jpg" => seen_a = true,
                "b.png" => seen_b = true,
                other => panic!("file name not derived from an item: {other}"),
            },
            other => panic!("single-page response must go to the cache, got {other:?}"),
        }
        if seen_a && seen_b {
            break;
        }
    }
    assert!(seen_a && seen_b, "not every item of the single page was reachable");
}

#[test]
fn multi_page_choice_stays_below_last_page() {
    for _ in 0..300 {
        let (mut changer, base) = started();
        let action = changer.step(Event::Page {
            paths: vec!["https://i.test/x/p1.jpg".to_string()],
            last_page: 10,
        });
        match action {
            Action::FetchPage { url } => {
                let suffix = url
                    .strip_prefix(&format!("{base}&page="))
                    .unwrap_or_else(|| panic!("page fetch not under the same base: {url}"));
                let page: i64 = suffix.parse().expect("page number");
                assert!(1 < page && page < 10, "page {page} out of range");
            }
            Action::CheckCache { file_name } => {
                // Page 1 was drawn: the already-fetched list is used.
                assert_eq!(file_name, "p1.jpg");
            }
            other => panic!("unexpected action {other:?}"),
        }
    }
}

#[test]
fn chosen_page_response_picks_item() {
    // Drive until a second page is actually fetched, then answer it.
    for _ in 0..300 {
        let (mut changer, _) = started();
        let action = changer.step(Event::Page {
            paths: vec!["https://i.test/x/p1.jpg".to_string()],
            last_page: 5,
        });
        if let Action::FetchPage { .. } = action {
            let action = changer.step(Event::Page {
                paths: vec!["https://i.test/y/deep.jpg".to_string()],
                last_page: 5,
            });
            match action {
                Action::CheckCache { file_name } => assert_eq!(file_name, "deep.jpg"),
                other => panic!("unexpected action {other:?}"),
            }
            return;
        }
    }
    panic!("a page other than 1 was never drawn");
}

#[test]
fn zero_pages_sleeps_then_refetches() {
    let (mut changer, base) = started();
    let action = changer.step(Event::Page { paths: vec![], last_page: 0 });
    match action {
        Action::Sleep { millis } => assert_eq!(millis, RETRY_BACKOFF_MILLIS),
        other => panic!("zero pages must back off first, got {other:?}"),
    }
    let action = changer.step(Event::Slept);
    match action {
        Action::FetchPage { url } => assert_eq!(url, base),
        other => panic!("backoff must re-fetch the same base, got {other:?}"),
    }
}

#[test]
fn zero_pages_exhausts_after_bounded_retries() {
    let (mut changer, _) = started();
    let mut retries: u64 = 0;
    loop {
        let action = changer.step(Event::Page { paths: vec![], last_page: 0 });
        match action {
            Action::Sleep { .. } => {
                retries += 1;
                assert!(retries <= MAX_RETRIES, "retries not bounded");
                let action = changer.step(Event::Slept);
                assert!(matches!(action, Action::FetchPage { .. }));
            }
            Action::Report { error } => {
                assert_eq!(error, ChangeError::Exhausted);
                assert_eq!(retries, MAX_RETRIES, "failed before the retry budget was spent");
                return;
            }
            other => panic!("unexpected action {other:?}"),
        }
    }
}

#[test]
fn empty_item_list_is_exhausted() {
    let (mut changer, _) = started();
    let action = changer.step(Event::Page { paths: vec![], last_page: 1 });
    match action {
        Action::Report { error } => assert_eq!(error, ChangeError::Exhausted),
        other => panic!("an empty item list must be an error, got {other:?}"),
    }
}

#[test]
fn network_failure_is_reported() {
    let (mut changer, _) = started();
    let action = changer.step(Event::NetworkFailed);
    assert!(matches!(action, Action::Report { error: ChangeError::Network }));
}

#[test]
fn decode_failure_is_reported() {
    let (mut changer, _) = started();
    let action = changer.step(Event::DecodeFailed);
    assert!(matches!(action, Action::Report { error: ChangeError::Decode }));
}

#[test]
fn cache_hit_skips_download() {
    let (mut changer, _) = started();
    let action = changer.step(Event::Page {
        paths: vec!["https://i.test/x/hit.jpg".to_string()],
        last_page: 1,
    });
    assert!(matches!(action, Action::CheckCache { .. }));
    let action = changer.step(Event::CacheChecked { exists: true });
    match action {
        Action::SetWallpaper { file_name } => assert_eq!(file_name, "hit.jpg"),
        other => panic!("a cache hit must set the wallpaper directly, got {other:?}"),
    }
}

#[test]
fn cache_miss_downloads_then_sets() {
    let (mut changer, _) = started();
    changer.step(Event::Page {
        paths: vec!["https://i.test/x/miss.jpg".to_string()],
        last_page: 1,
    });
    let action = changer.step(Event::CacheChecked { exists: false });
    match action {
        Action::Download { url, file_name } => {
            assert_eq!(url, "https://i.test/x/miss.jpg");
            assert_eq!(file_name, "miss.jpg");
        }
        other => panic!("a cache miss must download, got {other:?}"),
    }
    let action = changer.step(Event::Downloaded { ok: true });
    match action {
        Action::SetWallpaper { file_name } => assert_eq!(file_name, "miss.jpg"),
        other => panic!("a finished download must set the wallpaper, got {other:?}"),
    }
    let action = changer.step(Event::WallpaperSet { ok: true });
    assert!(matches!(action, Action::Finish));
}

#[test]
fn failed_download_is_network_error() {
    let (mut changer, _) = started();
    changer.step(Event::Page {
        paths: vec!["https://i.test/x/gone.jpg".to_string()],
        last_page: 1,
    });
    changer.step(Event::CacheChecked { exists: false });
    let action = changer.step(Event::Downloaded { ok: false });
    assert!(matches!(action, Action::Report { error: ChangeError::Network }));
}

#[test]
fn failed_wallpaper_set_is_filesystem_error() {
    let (mut changer, _) = started();
    changer.step(Event::Page {
        paths: vec!["https://i.test/x/w.jpg".to_string()],
        last_page: 1,
    });
    changer.step(Event::CacheChecked { exists: true });
    let action = changer.step(Event::WallpaperSet { ok: false });
    assert!(matches!(action, Action::Report { error: ChangeError::Filesystem }));
}
