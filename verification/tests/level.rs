use std::cell::Cell;

use circumvention_chronicles::{
    launch_web, launch_web_at_path, local_url, Asset, Body, CacheState, Level, Method,
    OfflineState,
};

fn all_levels() -> Vec<Level> {
    vec![
        Level::TitleScreen,
        Level::Tutorial(false),
        Level::Tutorial(true),
        Level::Offline(OfflineState::Waiting),
        Level::Offline(OfflineState::Loaded),
        Level::Offline(OfflineState::Busted),
        Level::Offline(OfflineState::Completed),
        Level::Cache(CacheState::Waiting("/abcde/fghij.png".to_string())),
        Level::Cache(CacheState::Completed),
        Level::Credits,
    ]
}

fn stage(l: &Level) -> u8 {
    match l {
        Level::TitleScreen => 0,
        Level::Tutorial(_) => 1,
        Level::Offline(_) => 2,
        Level::Cache(_) => 3,
        Level::Credits => 4,
    }
}

#[test]
fn titles() {
    assert_eq!(Level::TitleScreen.title(), "Circumvention Chronicles");
    assert_eq!(Level::Tutorial(true).title(), "Circumvention Chronicles TUTORIAL");
    assert_eq!(Level::Offline(OfflineState::Busted).title(), "Circumvention Chronicles LEVEL 1");
    assert_eq!(Level::Cache(CacheState::Completed).title(), "Circumvention Chronicles LEVEL 2");
    assert_eq!(Level::Credits.title(), "Circumvention Chronicles CREDITS");
}

#[test]
fn descriptions() {
    assert_eq!(Level::Tutorial(true).description(), "Well done. Now the real fun begins.");
    assert_eq!(
        Level::Credits.description(),
        "You have finished the game. Thank you for playing!\nCircumvention Chronicles is a game made by Melody (@boring_cactus)"
    );
    assert_eq!(
        Level::Offline(OfflineState::Waiting).description(),
        Level::Offline(OfflineState::Loaded).description()
    );
    assert!(Level::TitleScreen
        .description()
        .starts_with("Circumvention Chronicles is a Web-based puzzle game"));
    assert!(Level::Cache(CacheState::Waiting("/x.png".to_string()))
        .description()
        .ends_with("What if you just asked the browser which things it still had?"));
}

#[test]
fn button_labels() {
    assert_eq!(Level::TitleScreen.button_label(), "Continue");
    assert_eq!(Level::Tutorial(false).button_label(), "Open Browser");
    assert_eq!(Level::Tutorial(true).button_label(), "Next Puzzle");
    assert_eq!(Level::Offline(OfflineState::Waiting).button_label(), "Go Online");
    assert_eq!(Level::Offline(OfflineState::Loaded).button_label(), "Go Online");
    assert_eq!(Level::Offline(OfflineState::Busted).button_label(), "Retry Puzzle");
    assert_eq!(Level::Offline(OfflineState::Completed).button_label(), "Next Puzzle");
    assert_eq!(
        Level::Cache(CacheState::Waiting("/a.gif".to_string())).button_label(),
        "Open Browser\nStorage"
    );
    assert_eq!(Level::Cache(CacheState::Completed).button_label(), "Next Puzzle");
    assert_eq!(Level::Credits.button_label(), "Open\nitch.io page");
}

#[test]
fn hints() {
    let cont = "Click the \"Continue\" button above";
    assert_eq!(Level::TitleScreen.hint(), cont);
    assert_eq!(
        Level::Tutorial(false).hint(),
        "Open http://localhost:9622 with the button above and click the \"Continue\" button on that page"
    );
    assert_eq!(Level::Tutorial(true).hint(), cont);
    assert_eq!(Level::Offline(OfflineState::Completed).hint(), cont);
    assert_eq!(Level::Cache(CacheState::Completed).hint(), cont);
    assert_eq!(
        Level::Cache(CacheState::Waiting("/q.png".to_string())).hint(),
        "What type of file are you looking for?"
    );
    assert_eq!(Level::Credits.hint(), "*notices your hint* OwO what's this?");
}

#[test]
fn default_level_is_the_title_screen() {
    assert_eq!(Level::default(), Level::TitleScreen);
}

#[test]
fn default_cache_puzzle_hides_a_picture() {
    match CacheState::default() {
        CacheState::Waiting(p) => {
            assert!(p.starts_with('/'));
            assert!(
                [".jpg", ".jpeg", ".png", ".gif"].iter().any(|e| p.ends_with(e)),
                "{}",
                p
            );
        }
        CacheState::Completed => panic!("a fresh cache puzzle waits"),
    }
}

#[test]
fn launch_addresses() {
    assert_eq!(launch_web(), "http://localhost:9622/");
    assert_eq!(launch_web_at_path("/cache"), "http://localhost:9622/cache");
}

#[test]
fn button_transitions() {
    assert_eq!(Level::TitleScreen.handle_button_press(), (Some(Level::Tutorial(false)), None));
    assert_eq!(
        Level::Tutorial(false).handle_button_press(),
        (None, Some("http://localhost:9622/".to_string()))
    );
    assert_eq!(
        Level::Tutorial(true).handle_button_press(),
        (Some(Level::Offline(OfflineState::Waiting)), None)
    );
    assert_eq!(
        Level::Offline(OfflineState::Loaded).handle_button_press(),
        (None, Some(local_url("/")))
    );
    assert_eq!(
        Level::Offline(OfflineState::Busted).handle_button_press(),
        (Some(Level::Offline(OfflineState::Waiting)), None)
    );
    assert_eq!(
        Level::Cache(CacheState::Waiting("/x.png".to_string())).handle_button_press(),
        (None, Some(local_url("/")))
    );
    assert_eq!(
        Level::Cache(CacheState::Completed).handle_button_press(),
        (Some(Level::Credits), None)
    );
    assert_eq!(
        Level::Credits.handle_button_press(),
        (None, Some("https://boringcactus.itch.io/circumvention-chronicles".to_string()))
    );
    match Level::Offline(OfflineState::Completed).handle_button_press() {
        (Some(Level::Cache(CacheState::Waiting(p))), None) => assert!(p.starts_with('/')),
        other => panic!("unexpected {:?}", other),
    }
}

#[test]
fn button_never_goes_back_and_moves_or_opens() {
    for l in all_levels() {
        let (next, url) = l.handle_button_press();
        assert!(next.is_some() != url.is_some());
        if let Some(n) = next {
            assert!(stage(&n) >= stage(&l));
        }
    }
}

#[test]
fn style_sheet_everywhere() {
    for l in all_levels() {
        for online in [false, true] {
            assert_eq!(
                l.respond(&Method::Get, "/style.css", online),
                (None, Some(Body::File(Asset::Style)))
            );
        }
    }
}

#[test]
fn tutorial_pages() {
    let t = Level::Tutorial(false);
    assert_eq!(t.respond(&Method::Get, "/", true), (None, Some(Body::File(Asset::DemoIndex))));
    assert_eq!(
        t.respond(&Method::Post, "/complete", true),
        (Some(Level::Tutorial(true)), Some(Body::File(Asset::DemoCongrats)))
    );
    assert_eq!(t.respond(&Method::Get, "/complete", true), (None, None));
    assert_eq!(t.respond(&Method::Post, "/", true), (None, None));
    assert_eq!(Level::Tutorial(true).respond(&Method::Get, "/", true), (None, None));
    assert_eq!(Level::TitleScreen.respond(&Method::Get, "/", true), (None, None));
    assert_eq!(Level::Credits.respond(&Method::Get, "/", false), (None, None));
}

#[test]
fn offline_pages() {
    for s in [OfflineState::Waiting, OfflineState::Loaded, OfflineState::Busted] {
        let l = Level::Offline(s);
        assert_eq!(l.respond(&Method::Get, "/", true), (None, Some(Body::File(Asset::OfflineIndex))));
        assert_eq!(l.respond(&Method::Get, "/", false), (None, Some(Body::File(Asset::OfflineOffline))));
        assert_eq!(
            l.respond(&Method::Get, "/lewd.html", true),
            (Some(Level::Offline(OfflineState::Loaded)), Some(Body::File(Asset::OfflineLewd)))
        );
        assert_eq!(
            l.respond(&Method::Get, "/lewd.html", false),
            (None, Some(Body::File(Asset::OfflineOffline)))
        );
        assert_eq!(
            l.respond(&Method::Get, "/saw-lewd", true),
            (Some(Level::Offline(OfflineState::Busted)), Some(Body::File(Asset::OfflineBusted)))
        );
        assert_eq!(
            l.respond(&Method::Get, "/saw-lewd", false),
            (Some(Level::Offline(OfflineState::Completed)), Some(Body::File(Asset::OfflineCongrats)))
        );
        assert_eq!(l.respond(&Method::Post, "/", true), (None, None));
        assert_eq!(l.respond(&Method::Get, "/other", true), (None, None));
    }
}

#[test]
fn solved_offline_puzzle_always_congratulates() {
    let l = Level::Offline(OfflineState::Completed);
    for (m, p) in [(Method::Get, "/"), (Method::Post, "/x"), (Method::Other, "/saw-lewd")] {
        assert_eq!(l.respond(&m, p, true), (None, Some(Body::File(Asset::OfflineCongrats))));
    }
}

#[test]
fn cache_pages() {
    let target = "/Ab3de/xyz12.png";
    let l = Level::Cache(CacheState::Waiting(target.to_string()));
    assert_eq!(l.respond(&Method::Get, "/", true), (None, Some(Body::File(Asset::CacheIndex))));
    match l.respond(&Method::Get, "/cache", true) {
        (None, Some(Body::Bytes(b))) => {
            let url = local_url(target);
            assert!(b.windows(url.len()).any(|w| w == url.as_bytes()));
        }
        other => panic!("unexpected {:?}", other),
    }
    assert_eq!(
        l.respond(&Method::Get, target, false),
        (Some(Level::Cache(CacheState::Completed)), Some(Body::File(Asset::CacheCongrats)))
    );
    assert_eq!(l.respond(&Method::Get, "/Ab3de/xyz12.jpg", false), (None, None));
    assert_eq!(l.respond(&Method::Post, target, false), (None, None));
    assert_eq!(Level::Cache(CacheState::Completed).respond(&Method::Get, "/", false), (None, None));
}

#[test]
fn fresh_cache_puzzle_is_solvable() {
    for _ in 0..50 {
        if let CacheState::Waiting(p) = CacheState::default() {
            let l = Level::Cache(CacheState::Waiting(p.clone()));
            assert_eq!(
                l.respond(&Method::Get, &p, true),
                (Some(Level::Cache(CacheState::Completed)), Some(Body::File(Asset::CacheCongrats)))
            );
        }
    }
}

#[test]
fn connectivity_asked_only_when_needed() {
    let asked = Cell::new(0);
    let probe = || {
        asked.set(asked.get() + 1);
        false
    };
    let l = Level::Offline(OfflineState::Waiting);
    assert!(l.depends_on_connectivity(&Method::Get, "/saw-lewd"));
    assert_eq!(
        l.handle_request(&Method::Get, "/saw-lewd", probe),
        (Some(Level::Offline(OfflineState::Completed)), Some(Body::File(Asset::OfflineCongrats)))
    );
    assert_eq!(asked.get(), 1);

    let probe = || {
        asked.set(asked.get() + 1);
        true
    };
    assert!(!l.depends_on_connectivity(&Method::Get, "/style.css"));
    assert_eq!(
        l.handle_request(&Method::Get, "/style.css", probe),
        (None, Some(Body::File(Asset::Style)))
    );
    assert_eq!(asked.get(), 1);
    assert!(!Level::Offline(OfflineState::Completed).depends_on_connectivity(&Method::Get, "/"));
    assert!(!Level::Tutorial(false).depends_on_connectivity(&Method::Get, "/"));
}

#[test]
fn requests_keep_the_part_of_the_game() {
    let paths = ["/", "/style.css", "/complete", "/lewd.html", "/saw-lewd", "/cache", "/abcde/fghij.png", "/nope"];
    for l in all_levels() {
        for m in [Method::Get, Method::Post, Method::Other] {
            for p in paths {
                for online in [false, true] {
                    if let (Some(n), _) = l.respond(&m, p, online) {
                        assert_eq!(stage(&n), stage(&l));
                    }
                }
            }
        }
    }
}

#[test]
fn asset_paths() {
    assert_eq!(Asset::Style.path(), "assets/style.css");
    assert_eq!(Asset::DemoIndex.path(), "assets/demo/index.html");
    assert_eq!(Asset::DemoCongrats.path(), "assets/demo/congrats.html");
    assert_eq!(Asset::OfflineIndex.path(), "assets/offline/index.html");
    assert_eq!(Asset::OfflineOffline.path(), "assets/offline/offline.html");
    assert_eq!(Asset::OfflineLewd.path(), "assets/offline/lewd.html");
    assert_eq!(Asset::OfflineBusted.path(), "assets/offline/busted.html");
    assert_eq!(Asset::OfflineCongrats.path(), "assets/offline/congrats.html");
    assert_eq!(Asset::CacheIndex.path(), "assets/cache/index.html");
    assert_eq!(Asset::CacheCongrats.path(), "assets/cache/congrats.html");
}

#[test]
fn solved_offline_puzzle_never_probes() {
    let l = Level::Offline(OfflineState::Completed);
    for (m, p) in [(Method::Get, "/"), (Method::Get, "/saw-lewd"), (Method::Post, "/lewd.html")] {
        let r = l.handle_request(&m, p, || -> bool { panic!("no connectivity probe expected") });
        assert_eq!(r, (None, Some(Body::File(Asset::OfflineCongrats))));
    }
}
