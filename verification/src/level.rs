use vstd::prelude::*;

use crate::cache::{build_cache, is_cache_dump};
use crate::random::{path, is_random_path, lemma_picture_path_ending};
use crate::text::{decimal, local_url, local_url_text, same_text, decimal_text, lemma_port_text, lemma_local_url_shape, PORT};

verus! {

/// The offline puzzle: load the page while online, look at it offline.
#[derive(Debug, PartialEq, Eq, Structural, Clone, Copy)]
pub enum OfflineState {
    Waiting,
    Loaded,
    Busted,
    Completed,
}

/// The cache puzzle: find the hidden picture, whose path the game made up.
#[derive(Debug, PartialEq, Eq)]
pub enum CacheState {
    Waiting(String),
    Completed,
}

/// The levels of the game, in the order in which they are played.
#[derive(Debug, PartialEq, Eq)]
pub enum Level {
    TitleScreen,
    Tutorial(bool),
    Offline(OfflineState),
    Cache(CacheState),
    Credits,
}

/// The methods of HTTP requests that the game tells apart.
#[derive(Debug, PartialEq, Eq, Structural, Clone, Copy)]
pub enum Method {
    Get,
    Post,
    Other,
}

/// The files under `assets/` that the game's web server hands out.
#[derive(Debug, PartialEq, Eq, Structural, Clone, Copy)]
pub enum Asset {
    Style,
    DemoIndex,
    DemoCongrats,
    OfflineIndex,
    OfflineOffline,
    OfflineLewd,
    OfflineBusted,
    OfflineCongrats,
    CacheIndex,
    CacheCongrats,
}

/// What the web server answers with: a file of the game, or bytes made up
/// on the spot.
#[derive(Debug, PartialEq, Eq)]
pub enum Body {
    File(Asset),
    Bytes(Vec<u8>),
}

/// Where each file of the game lies, relative to the working directory.
pub open spec fn asset_path(a: Asset) -> Seq<char> {
    match a {
        Asset::Style => "assets/style.css"@,
        Asset::DemoIndex => "assets/demo/index.html"@,
        Asset::DemoCongrats => "assets/demo/congrats.html"@,
        Asset::OfflineIndex => "assets/offline/index.html"@,
        Asset::OfflineOffline => "assets/offline/offline.html"@,
        Asset::OfflineLewd => "assets/offline/lewd.html"@,
        Asset::OfflineBusted => "assets/offline/busted.html"@,
        Asset::OfflineCongrats => "assets/offline/congrats.html"@,
        Asset::CacheIndex => "assets/cache/index.html"@,
        Asset::CacheCongrats => "assets/cache/congrats.html"@,
    }
}

impl Asset {
    /// The file's path, such as `assets/style.css`.
    pub fn path(&self) -> (p: &'static str)
        ensures
            p@ == asset_path(*self),
    {
        match self {
            Asset::Style => "assets/style.css",
            Asset::DemoIndex => "assets/demo/index.html",
            Asset::DemoCongrats => "assets/demo/congrats.html",
            Asset::OfflineIndex => "assets/offline/index.html",
            Asset::OfflineOffline => "assets/offline/offline.html",
            Asset::OfflineLewd => "assets/offline/lewd.html",
            Asset::OfflineBusted => "assets/offline/busted.html",
            Asset::OfflineCongrats => "assets/offline/congrats.html",
            Asset::CacheIndex => "assets/cache/index.html",
            Asset::CacheCongrats => "assets/cache/congrats.html",
        }
    }
}

/// How far into the game a level lies: the title screen first, the credits
/// last.
pub open spec fn stage(level: Level) -> int {
    match level {
        Level::TitleScreen => 0,
        Level::Tutorial(_) => 1,
        Level::Offline(_) => 2,
        Level::Cache(_) => 3,
        Level::Credits => 4,
    }
}

/// The path of the picture that a waiting cache puzzle hides.
pub open spec fn cache_target(level: Level) -> Option<Seq<char>> {
    match level {
        Level::Cache(CacheState::Waiting(p)) => Some(p@),
        _ => None,
    }
}

pub open spec fn is_offline(level: Level) -> bool {
    match level {
        Level::Offline(_) => true,
        _ => false,
    }
}

pub open spec fn title_text(level: Level) -> Seq<char> {
    match level {
        Level::TitleScreen => "Circumvention Chronicles"@,
        Level::Tutorial(_) => "Circumvention Chronicles TUTORIAL"@,
        Level::Offline(_) => "Circumvention Chronicles LEVEL 1"@,
        Level::Cache(_) => "Circumvention Chronicles LEVEL 2"@,
        Level::Credits => "Circumvention Chronicles CREDITS"@,
    }
}

pub open spec fn description_text(level: Level) -> Seq<char> {
    match level {
        Level::TitleScreen => "Circumvention Chronicles is a Web-based puzzle game and filter circumvention tutorial. \
                You'll be presented with all sorts of scenarios where your Internet access is constrained in some way. \
                Solve puzzles in your Web browser to find porn anyways using some of the same methods I used in my misspent adolescence."@,
        Level::Tutorial(false) => "We'll start with a very basic puzzle to make sure everything works right. \
                Hit the \"Open Browser\" button below and follow the instructions in the page that opens."@,
        Level::Tutorial(true) => "Well done. Now the real fun begins."@,
        Level::Offline(OfflineState::Busted) => "Oh no! You had porn open in a place where people could see it! \
                You are now having an unfortunate and awkward conversation with either your teachers or your parents."@,
        Level::Offline(OfflineState::Completed) => "Nice job! Eventually you'll install a Firefox extension that minimizes your \
                window full of porn tabs to the system tray so that you can't even accidentally open it in public."@,
        Level::Offline(_) => "You have a laptop. \
                At school, you have WiFi, but no privacy. At home, you have privacy, but no WiFi. \
                (This restriction of privacy and Internet connectivity being mutually exclusive is simulated for this puzzle.) \
                You've heard some interesting things about this concept of \"pornography\" and you're curious."@,
        Level::Cache(CacheState::Waiting(_)) => "So you've been downloading porn when you have Internet and viewing it \
                when you don't, and that's been working out OK, but now once you close a tab you lose that material. \
                Poking through the browser history sometimes works, but sometimes the browser doesn't still have it downloaded. \
                What if you just asked the browser which things it still had?"@,
        Level::Cache(CacheState::Completed) => "Very well done! Years later you'll think this is so ridiculous it would stink \
                to leave it out of this very game, but until then you can just move on with your life."@,
        Level::Credits => "You have finished the game. Thank you for playing!\n\
                Circumvention Chronicles is a game made by Melody (@boring_cactus)"@,
    }
}

pub open spec fn button_text(level: Level) -> Seq<char> {
    match level {
        Level::TitleScreen => "Continue"@,
        Level::Tutorial(false) => "Open Browser"@,
        Level::Tutorial(true) => "Next Puzzle"@,
        Level::Offline(OfflineState::Busted) => "Retry Puzzle"@,
        Level::Offline(OfflineState::Completed) => "Next Puzzle"@,
        Level::Offline(_) => "Go Online"@,
        Level::Cache(CacheState::Waiting(_)) => "Open Browser\nStorage"@,
        Level::Cache(CacheState::Completed) => "Next Puzzle"@,
        Level::Credits => "Open\nitch.io page"@,
    }
}

/// The hint that tells the player to press the button they are shown.
pub open spec fn continue_text() -> Seq<char> {
    "Click the \"Continue\" button above"@
}

pub open spec fn hint_text(level: Level) -> Seq<char> {
    match level {
        Level::TitleScreen => continue_text(),
        Level::Tutorial(false) => "Open http://localhost:"@ + decimal_text(PORT as nat)
            + " with the button above and click the \"Continue\" button on that page"@,
        Level::Tutorial(true) => continue_text(),
        Level::Offline(OfflineState::Waiting) => "How can you load the resources on a page without looking directly at it immediately?"@,
        Level::Offline(OfflineState::Loaded) => "Now that the porn is loaded, how can you gain privacy so you can look at it?"@,
        Level::Offline(OfflineState::Busted) => "This may require interacting with your computer in ways that aren't part of the game."@,
        Level::Offline(OfflineState::Completed) => continue_text(),
        Level::Cache(CacheState::Waiting(_)) => "What type of file are you looking for?"@,
        Level::Cache(CacheState::Completed) => continue_text(),
        Level::Credits => "*notices your hint* OwO what's this?"@,
    }
}

/// The page of the game on itch.io, which the credits open.
pub open spec fn itch_page_text() -> Seq<char> {
    "https://boringcactus.itch.io/circumvention-chronicles"@
}

/// `url` is the address `target`.
pub open spec fn opens(url: Option<String>, target: Seq<char>) -> bool {
    match url {
        Some(u) => u@ == target,
        None => false,
    }
}

/// `next` is a cache puzzle that hides a freshly made-up picture path.
pub open spec fn is_fresh_cache_puzzle(next: Option<Level>) -> bool {
    match next {
        Some(Level::Cache(CacheState::Waiting(p))) => is_random_path(p@, true),
        _ => false,
    }
}

/// `body` is a cache dump that hides `target`.
pub open spec fn is_dump_of(body: Option<Body>, target: Seq<char>) -> bool {
    match body {
        Some(Body::Bytes(b)) => is_cache_dump(b@, target),
        _ => false,
    }
}

/// What a press of the level's button does: `next` is the level that
/// follows, if any, and `url` the address that the browser is to open, if
/// any.
pub open spec fn button_effect(level: Level, next: Option<Level>, url: Option<String>) -> bool {
    match level {
        Level::TitleScreen => next == Some(Level::Tutorial(false)) && url is None,
        Level::Tutorial(false) => next is None && opens(url, local_url_text("/"@)),
        Level::Tutorial(true) => next == Some(Level::Offline(OfflineState::Waiting)) && url is None,
        Level::Offline(OfflineState::Busted) => next == Some(Level::Offline(OfflineState::Waiting))
            && url is None,
        Level::Offline(OfflineState::Completed) => url is None && is_fresh_cache_puzzle(next),
        Level::Offline(_) => next is None && opens(url, local_url_text("/"@)),
        Level::Cache(CacheState::Waiting(_)) => next is None && opens(url, local_url_text("/"@)),
        Level::Cache(CacheState::Completed) => next == Some(Level::Credits) && url is None,
        Level::Credits => next is None && opens(url, itch_page_text()),
    }
}

/// Whether the answer to a request depends on whether the computer is
/// online: the pages of the offline puzzle do, as long as it is not solved.
pub open spec fn needs_connectivity(level: Level, method: Method, path: Seq<char>) -> bool {
    &&& method == Method::Get
    &&& path != "/style.css"@
    &&& is_offline(level)
    &&& level != Level::Offline(OfflineState::Completed)
    &&& (path == "/"@ || path == "/lewd.html"@ || path == "/saw-lewd"@)
}

/// How the web server answers a request for `path` while `level` is played:
/// `next` is the level that follows, if the request moves the game on, and
/// `body` what is sent, if anything (nothing means "not found"). `online`
/// says whether the computer can reach the Internet.
pub open spec fn answers(
    level: Level,
    method: Method,
    path: Seq<char>,
    online: bool,
    next: Option<Level>,
    body: Option<Body>,
) -> bool {
    if method == Method::Get && path == "/style.css"@ {
        next is None && body == Some(Body::File(Asset::Style))
    } else if level == Level::Tutorial(false) && method == Method::Get && path == "/"@ {
        next is None && body == Some(Body::File(Asset::DemoIndex))
    } else if level == Level::Tutorial(false) && method == Method::Post && path == "/complete"@ {
        next == Some(Level::Tutorial(true)) && body == Some(Body::File(Asset::DemoCongrats))
    } else if level == Level::Offline(OfflineState::Completed) {
        next is None && body == Some(Body::File(Asset::OfflineCongrats))
    } else if is_offline(level) && method == Method::Get && path == "/"@ {
        next is None && body == Some(
            Body::File(if online { Asset::OfflineIndex } else { Asset::OfflineOffline }),
        )
    } else if is_offline(level) && method == Method::Get && path == "/lewd.html"@ {
        if online {
            next == Some(Level::Offline(OfflineState::Loaded)) && body == Some(
                Body::File(Asset::OfflineLewd),
            )
        } else {
            next is None && body == Some(Body::File(Asset::OfflineOffline))
        }
    } else if is_offline(level) && method == Method::Get && path == "/saw-lewd"@ {
        if online {
            next == Some(Level::Offline(OfflineState::Busted)) && body == Some(
                Body::File(Asset::OfflineBusted),
            )
        } else {
            next == Some(Level::Offline(OfflineState::Completed)) && body == Some(
                Body::File(Asset::OfflineCongrats),
            )
        }
    } else if cache_target(level) is Some && method == Method::Get && path == "/"@ {
        next is None && body == Some(Body::File(Asset::CacheIndex))
    } else if cache_target(level) is Some && method == Method::Get && path == "/cache"@ {
        next is None && is_dump_of(body, cache_target(level)->0)
    } else if cache_target(level) is Some && method == Method::Get {
        if cache_target(level)->0 == path {
            next == Some(Level::Cache(CacheState::Completed)) && body == Some(
                Body::File(Asset::CacheCongrats),
            )
        } else {
            next is None && body is None
        }
    } else {
        next is None && body is None
    }
}

impl Level {
    /// The heading shown above the level.
    pub fn title(&self) -> (t: String)
        ensures
            t@ == title_text(*self),
    {
        let t = match self {
            Level::TitleScreen => "Circumvention Chronicles",
            Level::Tutorial(_) => "Circumvention Chronicles TUTORIAL",
            Level::Offline(_) => "Circumvention Chronicles LEVEL 1",
            Level::Cache(_) => "Circumvention Chronicles LEVEL 2",
            Level::Credits => "Circumvention Chronicles CREDITS",
        };
        String::from_str(t)
    }

    /// The text that sets the scene of the level.
    pub fn description(&self) -> (d: String)
        ensures
            d@ == description_text(*self),
    {
        let d = match self {
            Level::TitleScreen => "Circumvention Chronicles is a Web-based puzzle game and filter circumvention tutorial. \
                You'll be presented with all sorts of scenarios where your Internet access is constrained in some way. \
                Solve puzzles in your Web browser to find porn anyways using some of the same methods I used in my misspent adolescence.",
            Level::Tutorial(false) => "We'll start with a very basic puzzle to make sure everything works right. \
                Hit the \"Open Browser\" button below and follow the instructions in the page that opens.",
            Level::Tutorial(true) => "Well done. Now the real fun begins.",
            Level::Offline(OfflineState::Busted) => "Oh no! You had porn open in a place where people could see it! \
                You are now having an unfortunate and awkward conversation with either your teachers or your parents.",
            Level::Offline(OfflineState::Completed) => "Nice job! Eventually you'll install a Firefox extension that minimizes your \
                window full of porn tabs to the system tray so that you can't even accidentally open it in public.",
            Level::Offline(OfflineState::Waiting) | Level::Offline(OfflineState::Loaded) => "You have a laptop. \
                At school, you have WiFi, but no privacy. At home, you have privacy, but no WiFi. \
                (This restriction of privacy and Internet connectivity being mutually exclusive is simulated for this puzzle.) \
                You've heard some interesting things about this concept of \"pornography\" and you're curious.",
            Level::Cache(CacheState::Waiting(_)) => "So you've been downloading porn when you have Internet and viewing it \
                when you don't, and that's been working out OK, but now once you close a tab you lose that material. \
                Poking through the browser history sometimes works, but sometimes the browser doesn't still have it downloaded. \
                What if you just asked the browser which things it still had?",
            Level::Cache(CacheState::Completed) => "Very well done! Years later you'll think this is so ridiculous it would stink \
                to leave it out of this very game, but until then you can just move on with your life.",
            Level::Credits => "You have finished the game. Thank you for playing!\n\
                Circumvention Chronicles is a game made by Melody (@boring_cactus)",
        };
        String::from_str(d)
    }

    /// The label of the level's button.
    pub fn button_label(&self) -> (l: &str)
        ensures
            l@ == button_text(*self),
    {
        match self {
            Level::TitleScreen => "Continue",
            Level::Tutorial(false) => "Open Browser",
            Level::Tutorial(true) => "Next Puzzle",
            Level::Offline(OfflineState::Waiting) | Level::Offline(OfflineState::Loaded) => "Go Online",
            Level::Offline(OfflineState::Busted) => "Retry Puzzle",
            Level::Offline(OfflineState::Completed) => "Next Puzzle",
            Level::Cache(CacheState::Waiting(_)) => "Open Browser\nStorage",
            Level::Cache(CacheState::Completed) => "Next Puzzle",
            Level::Credits => "Open\nitch.io page",
        }
    }

    /// What the level's button does: the level that follows, if any, and the
    /// address that the browser is to open, if any. The address of a page
    /// of the game is `launch_web`'s, the credits open the game's page on
    /// itch.io.
    pub fn handle_button_press(&self) -> (r: (Option<Level>, Option<String>))
        ensures
            button_effect(*self, r.0, r.1),
    {
        match self {
            Level::TitleScreen => (Some(Level::Tutorial(false)), None),
            Level::Tutorial(false) => (None, Some(launch_web())),
            Level::Tutorial(true) => (Some(Level::Offline(OfflineState::Waiting)), None),
            Level::Offline(OfflineState::Waiting) | Level::Offline(OfflineState::Loaded) => (
                None,
                Some(launch_web()),
            ),
            Level::Offline(OfflineState::Busted) => (
                Some(Level::Offline(OfflineState::Waiting)),
                None,
            ),
            Level::Offline(OfflineState::Completed) => (
                Some(Level::Cache(CacheState::default())),
                None,
            ),
            Level::Cache(CacheState::Waiting(_)) => (None, Some(launch_web())),
            Level::Cache(CacheState::Completed) => (Some(Level::Credits), None),
            Level::Credits => (
                None,
                Some(String::from_str("https://boringcactus.itch.io/circumvention-chronicles")),
            ),
        }
    }

    /// Whether the answer to this request depends on whether the computer is
    /// online.
    pub fn depends_on_connectivity(&self, method: &Method, path: &str) -> (d: bool)
        ensures
            d == needs_connectivity(*self, *method, path@),
    {
        let get = match method {
            Method::Get => true,
            _ => false,
        };
        if !get || same_text(path, "/style.css") {
            return false;
        }
        match self {
            Level::Offline(OfflineState::Completed) => false,
            Level::Offline(_) => same_text(path, "/") || same_text(path, "/lewd.html")
                || same_text(path, "/saw-lewd"),
            _ => false,
        }
    }

    /// How the web server answers a request for `path` during this level,
    /// given whether the computer is `online`: the level that follows, if
    /// the request moves the game on, and what is sent, if anything
    /// (nothing means "not found").
    pub fn respond(&self, method: &Method, path: &str, online: bool) -> (r: (
        Option<Level>,
        Option<Body>,
    ))
        ensures
            answers(*self, *method, path@, online, r.0, r.1),
    {
        let get = match method {
            Method::Get => true,
            _ => false,
        };
        let post = match method {
            Method::Post => true,
            _ => false,
        };
        if get && same_text(path, "/style.css") {
            return (None, Some(Body::File(Asset::Style)));
        }
        match self {
            Level::Tutorial(false) => {
                if get && same_text(path, "/") {
                    (None, Some(Body::File(Asset::DemoIndex)))
                } else if post && same_text(path, "/complete") {
                    (Some(Level::Tutorial(true)), Some(Body::File(Asset::DemoCongrats)))
                } else {
                    (None, None)
                }
            },
            Level::Offline(OfflineState::Completed) => (
                None,
                Some(Body::File(Asset::OfflineCongrats)),
            ),
            Level::Offline(_) => {
                if get && same_text(path, "/") {
                    if online {
                        (None, Some(Body::File(Asset::OfflineIndex)))
                    } else {
                        (None, Some(Body::File(Asset::OfflineOffline)))
                    }
                } else if get && same_text(path, "/lewd.html") {
                    if online {
                        (
                            Some(Level::Offline(OfflineState::Loaded)),
                            Some(Body::File(Asset::OfflineLewd)),
                        )
                    } else {
                        (None, Some(Body::File(Asset::OfflineOffline)))
                    }
                } else if get && same_text(path, "/saw-lewd") {
                    if online {
                        (
                            Some(Level::Offline(OfflineState::Busted)),
                            Some(Body::File(Asset::OfflineBusted)),
                        )
                    } else {
                        (
                            Some(Level::Offline(OfflineState::Completed)),
                            Some(Body::File(Asset::OfflineCongrats)),
                        )
                    }
                } else {
                    (None, None)
                }
            },
            Level::Cache(CacheState::Waiting(good_path)) => {
                if !get {
                    (None, None)
                } else if same_text(path, "/") {
                    (None, Some(Body::File(Asset::CacheIndex)))
                } else if same_text(path, "/cache") {
                    (None, Some(Body::Bytes(build_cache(good_path.as_str()))))
                } else if same_text(good_path.as_str(), path) {
                    (
                        Some(Level::Cache(CacheState::Completed)),
                        Some(Body::File(Asset::CacheCongrats)),
                    )
                } else {
                    (None, None)
                }
            },
            _ => (None, None),
        }
    }

    /// Answers a request for `path` during this level. Whether the computer
    /// is online is asked of `is_online`, and only where the answer depends
    /// on it (see `depends_on_connectivity`): elsewhere the probe need not
    /// even be callable.
    pub fn handle_request<F: FnOnce() -> bool>(&self, method: &Method, path: &str, is_online: F) -> (r: (
        Option<Level>,
        Option<Body>,
    ))
        requires
            needs_connectivity(*self, *method, path@) ==> call_requires(is_online, ()),
        ensures
            needs_connectivity(*self, *method, path@) ==> exists|online: bool|
                call_ensures(is_online, (), online) && answers(
                    *self,
                    *method,
                    path@,
                    online,
                    r.0,
                    r.1,
                ),
            !needs_connectivity(*self, *method, path@) ==> answers(
                *self,
                *method,
                path@,
                false,
                r.0,
                r.1,
            ) && answers(*self, *method, path@, true, r.0, r.1),
    {
        if self.depends_on_connectivity(method, path) {
            let online = is_online();
            self.respond(method, path, online)
        } else {
            self.respond(method, path, false)
        }
    }

    /// A hint for the level.
    pub fn hint(&self) -> (h: String)
        ensures
            h@ == hint_text(*self),
    {
        let cont = String::from_str("Click the \"Continue\" button above");
        match self {
            Level::TitleScreen => cont,
            Level::Tutorial(false) => {
                let mut h = String::from_str("Open http://localhost:");
                let port = decimal(PORT);
                h.append(port.as_str());
                h.append(" with the button above and click the \"Continue\" button on that page");
                h
            },
            Level::Tutorial(true) => cont,
            Level::Offline(OfflineState::Waiting) => String::from_str(
                "How can you load the resources on a page without looking directly at it immediately?",
            ),
            Level::Offline(OfflineState::Loaded) => String::from_str(
                "Now that the porn is loaded, how can you gain privacy so you can look at it?",
            ),
            Level::Offline(OfflineState::Busted) => String::from_str(
                "This may require interacting with your computer in ways that aren't part of the game.",
            ),
            Level::Offline(OfflineState::Completed) => cont,
            Level::Cache(CacheState::Waiting(_)) => String::from_str(
                "What type of file are you looking for?",
            ),
            Level::Cache(CacheState::Completed) => cont,
            Level::Credits => String::from_str("*notices your hint* OwO what's this?"),
        }
    }
}

impl Default for CacheState {
    /// A cache puzzle that hides a freshly made-up picture path.
    fn default() -> (c: CacheState)
        ensures
            is_fresh_cache_puzzle(Some(Level::Cache(c))),
    {
        let path = path(true);
        CacheState::Waiting(path)
    }
}

impl Default for Level {
    /// A game starts at the title screen.
    fn default() -> (l: Level)
        ensures
            l == Level::TitleScreen,
    {
        Level::TitleScreen
    }
}

/// The address at which the browser opens the game's own web pages.
pub fn launch_web() -> (url: String)
    ensures
        url@ == local_url_text("/"@),
{
    launch_web_at_path("/")
}

/// The address at which the browser opens `path` on the game's own web
/// server.
pub fn launch_web_at_path(path: &str) -> (url: String)
    ensures
        url@ == local_url_text(path@),
{
    local_url(path)
}

/// The button never takes the player back to an earlier part of the game:
/// the level it leads to is in the same part or a later one.
pub proof fn lemma_button_never_goes_back(level: Level, next: Option<Level>, url: Option<String>)
    requires
        button_effect(level, next, url),
    ensures
        next matches Some(n) ==> stage(n) >= stage(level),
{
}

/// Pressing the button either moves the game on or opens a page in the
/// browser, never both and never neither.
pub proof fn lemma_button_moves_or_opens(level: Level, next: Option<Level>, url: Option<String>)
    requires
        button_effect(level, next, url),
    ensures
        next is Some <==> url is None,
{
}

/// Requests to the web server never take the game to another part of it:
/// only the button does that.
pub proof fn lemma_requests_keep_the_part(
    level: Level,
    method: Method,
    path: Seq<char>,
    online: bool,
    next: Option<Level>,
    body: Option<Body>,
)
    requires
        answers(level, method, path, online, next, body),
    ensures
        next matches Some(n) ==> stage(n) == stage(level),
{
}

/// Only the pages of the unsolved offline puzzle depend on whether the
/// computer is online: every other request is answered the same way either
/// way.
pub proof fn lemma_only_offline_pages_ask(
    level: Level,
    method: Method,
    path: Seq<char>,
    next: Option<Level>,
    body: Option<Body>,
)
    requires
        !needs_connectivity(level, method, path),
    ensures
        answers(level, method, path, true, next, body) == answers(
            level,
            method,
            path,
            false,
            next,
            body,
        ),
{
}

/// The offline puzzle: looking at the page completes it exactly when the
/// computer is offline, and the page only loads while it is online.
pub proof fn lemma_offline_puzzle(
    state: OfflineState,
    online: bool,
    next: Option<Level>,
    body: Option<Body>,
)
    requires
        state != OfflineState::Completed,
    ensures
        answers(Level::Offline(state), Method::Get, "/saw-lewd"@, online, next, body) ==> (next
            == Some(Level::Offline(OfflineState::Completed)) <==> !online),
        answers(Level::Offline(state), Method::Get, "/lewd.html"@, online, next, body) ==> (next
            == Some(Level::Offline(OfflineState::Loaded)) <==> online),
{
    reveal_strlit("/style.css");
    reveal_strlit("/saw-lewd");
    reveal_strlit("/lewd.html");
    reveal_strlit("/");
    assert("/saw-lewd"@ != "/style.css"@) by {
        assert("/saw-lewd"@.len() != "/style.css"@.len());
    }
    assert("/lewd.html"@ != "/style.css"@) by {
        assert("/lewd.html"@[1] != "/style.css"@[1]);
    }
    assert("/saw-lewd"@ != "/"@) by {
        assert("/saw-lewd"@.len() != "/"@.len());
    }
    assert("/lewd.html"@ != "/"@) by {
        assert("/lewd.html"@.len() != "/"@.len());
    }
    assert("/saw-lewd"@ != "/lewd.html"@) by {
        assert("/saw-lewd"@.len() != "/lewd.html"@.len());
    }
}

/// The cache puzzle can be solved: a request for the hidden picture's path,
/// which a freshly made-up puzzle holds, completes it.
pub proof fn lemma_cache_puzzle_solvable(
    level: Level,
    online: bool,
    next: Option<Level>,
    body: Option<Body>,
)
    requires
        is_fresh_cache_puzzle(Some(level)),
        answers(level, Method::Get, cache_target(level)->0, online, next, body),
    ensures
        next == Some(Level::Cache(CacheState::Completed)),
        body == Some(Body::File(Asset::CacheCongrats)),
{
    let p = cache_target(level)->0;
    lemma_picture_path_ending(p);
    reveal_strlit("/style.css");
    reveal_strlit("/");
    reveal_strlit("/cache");
    assert(p != "/style.css"@) by {
        assert("/style.css"@.last() == 's');
    }
    assert(p != "/"@) by {
        assert("/"@.last() == '/');
    }
    assert(p != "/cache"@) by {
        assert("/cache"@.last() == 'e');
    }
}

/// Each part of the game has its own heading: the heading names the part
/// that is being played, and no other part shows it.
pub proof fn lemma_titles_name_the_part(level: Level)
    ensures
        title_text(level) == "Circumvention Chronicles"@ <==> level == Level::TitleScreen,
        title_text(level) == "Circumvention Chronicles TUTORIAL"@ <==> level is Tutorial,
        title_text(level) == "Circumvention Chronicles LEVEL 1"@ <==> level is Offline,
        title_text(level) == "Circumvention Chronicles LEVEL 2"@ <==> level is Cache,
        title_text(level) == "Circumvention Chronicles CREDITS"@ <==> level == Level::Credits,
{
    reveal_strlit("Circumvention Chronicles");
    reveal_strlit("Circumvention Chronicles TUTORIAL");
    reveal_strlit("Circumvention Chronicles LEVEL 1");
    reveal_strlit("Circumvention Chronicles LEVEL 2");
    reveal_strlit("Circumvention Chronicles CREDITS");
    assert("Circumvention Chronicles"@.len() == 24);
    assert("Circumvention Chronicles TUTORIAL"@.len() == 33);
    assert("Circumvention Chronicles LEVEL 1"@.len() == 32);
    assert("Circumvention Chronicles LEVEL 2"@.len() == 32);
    assert("Circumvention Chronicles CREDITS"@.len() == 32);
    assert("Circumvention Chronicles LEVEL 1"@[31] != "Circumvention Chronicles LEVEL 2"@[31]);
    assert("Circumvention Chronicles LEVEL 1"@[25] != "Circumvention Chronicles CREDITS"@[25]);
    assert("Circumvention Chronicles LEVEL 2"@[25] != "Circumvention Chronicles CREDITS"@[25]);
}

/// Each description is shown in exactly one situation: being caught has its
/// own text, solving the offline puzzle its own, and so on for every state.
pub proof fn lemma_descriptions_tell_the_state(level: Level)
    ensures
        description_text(level) == "Circumvention Chronicles is a Web-based puzzle game and filter circumvention tutorial. \
                You'll be presented with all sorts of scenarios where your Internet access is constrained in some way. \
                Solve puzzles in your Web browser to find porn anyways using some of the same methods I used in my misspent adolescence."@ <==> level == Level::TitleScreen,
        description_text(level) == "We'll start with a very basic puzzle to make sure everything works right. \
                Hit the \"Open Browser\" button below and follow the instructions in the page that opens."@ <==> level == Level::Tutorial(false),
        description_text(level) == "Well done. Now the real fun begins."@ <==> level == Level::Tutorial(true),
        description_text(level) == "Oh no! You had porn open in a place where people could see it! \
                You are now having an unfortunate and awkward conversation with either your teachers or your parents."@ <==> level == Level::Offline(OfflineState::Busted),
        description_text(level) == "Nice job! Eventually you'll install a Firefox extension that minimizes your \
                window full of porn tabs to the system tray so that you can't even accidentally open it in public."@ <==> level == Level::Offline(OfflineState::Completed),
        description_text(level) == "You have a laptop. \
                At school, you have WiFi, but no privacy. At home, you have privacy, but no WiFi. \
                (This restriction of privacy and Internet connectivity being mutually exclusive is simulated for this puzzle.) \
                You've heard some interesting things about this concept of \"pornography\" and you're curious."@ <==> (level == Level::Offline(OfflineState::Waiting) || level == Level::Offline(OfflineState::Loaded)),
        description_text(level) == "So you've been downloading porn when you have Internet and viewing it \
                when you don't, and that's been working out OK, but now once you close a tab you lose that material. \
                Poking through the browser history sometimes works, but sometimes the browser doesn't still have it downloaded. \
                What if you just asked the browser which things it still had?"@ <==> cache_target(level) is Some,
        description_text(level) == "Very well done! Years later you'll think this is so ridiculous it would stink \
                to leave it out of this very game, but until then you can just move on with your life."@ <==> level == Level::Cache(CacheState::Completed),
        description_text(level) == "You have finished the game. Thank you for playing!\n\
                Circumvention Chronicles is a game made by Melody (@boring_cactus)"@ <==> level == Level::Credits,
{
    reveal_strlit("Circumvention Chronicles is a Web-based puzzle game and filter circumvention tutorial. \
                You'll be presented with all sorts of scenarios where your Internet access is constrained in some way. \
                Solve puzzles in your Web browser to find porn anyways using some of the same methods I used in my misspent adolescence.");
    reveal_strlit("We'll start with a very basic puzzle to make sure everything works right. \
                Hit the \"Open Browser\" button below and follow the instructions in the page that opens.");
    reveal_strlit("Well done. Now the real fun begins.");
    reveal_strlit("Oh no! You had porn open in a place where people could see it! \
                You are now having an unfortunate and awkward conversation with either your teachers or your parents.");
    reveal_strlit("Nice job! Eventually you'll install a Firefox extension that minimizes your \
                window full of porn tabs to the system tray so that you can't even accidentally open it in public.");
    reveal_strlit("You have a laptop. \
                At school, you have WiFi, but no privacy. At home, you have privacy, but no WiFi. \
                (This restriction of privacy and Internet connectivity being mutually exclusive is simulated for this puzzle.) \
                You've heard some interesting things about this concept of \"pornography\" and you're curious.");
    reveal_strlit("So you've been downloading porn when you have Internet and viewing it \
                when you don't, and that's been working out OK, but now once you close a tab you lose that material. \
                Poking through the browser history sometimes works, but sometimes the browser doesn't still have it downloaded. \
                What if you just asked the browser which things it still had?");
    reveal_strlit("Very well done! Years later you'll think this is so ridiculous it would stink \
                to leave it out of this very game, but until then you can just move on with your life.");
    reveal_strlit("You have finished the game. Thank you for playing!\n\
                Circumvention Chronicles is a game made by Melody (@boring_cactus)");
    assert("Circumvention Chronicles is a Web-based puzzle game and filter circumvention tutorial. \
                You'll be presented with all sorts of scenarios where your Internet access is constrained in some way. \
                Solve puzzles in your Web browser to find porn anyways using some of the same methods I used in my misspent adolescence."@.len() == 310);
    assert("We'll start with a very basic puzzle to make sure everything works right. \
                Hit the \"Open Browser\" button below and follow the instructions in the page that opens."@.len() == 161);
    assert("Well done. Now the real fun begins."@.len() == 35);
    assert("Oh no! You had porn open in a place where people could see it! \
                You are now having an unfortunate and awkward conversation with either your teachers or your parents."@.len() == 164);
    assert("Nice job! Eventually you'll install a Firefox extension that minimizes your \
                window full of porn tabs to the system tray so that you can't even accidentally open it in public."@.len() == 174);
    assert("You have a laptop. \
                At school, you have WiFi, but no privacy. At home, you have privacy, but no WiFi. \
                (This restriction of privacy and Internet connectivity being mutually exclusive is simulated for this puzzle.) \
                You've heard some interesting things about this concept of \"pornography\" and you're curious."@.len() == 304);
    assert("So you've been downloading porn when you have Internet and viewing it \
                when you don't, and that's been working out OK, but now once you close a tab you lose that material. \
                Poking through the browser history sometimes works, but sometimes the browser doesn't still have it downloaded. \
                What if you just asked the browser which things it still had?"@.len() == 344);
    assert("Very well done! Years later you'll think this is so ridiculous it would stink \
                to leave it out of this very game, but until then you can just move on with your life."@.len() == 164);
    assert("You have finished the game. Thank you for playing!\n\
                Circumvention Chronicles is a game made by Melody (@boring_cactus)"@.len() == 117);
    assert("Oh no! You had porn open in a place where people could see it! \
                You are now having an unfortunate and awkward conversation with either your teachers or your parents."@[0] != "Very well done! Years later you'll think this is so ridiculous it would stink \
                to leave it out of this very game, but until then you can just move on with your life."@[0]);
}

/// Each button label is shown in exactly the states that it names: "Next
/// Puzzle" only once a puzzle is solved, "Go Online" only while the offline
/// puzzle waits, and so on.
pub proof fn lemma_button_labels_tell_the_state(level: Level)
    ensures
        button_text(level) == "Continue"@ <==> level == Level::TitleScreen,
        button_text(level) == "Open Browser"@ <==> level == Level::Tutorial(false),
        button_text(level) == "Next Puzzle"@ <==> (level == Level::Tutorial(true) || level == Level::Offline(OfflineState::Completed) || level == Level::Cache(CacheState::Completed)),
        button_text(level) == "Retry Puzzle"@ <==> level == Level::Offline(OfflineState::Busted),
        button_text(level) == "Go Online"@ <==> (level == Level::Offline(OfflineState::Waiting) || level == Level::Offline(OfflineState::Loaded)),
        button_text(level) == "Open Browser\nStorage"@ <==> cache_target(level) is Some,
        button_text(level) == "Open\nitch.io page"@ <==> level == Level::Credits,
{
    reveal_strlit("Continue");
    reveal_strlit("Open Browser");
    reveal_strlit("Next Puzzle");
    reveal_strlit("Retry Puzzle");
    reveal_strlit("Go Online");
    reveal_strlit("Open Browser\nStorage");
    reveal_strlit("Open\nitch.io page");
    assert("Continue"@.len() == 8);
    assert("Open Browser"@.len() == 12);
    assert("Next Puzzle"@.len() == 11);
    assert("Retry Puzzle"@.len() == 12);
    assert("Go Online"@.len() == 9);
    assert("Open Browser\nStorage"@.len() == 20);
    assert("Open\nitch.io page"@.len() == 17);
    assert("Open Browser"@[0] != "Retry Puzzle"@[0]);
}

/// Each hint is given in exactly one situation (the "Continue" hint in every
/// state whose only way on is the button): the offline puzzle first asks how
/// to load the page, then, once it is loaded, how to look at it in private.
pub proof fn lemma_hints_tell_the_state(level: Level)
    ensures
        hint_text(level) == "Click the \"Continue\" button above"@ <==> (level == Level::TitleScreen || level == Level::Tutorial(true) || level == Level::Offline(OfflineState::Completed) || level == Level::Cache(CacheState::Completed)),
        hint_text(level) == "Open http://localhost:9622 with the button above and click the \"Continue\" button on that page"@ <==> level == Level::Tutorial(false),
        hint_text(level) == "How can you load the resources on a page without looking directly at it immediately?"@ <==> level == Level::Offline(OfflineState::Waiting),
        hint_text(level) == "Now that the porn is loaded, how can you gain privacy so you can look at it?"@ <==> level == Level::Offline(OfflineState::Loaded),
        hint_text(level) == "This may require interacting with your computer in ways that aren't part of the game."@ <==> level == Level::Offline(OfflineState::Busted),
        hint_text(level) == "What type of file are you looking for?"@ <==> cache_target(level) is Some,
        hint_text(level) == "*notices your hint* OwO what's this?"@ <==> level == Level::Credits,
{
    lemma_port_text();
    reveal_strlit("Open http://localhost:");
    reveal_strlit(" with the button above and click the \"Continue\" button on that page");
    reveal_strlit("9622");
    reveal_strlit("Open http://localhost:9622 with the button above and click the \"Continue\" button on that page");
    assert("Open http://localhost:"@ + "9622"@ + " with the button above and click the \"Continue\" button on that page"@ =~= "Open http://localhost:9622 with the button above and click the \"Continue\" button on that page"@);
    reveal_strlit("Click the \"Continue\" button above");
    reveal_strlit("Open http://localhost:9622 with the button above and click the \"Continue\" button on that page");
    reveal_strlit("How can you load the resources on a page without looking directly at it immediately?");
    reveal_strlit("Now that the porn is loaded, how can you gain privacy so you can look at it?");
    reveal_strlit("This may require interacting with your computer in ways that aren't part of the game.");
    reveal_strlit("What type of file are you looking for?");
    reveal_strlit("*notices your hint* OwO what's this?");
    assert("Click the \"Continue\" button above"@.len() == 33);
    assert("Open http://localhost:9622 with the button above and click the \"Continue\" button on that page"@.len() == 93);
    assert("How can you load the resources on a page without looking directly at it immediately?"@.len() == 84);
    assert("Now that the porn is loaded, how can you gain privacy so you can look at it?"@.len() == 76);
    assert("This may require interacting with your computer in ways that aren't part of the game."@.len() == 85);
    assert("What type of file are you looking for?"@.len() == 38);
    assert("*notices your hint* OwO what's this?"@.len() == 36);
}

/// Every file of the game lies at its own path: no two files share one.
pub proof fn lemma_asset_paths_tell_the_file(a: Asset)
    ensures
        asset_path(a) == "assets/style.css"@ <==> a == Asset::Style,
        asset_path(a) == "assets/demo/index.html"@ <==> a == Asset::DemoIndex,
        asset_path(a) == "assets/demo/congrats.html"@ <==> a == Asset::DemoCongrats,
        asset_path(a) == "assets/offline/index.html"@ <==> a == Asset::OfflineIndex,
        asset_path(a) == "assets/offline/offline.html"@ <==> a == Asset::OfflineOffline,
        asset_path(a) == "assets/offline/lewd.html"@ <==> a == Asset::OfflineLewd,
        asset_path(a) == "assets/offline/busted.html"@ <==> a == Asset::OfflineBusted,
        asset_path(a) == "assets/offline/congrats.html"@ <==> a == Asset::OfflineCongrats,
        asset_path(a) == "assets/cache/index.html"@ <==> a == Asset::CacheIndex,
        asset_path(a) == "assets/cache/congrats.html"@ <==> a == Asset::CacheCongrats,
{
    reveal_strlit("assets/style.css");
    reveal_strlit("assets/demo/index.html");
    reveal_strlit("assets/demo/congrats.html");
    reveal_strlit("assets/offline/index.html");
    reveal_strlit("assets/offline/offline.html");
    reveal_strlit("assets/offline/lewd.html");
    reveal_strlit("assets/offline/busted.html");
    reveal_strlit("assets/offline/congrats.html");
    reveal_strlit("assets/cache/index.html");
    reveal_strlit("assets/cache/congrats.html");
    assert("assets/style.css"@.len() == 16);
    assert("assets/demo/index.html"@.len() == 22);
    assert("assets/demo/congrats.html"@.len() == 25);
    assert("assets/offline/index.html"@.len() == 25);
    assert("assets/offline/offline.html"@.len() == 27);
    assert("assets/offline/lewd.html"@.len() == 24);
    assert("assets/offline/busted.html"@.len() == 26);
    assert("assets/offline/congrats.html"@.len() == 28);
    assert("assets/cache/index.html"@.len() == 23);
    assert("assets/cache/congrats.html"@.len() == 26);
    assert("assets/demo/congrats.html"@[7] != "assets/offline/index.html"@[7]);
    assert("assets/offline/busted.html"@[7] != "assets/cache/congrats.html"@[7]);
}


/// A level whose puzzle is still to be solved in the browser.
pub open spec fn is_unsolved_puzzle(level: Level) -> bool {
    ||| level == Level::Tutorial(false)
    ||| level == Level::Offline(OfflineState::Waiting)
    ||| level == Level::Offline(OfflineState::Loaded)
    ||| cache_target(level) is Some
}

/// A level whose puzzle the player has just solved.
pub open spec fn is_solved_puzzle(level: Level) -> bool {
    ||| level == Level::Tutorial(true)
    ||| level == Level::Offline(OfflineState::Completed)
    ||| level == Level::Cache(CacheState::Completed)
}

/// The button never solves a puzzle: no press leads to a solved level.
pub proof fn lemma_button_never_solves(level: Level, next: Option<Level>, url: Option<String>)
    requires
        button_effect(level, next, url),
    ensures
        next matches Some(n) ==> !is_solved_puzzle(n),
{
}

/// While a puzzle waits to be solved, its button keeps the level and opens
/// the game's page, `http://localhost:9622/`, in the browser.
pub proof fn lemma_unsolved_buttons_open_the_game(
    level: Level,
    next: Option<Level>,
    url: Option<String>,
)
    requires
        button_effect(level, next, url),
        is_unsolved_puzzle(level),
    ensures
        next is None,
        opens(url, "http://localhost:9622/"@),
{
    lemma_local_url_shape("/"@);
    reveal_strlit("/");
    reveal_strlit("http://localhost:9622");
    reveal_strlit("http://localhost:9622/");
    assert("http://localhost:9622"@ + "/"@ =~= "http://localhost:9622/"@);
}

/// Once a puzzle is solved, its button leads on to the start of the next
/// part of the game (the offline puzzle waiting, a freshly made-up cache
/// puzzle, or the credits), and opens nothing.
pub proof fn lemma_solved_buttons_move_on(level: Level, next: Option<Level>, url: Option<String>)
    requires
        button_effect(level, next, url),
        is_solved_puzzle(level),
    ensures
        url is None,
        next matches Some(n) && stage(n) == stage(level) + 1 && (n == Level::Offline(
            OfflineState::Waiting,
        ) || is_fresh_cache_puzzle(Some(n)) || n == Level::Credits),
{
}

/// The title screen's button starts the tutorial, the retry button of a
/// busted offline puzzle starts that puzzle over, and the credits' button
/// opens the game's page on itch.io.
pub proof fn lemma_other_buttons(level: Level, next: Option<Level>, url: Option<String>)
    requires
        button_effect(level, next, url),
    ensures
        level == Level::TitleScreen ==> next == Some(Level::Tutorial(false)) && url is None,
        level == Level::Offline(OfflineState::Busted) ==> next == Some(
            Level::Offline(OfflineState::Waiting),
        ) && url is None,
        level == Level::Credits ==> next is None && opens(
            url,
            "https://boringcactus.itch.io/circumvention-chronicles"@,
        ),
{
}

/// Requests move the game on only while a puzzle is unsolved (or busted),
/// only by solving, loading or busting it, and each of those only by its
/// own request: the tutorial by posting to
/// `/complete`, the offline puzzle by looking at `/saw-lewd` while offline
/// (or being caught doing so online, or loading `/lewd.html` online), and
/// the cache puzzle by fetching the hidden path.
pub proof fn lemma_how_requests_move_on(
    level: Level,
    method: Method,
    path: Seq<char>,
    online: bool,
    next: Option<Level>,
    body: Option<Body>,
)
    requires
        answers(level, method, path, online, next, body),
    ensures
        next matches Some(n) ==> (is_unsolved_puzzle(level) || level == Level::Offline(
            OfflineState::Busted,
        )) && (is_solved_puzzle(n) || n
            == Level::Offline(OfflineState::Loaded) || n == Level::Offline(OfflineState::Busted)),
        next == Some(Level::Tutorial(true)) ==> level == Level::Tutorial(false) && method
            == Method::Post && path == "/complete"@,
        next == Some(Level::Offline(OfflineState::Completed)) ==> is_offline(level) && method
            == Method::Get && path == "/saw-lewd"@ && !online,
        next == Some(Level::Offline(OfflineState::Busted)) ==> is_offline(level) && method
            == Method::Get && path == "/saw-lewd"@ && online,
        next == Some(Level::Offline(OfflineState::Loaded)) ==> is_offline(level) && method
            == Method::Get && path == "/lewd.html"@ && online,
        next == Some(Level::Cache(CacheState::Completed)) ==> method == Method::Get
            && cache_target(level) == Some(path),
{
    reveal_strlit("/");
    reveal_strlit("/style.css");
    reveal_strlit("/complete");
    reveal_strlit("/lewd.html");
    reveal_strlit("/saw-lewd");
    reveal_strlit("/cache");
    assert("/"@.len() == 1);
    assert("/style.css"@.len() == 10);
    assert("/complete"@.len() == 9);
    assert("/lewd.html"@.len() == 10);
    assert("/saw-lewd"@.len() == 9);
    assert("/cache"@.len() == 6);
    assert("/style.css"@[1] != "/lewd.html"@[1]);
    assert("/complete"@[1] != "/saw-lewd"@[1]);
}

/// Which page is sent tells what happened: the style sheet only for
/// `/style.css`; the "offline" page only while offline and the pages that
/// need the Internet only while online; a congratulations page exactly when
/// a puzzle is solved (or, for the offline puzzle, already is); the start
/// pages only for `/` of their own puzzle; the cache dump only for `/cache`
/// of a waiting cache puzzle.
pub proof fn lemma_pages_tell_what_happened(
    level: Level,
    method: Method,
    path: Seq<char>,
    online: bool,
    next: Option<Level>,
    body: Option<Body>,
)
    requires
        answers(level, method, path, online, next, body),
    ensures
        method == Method::Get && path == "/style.css"@ <==> body == Some(Body::File(Asset::Style)),
        body == Some(Body::File(Asset::OfflineOffline)) ==> is_offline(level) && !online,
        body == Some(Body::File(Asset::OfflineIndex)) ==> is_offline(level) && online && path
            == "/"@,
        body == Some(Body::File(Asset::OfflineLewd)) ==> online,
        body == Some(Body::File(Asset::OfflineBusted)) ==> online,
        body == Some(Body::File(Asset::DemoCongrats)) <==> next == Some(Level::Tutorial(true)),
        body == Some(Body::File(Asset::CacheCongrats)) <==> next == Some(
            Level::Cache(CacheState::Completed),
        ),
        body == Some(Body::File(Asset::OfflineCongrats)) ==> level == Level::Offline(
            OfflineState::Completed,
        ) || next == Some(Level::Offline(OfflineState::Completed)),
        body == Some(Body::File(Asset::DemoIndex)) ==> level == Level::Tutorial(false) && path
            == "/"@,
        body == Some(Body::File(Asset::CacheIndex)) ==> cache_target(level) is Some && path
            == "/"@,
        body matches Some(Body::Bytes(_)) ==> cache_target(level) is Some && method
            == Method::Get && path == "/cache"@,
{
    reveal_strlit("/");
    reveal_strlit("/style.css");
    reveal_strlit("/complete");
    reveal_strlit("/lewd.html");
    reveal_strlit("/saw-lewd");
    reveal_strlit("/cache");
    assert("/"@.len() == 1);
    assert("/style.css"@.len() == 10);
    assert("/complete"@.len() == 9);
    assert("/lewd.html"@.len() == 10);
    assert("/saw-lewd"@.len() == 9);
    assert("/cache"@.len() == 6);
    assert("/style.css"@[1] != "/lewd.html"@[1]);
    assert("/complete"@[1] != "/saw-lewd"@[1]);
}

/// Only the unsolved offline puzzle asks whether the computer is online,
/// and only for its three pages `/`, `/lewd.html` and `/saw-lewd`.
pub proof fn lemma_who_asks_for_connectivity(level: Level, method: Method, path: Seq<char>)
    ensures
        needs_connectivity(level, method, path) <==> is_offline(level) && level
            != Level::Offline(OfflineState::Completed) && method == Method::Get && (path == "/"@
            || path == "/lewd.html"@ || path == "/saw-lewd"@),
{
    reveal_strlit("/");
    reveal_strlit("/style.css");
    reveal_strlit("/complete");
    reveal_strlit("/lewd.html");
    reveal_strlit("/saw-lewd");
    reveal_strlit("/cache");
    assert("/"@.len() == 1);
    assert("/style.css"@.len() == 10);
    assert("/complete"@.len() == 9);
    assert("/lewd.html"@.len() == 10);
    assert("/saw-lewd"@.len() == 9);
    assert("/cache"@.len() == 6);
    assert("/style.css"@[1] != "/lewd.html"@[1]);
    assert("/complete"@[1] != "/saw-lewd"@[1]);
}

/// Every puzzle's pages are there: the tutorial's and the cache puzzle's
/// start pages, the offline puzzle's start page (or its "offline" page), the
/// cache dump of the hidden path, and the congratulations of a solved
/// offline puzzle for any request but the style sheet.
pub proof fn lemma_puzzle_pages_are_served(
    level: Level,
    method: Method,
    path: Seq<char>,
    online: bool,
    next: Option<Level>,
    body: Option<Body>,
)
    requires
        answers(level, method, path, online, next, body),
    ensures
        level == Level::Tutorial(false) && method == Method::Get && path == "/"@ ==> next is None
            && body == Some(Body::File(Asset::DemoIndex)),
        is_offline(level) && level != Level::Offline(OfflineState::Completed) && method
            == Method::Get && path == "/"@ && online ==> next is None && body == Some(
            Body::File(Asset::OfflineIndex),
        ),
        is_offline(level) && level != Level::Offline(OfflineState::Completed) && method
            == Method::Get && path == "/"@ && !online ==> next is None && body == Some(
            Body::File(Asset::OfflineOffline),
        ),
        level == Level::Offline(OfflineState::Completed) && !(method == Method::Get && path
            == "/style.css"@) ==> next is None && body == Some(Body::File(Asset::OfflineCongrats)),
        cache_target(level) is Some && method == Method::Get && path == "/"@ ==> next is None
            && body == Some(Body::File(Asset::CacheIndex)),
        cache_target(level) is Some && method == Method::Get && path == "/cache"@ ==> next is None
            && is_dump_of(body, cache_target(level)->0),
{
    reveal_strlit("/");
    reveal_strlit("/style.css");
    reveal_strlit("/complete");
    reveal_strlit("/lewd.html");
    reveal_strlit("/saw-lewd");
    reveal_strlit("/cache");
    assert("/"@.len() == 1);
    assert("/style.css"@.len() == 10);
    assert("/complete"@.len() == 9);
    assert("/lewd.html"@.len() == 10);
    assert("/saw-lewd"@.len() == 9);
    assert("/cache"@.len() == 6);
    assert("/style.css"@[1] != "/lewd.html"@[1]);
    assert("/complete"@[1] != "/saw-lewd"@[1]);
}

} // verus!
