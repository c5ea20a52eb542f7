use std::sync::{Arc, Mutex};

use circumvention_chronicles::{Asset, Body, GameServer, GameState, Level, Method, OfflineState};

#[test]
fn server_shares_the_game() {
    let state = Arc::new(Mutex::new(GameState::new()));
    let server = GameServer::new(Arc::clone(&state));
    assert!(Arc::ptr_eq(server.state(), &state));
    state.lock().unwrap().handle_button_press();
    assert!(server.state().lock().unwrap().approved());
}

#[test]
fn icon_is_never_found() {
    let asked = std::cell::Cell::new(false);
    for l in [Level::TitleScreen, Level::Tutorial(false), Level::Offline(OfflineState::Waiting)] {
        let r = GameServer::call(&l, &Method::Get, "/favicon.ico", || {
            asked.set(true);
            true
        });
        assert_eq!(r, (None, None));
    }
    assert!(!asked.get());
    let r = GameServer::call(&Level::Offline(OfflineState::Completed), &Method::Get, "/favicon.ico", || true);
    assert_eq!(r, (None, None));
}

#[test]
fn other_requests_go_to_the_level() {
    let r = GameServer::call(&Level::Tutorial(false), &Method::Post, "/complete", || true);
    assert_eq!(r, (Some(Level::Tutorial(true)), Some(Body::File(Asset::DemoCongrats))));
    let r = GameServer::call(&Level::Offline(OfflineState::Loaded), &Method::Get, "/saw-lewd", || true);
    assert_eq!(r, (Some(Level::Offline(OfflineState::Busted)), Some(Body::File(Asset::OfflineBusted))));
}
