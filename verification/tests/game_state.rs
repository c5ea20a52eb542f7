use circumvention_chronicles::GameState;

#[test]
fn new_game_is_not_approved() {
    let s = GameState::new();
    assert!(!s.approved());
    assert_eq!(s.current_level(), 0);
    assert!(!s.showing_hint());
}

#[test]
fn notice_before_approval() {
    let s = GameState::new();
    assert_eq!(
        s.description(),
        "Circumvention Chronicles is only for adults. It does not contain porn, but it does \
         contain unambiguous descriptions of it. If you are 18 or older and you are comfortable \
         with this, press \"Begin\". If not, press Esc or close this window."
    );
    assert_eq!(s.button_label(), "Begin");
    assert_eq!(s.hint(), "");
}

#[test]
fn first_press_approves_without_moving_on() {
    let mut s = GameState::new();
    s.handle_button_press();
    assert!(s.approved());
    assert_eq!(s.current_level(), 0);
    assert_eq!(s.description(), "Welcome to Circumvention Chronicles!");
    assert_eq!(s.button_label(), "Win Game");
    assert_eq!(s.hint(), "Click the button to win");
}

#[test]
fn later_presses_move_on_one_level_each() {
    let mut s = GameState::new();
    s.handle_button_press();
    s.handle_button_press();
    assert_eq!(s.current_level(), 1);
    s.handle_button_press();
    assert_eq!(s.current_level(), 2);
    assert!(s.approved());
}

#[test]
fn toggling_twice_restores_the_hint() {
    let mut s = GameState::new();
    s.toggle_hint();
    assert!(s.showing_hint());
    s.toggle_hint();
    assert!(!s.showing_hint());
    assert!(!s.approved());
    assert_eq!(s.current_level(), 0);
}

#[test]
fn approval_survives_the_hint_button() {
    let mut s = GameState::new();
    s.handle_button_press();
    s.toggle_hint();
    assert!(s.approved());
    assert!(s.showing_hint());
    s.handle_button_press();
    assert!(s.showing_hint());
}

#[test]
fn presses_up_to_the_last_level_number() {
    let mut s = GameState::new();
    s.handle_button_press();
    for _ in 0..255 {
        s.handle_button_press();
    }
    assert_eq!(s.current_level(), 255);
}
