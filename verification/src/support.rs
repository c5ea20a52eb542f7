use vstd::prelude::*;

verus! {

/// The state that the desktop window shows: whether the player has clicked
/// through the age notice, how far they have got, and whether the hint is
/// shown.
pub struct GameState {
    approved: bool,
    current_level: u8,
    showing_hint: bool,
}

/// The age notice shown before the player has clicked through.
pub open spec fn notice_text() -> Seq<char> {
    "Circumvention Chronicles is only for adults. It does not contain porn, but it does \
        contain unambiguous descriptions of it. If you are 18 or older and you are comfortable \
        with this, press \"Begin\". If not, press Esc or close this window."@
}

/// What the description reads for a given approval.
pub open spec fn description_text(approved: bool) -> Seq<char> {
    if approved {
        "Welcome to Circumvention Chronicles!"@
    } else {
        notice_text()
    }
}

/// What the main button reads for a given approval.
pub open spec fn button_text(approved: bool) -> Seq<char> {
    if approved {
        "Win Game"@
    } else {
        "Begin"@
    }
}

/// What the hint reads for a given approval.
pub open spec fn hint_text(approved: bool) -> Seq<char> {
    if approved {
        "Click the button to win"@
    } else {
        ""@
    }
}

impl GameState {
    pub closed spec fn is_approved(self) -> bool {
        self.approved
    }

    pub closed spec fn level_number(self) -> u8 {
        self.current_level
    }

    pub closed spec fn hint_shown(self) -> bool {
        self.showing_hint
    }

    /// `after` is what a press of the main button makes of `before`: the
    /// first press approves, every later one moves on by one level.
    pub open spec fn pressed(before: GameState, after: GameState) -> bool {
        &&& after.is_approved()
        &&& after.hint_shown() == before.hint_shown()
        &&& after.level_number() == if before.is_approved() {
            before.level_number() + 1
        } else {
            before.level_number() as int
        }
    }

    /// `after` is `before` with the hint shown if it was hidden and hidden if
    /// it was shown.
    pub open spec fn toggled(before: GameState, after: GameState) -> bool {
        &&& after.is_approved() == before.is_approved()
        &&& after.level_number() == before.level_number()
        &&& after.hint_shown() == !before.hint_shown()
    }

    /// Two states that show the same thing.
    pub open spec fn same_state(a: GameState, b: GameState) -> bool {
        &&& a.is_approved() == b.is_approved()
        &&& a.level_number() == b.level_number()
        &&& a.hint_shown() == b.hint_shown()
    }

    /// A fresh game: not yet approved, at the first level, hint hidden.
    pub fn new() -> (s: Self)
        ensures
            !s.is_approved(),
            s.level_number() == 0,
            !s.hint_shown(),
    {
        GameState { approved: false, current_level: 0, showing_hint: false }
    }

    /// The text above the main button: the age notice until the player
    /// clicks through, a welcome afterwards.
    pub fn description(&self) -> (d: &str)
        ensures
            d@ == description_text(self.is_approved()),
    {
        match self.approved {
            false => "Circumvention Chronicles is only for adults. It does not contain porn, but it does \
                contain unambiguous descriptions of it. If you are 18 or older and you are comfortable \
                with this, press \"Begin\". If not, press Esc or close this window.",
            true => "Welcome to Circumvention Chronicles!",
        }
    }

    /// The label of the main button.
    pub fn button_label(&self) -> (l: &str)
        ensures
            l@ == button_text(self.is_approved()),
    {
        match self.approved {
            false => "Begin",
            true => "Win Game",
        }
    }

    /// Reacts to the main button: approves the game the first time, and
    /// moves to the next level every time after that.
    pub fn handle_button_press(&mut self)
        requires
            old(self).is_approved() ==> old(self).level_number() < u8::MAX,
        ensures
            GameState::pressed(*old(self), *final(self)),
    {
        if !self.approved {
            self.approved = true;
        } else {
            self.current_level = self.current_level + 1;
        }
    }

    /// Shows the hint if it is hidden, hides it if it is shown.
    pub fn toggle_hint(&mut self)
        ensures
            GameState::toggled(*old(self), *final(self)),
    {
        self.showing_hint = !self.showing_hint;
    }

    /// The hint: nothing before approval.
    pub fn hint(&self) -> (h: &str)
        ensures
            h@ == hint_text(self.is_approved()),
    {
        match self.approved {
            false => "",
            true => "Click the button to win",
        }
    }

    /// Whether the player has clicked through the age notice.
    pub fn approved(&self) -> (a: bool)
        ensures
            a == self.is_approved(),
    {
        self.approved
    }

    /// How many levels the player has won since clicking through.
    pub fn current_level(&self) -> (n: u8)
        ensures
            n == self.level_number(),
    {
        self.current_level
    }

    /// Whether the hint is shown.
    pub fn showing_hint(&self) -> (h: bool)
        ensures
            h == self.hint_shown(),
    {
        self.showing_hint
    }
}

/// The age notice, the "Begin" button and the empty hint are shown exactly
/// until the player clicks through; the welcome, the "Win Game" button and
/// the hint to click it exactly afterwards.
pub proof fn lemma_texts_follow_approval(approved: bool)
    ensures
        description_text(approved) == "Circumvention Chronicles is only for adults. It does not contain porn, but it does \
        contain unambiguous descriptions of it. If you are 18 or older and you are comfortable \
        with this, press \"Begin\". If not, press Esc or close this window."@ <==> !approved,
        description_text(approved) == "Welcome to Circumvention Chronicles!"@ <==> approved,
        button_text(approved) == "Begin"@ <==> !approved,
        button_text(approved) == "Win Game"@ <==> approved,
        hint_text(approved) == ""@ <==> !approved,
        hint_text(approved) == "Click the button to win"@ <==> approved,
{
    reveal_strlit("Circumvention Chronicles is only for adults. It does not contain porn, but it does \
        contain unambiguous descriptions of it. If you are 18 or older and you are comfortable \
        with this, press \"Begin\". If not, press Esc or close this window.");
    reveal_strlit("Welcome to Circumvention Chronicles!");
    assert("Circumvention Chronicles is only for adults. It does not contain porn, but it does \
        contain unambiguous descriptions of it. If you are 18 or older and you are comfortable \
        with this, press \"Begin\". If not, press Esc or close this window."@.len() == 235);
    assert("Welcome to Circumvention Chronicles!"@.len() == 36);
    reveal_strlit("Win Game");
    reveal_strlit("Begin");
    assert("Win Game"@.len() == 8);
    assert("Begin"@.len() == 5);
    reveal_strlit("Click the button to win");
    reveal_strlit("");
    assert("Click the button to win"@.len() == 23);
    assert(""@.len() == 0);
}

/// Showing the hint twice in a row leaves the game as it was.
pub proof fn lemma_toggle_twice_restores(a: GameState, b: GameState, c: GameState)
    requires
        GameState::toggled(a, b),
        GameState::toggled(b, c),
    ensures
        GameState::same_state(a, c),
{
}

/// Once the player has clicked through the age notice, neither the main
/// button nor the hint button takes that back.
pub proof fn lemma_approval_is_kept(before: GameState, after: GameState)
    requires
        before.is_approved(),
        GameState::pressed(before, after) || GameState::toggled(before, after),
    ensures
        after.is_approved(),
{
}

/// The first press of the main button only clicks through the notice: the
/// level does not move until the game is approved.
pub proof fn lemma_first_press_keeps_level(before: GameState, after: GameState)
    requires
        !before.is_approved(),
        GameState::pressed(before, after),
    ensures
        after.is_approved(),
        after.level_number() == before.level_number(),
{
}

/// After the player has clicked through, every press of the main button
/// moves on by exactly one level and leaves the hint as it was.
pub proof fn lemma_later_presses_advance_one(before: GameState, after: GameState)
    requires
        before.is_approved(),
        GameState::pressed(before, after),
    ensures
        after.is_approved(),
        after.level_number() == before.level_number() + 1,
        after.hint_shown() == before.hint_shown(),
{
}

/// The hint button changes nothing but whether the hint is shown, and it
/// always changes that.
pub proof fn lemma_hint_button_changes_only_the_hint(before: GameState, after: GameState)
    requires
        GameState::toggled(before, after),
    ensures
        after.is_approved() == before.is_approved(),
        after.level_number() == before.level_number(),
        after.hint_shown() != before.hint_shown(),
{
}

} // verus!
