//! Per-player button state: which buttons are held this frame and which of
//! them changed on this frame. The host engine polls the physical inputs
//! (gamepad buttons, stick axes or the keyboard fallback) outside the
//! library and feeds one sample per player and button into `update`; the
//! queries `pressed`, `just_pressed` and `just_released` are answered from
//! the recorded state alone.

use vstd::prelude::*;

verus! {

/// The devcade cabinet's buttons for one player.
#[derive(Clone, Copy, Debug, PartialEq, Eq, Structural)]
pub enum Button {
    /// Top row, first button. Red
    A1,
    /// Top row, second button. Blue
    A2,
    /// Top row, third button. Green
    A3,
    /// Top row, fourth button. White
    A4,
    /// Second row, first button.
    B1,
    /// Second row, second button.
    B2,
    /// Second row, third button.
    B3,
    /// Second row, fourth button.
    B4,
    /// Center button. Black. Generally bound to pause or exit
    Menu,
    /// Joystick pointing left
    StickLeft,
    /// Joystick pointing up
    StickUp,
    /// Joystick pointing down
    StickDown,
    /// Joystick pointing right
    StickRight,
}

impl Button {
    /// Every button, each exactly once, in declaration order.
    pub fn all() -> (r: Vec<Button>)
        ensures
            r@ == seq![
                Button::A1,
                Button::A2,
                Button::A3,
                Button::A4,
                Button::B1,
                Button::B2,
                Button::B3,
                Button::B4,
                Button::Menu,
                Button::StickLeft,
                Button::StickUp,
                Button::StickDown,
                Button::StickRight,
            ],
    {
        let buttons = vec![
            Button::A1,
            Button::A2,
            Button::A3,
            Button::A4,
            Button::B1,
            Button::B2,
            Button::B3,
            Button::B4,
            Button::Menu,
            Button::StickLeft,
            Button::StickUp,
            Button::StickDown,
            Button::StickRight,
        ];
        buttons
    }
}

/// Which player's set of controls is meant.
#[derive(Clone, Copy, Debug, PartialEq, Eq, Structural)]
pub enum Player {
    /// First player, left set of controls
    P1,
    /// Second player, right set of controls
    P2,
}

impl Player {
    /// Both players, in order.
    pub fn all() -> (r: Vec<Player>)
        ensures
            r@ == seq![Player::P1, Player::P2],
    {
        vec![Player::P1, Player::P2]
    }

    /// The player's position among the connected gamepads.
    pub fn index(&self) -> (r: usize)
        ensures
            self is P1 ==> r == 0,
            self is P2 ==> r == 1,
    {
        match self {
            Player::P1 => 0,
            Player::P2 => 1,
        }
    }
}

/// One button's recorded state for the current frame.
#[derive(Clone, Copy, Debug, PartialEq, Eq, Structural)]
pub struct ButtonState {
    /// Whether the button is held on this frame.
    pub pressed: bool,
    /// Whether `pressed` differs from the previous frame.
    pub changed_this_frame: bool,
}

impl Default for ButtonState {
    /// A button starts unpressed and unchanged.
    fn default() -> (r: ButtonState)
        ensures
            r == (ButtonState { pressed: false, changed_this_frame: false }),
    {
        ButtonState { pressed: false, changed_this_frame: false }
    }
}

/// The recorded state of every button of one player.
#[derive(Clone, Copy, Debug, PartialEq, Eq, Structural)]
pub struct PlayerControlState {
    stick_up: ButtonState,
    stick_down: ButtonState,
    stick_left: ButtonState,
    stick_right: ButtonState,
    menu: ButtonState,
    a1: ButtonState,
    a2: ButtonState,
    a3: ButtonState,
    a4: ButtonState,
    b1: ButtonState,
    b2: ButtonState,
    b3: ButtonState,
    b4: ButtonState,
}

impl PlayerControlState {
    /// The state recorded for one button.
    pub closed spec fn state_of(self, button: Button) -> ButtonState {
        match button {
            Button::StickUp => self.stick_up,
            Button::StickDown => self.stick_down,
            Button::StickLeft => self.stick_left,
            Button::StickRight => self.stick_right,
            Button::A1 => self.a1,
            Button::A2 => self.a2,
            Button::A3 => self.a3,
            Button::A4 => self.a4,
            Button::B1 => self.b1,
            Button::B2 => self.b2,
            Button::B3 => self.b3,
            Button::B4 => self.b4,
            Button::Menu => self.menu,
        }
    }

    fn get_state_for(&self, button: Button) -> (r: &ButtonState)
        ensures
            *r == self.state_of(button),
    {
        match button {
            Button::StickUp => &self.stick_up,
            Button::StickDown => &self.stick_down,
            Button::StickLeft => &self.stick_left,
            Button::StickRight => &self.stick_right,
            Button::A1 => &self.a1,
            Button::A2 => &self.a2,
            Button::A3 => &self.a3,
            Button::A4 => &self.a4,
            Button::B1 => &self.b1,
            Button::B2 => &self.b2,
            Button::B3 => &self.b3,
            Button::B4 => &self.b4,
            Button::Menu => &self.menu,
        }
    }

    fn get_state_for_mut(&mut self, button: Button) -> (r: &mut ButtonState)
        ensures
            *r == old(self).state_of(button),
            final(self).state_of(button) == *final(r),
            forall|b: Button| b != button ==> final(self).state_of(b) == old(self).state_of(b),
    {
        match button {
            Button::StickUp => &mut self.stick_up,
            Button::StickDown => &mut self.stick_down,
            Button::StickLeft => &mut self.stick_left,
            Button::StickRight => &mut self.stick_right,
            Button::A1 => &mut self.a1,
            Button::A2 => &mut self.a2,
            Button::A3 => &mut self.a3,
            Button::A4 => &mut self.a4,
            Button::B1 => &mut self.b1,
            Button::B2 => &mut self.b2,
            Button::B3 => &mut self.b3,
            Button::B4 => &mut self.b4,
            Button::Menu => &mut self.menu,
        }
    }

    /// Record this frame's sample for one button: the button now reads
    /// `pressed_now`, and it changed on this frame exactly when the sample
    /// differs from what was recorded before. No other button is touched.
    pub fn update_button(&mut self, button: Button, pressed_now: bool)
        ensures
            final(self).state_of(button).pressed == pressed_now,
            final(self).state_of(button).changed_this_frame == (pressed_now != old(
                self,
            ).state_of(button).pressed),
            forall|b: Button| b != button ==> final(self).state_of(b) == old(self).state_of(b),
    {
        let state = self.get_state_for_mut(button);
        state.changed_this_frame = pressed_now != state.pressed;
        state.pressed = pressed_now;
    }
}

impl Default for PlayerControlState {
    /// Every button starts unpressed and unchanged.
    fn default() -> (r: PlayerControlState)
        ensures
            forall|b: Button|
                r.state_of(b) == (ButtonState { pressed: false, changed_this_frame: false }),
    {
        let empty = ButtonState { pressed: false, changed_this_frame: false };
        PlayerControlState {
            stick_up: empty,
            stick_down: empty,
            stick_left: empty,
            stick_right: empty,
            menu: empty,
            a1: empty,
            a2: empty,
            a3: empty,
            a4: empty,
            b1: empty,
            b2: empty,
            b3: empty,
            b4: empty,
        }
    }
}

/// Both players' button state for the current frame.
#[derive(Clone, Copy, Debug, PartialEq, Eq, Structural)]
pub struct DevcadeControls {
    p1: PlayerControlState,
    p2: PlayerControlState,
}

impl DevcadeControls {
    /// The state recorded for one player.
    pub closed spec fn player_state(self, player: Player) -> PlayerControlState {
        match player {
            Player::P1 => self.p1,
            Player::P2 => self.p2,
        }
    }

    /// Every button of both players starts unpressed and unchanged.
    pub fn new() -> (r: DevcadeControls)
        ensures
            forall|p: Player, b: Button|
                r.player_state(p).state_of(b) == (ButtonState {
                    pressed: false,
                    changed_this_frame: false,
                }),
    {
        DevcadeControls { p1: Default::default(), p2: Default::default() }
    }

    fn get_player(&self, player: Player) -> (r: &PlayerControlState)
        ensures
            *r == self.player_state(player),
    {
        match player {
            Player::P1 => &self.p1,
            Player::P2 => &self.p2,
        }
    }

    /// Record this frame's sample for one player's button; every other
    /// player-button pair keeps its recorded state.
    pub fn update(&mut self, player: Player, button: Button, pressed_now: bool)
        ensures
            final(self).player_state(player).state_of(button).pressed == pressed_now,
            final(self).player_state(player).state_of(button).changed_this_frame == (pressed_now
                != old(self).player_state(player).state_of(button).pressed),
            forall|p: Player, b: Button|
                p != player || b != button ==> final(self).player_state(p).state_of(b) == old(
                    self,
                ).player_state(p).state_of(b),
    {
        match player {
            Player::P1 => self.p1.update_button(button, pressed_now),
            Player::P2 => self.p2.update_button(button, pressed_now),
        }
    }

    /// Returns true when button began being pressed on this frame, false otherwise
    pub fn just_pressed(&self, player: Player, button: Button) -> (r: bool)
        ensures
            r == (self.player_state(player).state_of(button).pressed && self.player_state(
                player,
            ).state_of(button).changed_this_frame),
    {
        let state = self.get_player(player).get_state_for(button);
        state.pressed && state.changed_this_frame
    }

    /// Returns true when button began being unpressed on this frame, false otherwise
    pub fn just_released(&self, player: Player, button: Button) -> (r: bool)
        ensures
            r == (!self.player_state(player).state_of(button).pressed && self.player_state(
                player,
            ).state_of(button).changed_this_frame),
    {
        let state = self.get_player(player).get_state_for(button);
        !state.pressed && state.changed_this_frame
    }

    /// Returns true if the button is currently pressed
    pub fn pressed(&self, player: Player, button: Button) -> (r: bool)
        ensures
            r == self.player_state(player).state_of(button).pressed,
    {
        self.get_player(player).get_state_for(button).pressed
    }

    /// Whether both players hold the Menu button — the condition on which
    /// the hosting game closes its window.
    pub fn menu_close_requested(&self) -> (r: bool)
        ensures
            r == (self.player_state(Player::P1).state_of(Button::Menu).pressed
                && self.player_state(Player::P2).state_of(Button::Menu).pressed),
    {
        self.pressed(Player::P1, Button::Menu) && self.pressed(Player::P2, Button::Menu)
    }
}

} // verus!
