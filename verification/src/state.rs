//! The whole of a running game and its tick.
use vstd::prelude::*;
use crate::blutti::{world, Blutti, BluttiView, World};
use crate::direction::DirectionX;
use crate::functions::{axis_to_speed, spec_axis_to_speed, Outbox, OutboxView};
use crate::game_state::GameState;
use crate::input::{Buttons, Input, Pad, AXIS_THRESHOLD};
use crate::level::{Level, LevelNumber, LevelView, START_LEVEL};

verus! {

/// A request to load a level and to hand it back.
#[derive(Clone, Copy, PartialEq, Eq, Structural, Debug)]
pub enum Request {
    /// Load the level and go on with `Level::restart`: after a level that
    /// was won with the player's points and lives, else with a new player.
    Restart { level: LevelNumber, won: bool },
    /// Load the level afresh after a death and go on with `State::retry`.
    Retry { level: LevelNumber },
}

/// The entry of the menu that shows the credits.
pub const MENU_CREDITS: u8 = 1;

/// The entry of the menu that starts a new game.
pub const MENU_RESTART: u8 = 2;

/// The entry of the menu that shows the help screen.
pub const MENU_INFO: u8 = 3;

/// The player, the level it is in, the screen that shows, and what the
/// game asks of its host.
#[derive(Debug)]
pub struct State {
    pub blutti: Blutti,
    pub level: Level,
    pub game_state: GameState,
    pub out: Outbox,
    /// The buttons as they were at the last tick.
    pub buttons: Buttons,
}

impl World {
    /// The player follows the horizontal axis.
    #[verifier::opaque]
    pub open spec fn steer_x(self, input: Input) -> World {
        if input.axis_x < -AXIS_THRESHOLD {
            self.move_sideways(DirectionX::Left, spec_axis_to_speed(input.axis_x as int))
        } else if input.axis_x > AXIS_THRESHOLD {
            self.move_sideways(DirectionX::Right, spec_axis_to_speed(input.axis_x as int))
        } else {
            self
        }
    }

    /// The player follows the vertical axis, and is told when both axes
    /// were let go.
    #[verifier::opaque]
    pub open spec fn steer_y(self, input: Input) -> World {
        let b = self.blutti;
        if input.axis_y > AXIS_THRESHOLD {
            self.with_blutti(b.move_up(self.level, spec_axis_to_speed(input.axis_y as int)))
        } else if input.axis_y < -AXIS_THRESHOLD {
            self.with_blutti(b.move_down(self.level, spec_axis_to_speed(input.axis_y as int)))
        } else if input.is_centred() {
            self.with_blutti(b.stop(self.level))
        } else {
            self
        }
    }

    /// The player follows the jump button.
    #[verifier::opaque]
    pub open spec fn press_jump(self, input: Input) -> World {
        let pressed = if input.jump_pressed {
            self.start_jump()
        } else {
            self
        };
        if input.jump_released {
            pressed.with_blutti(pressed.blutti.stop_jump())
        } else {
            pressed
        }
    }

    /// The player follows the dash button, and the debug button switches the
    /// overlay.
    #[verifier::opaque]
    pub open spec fn press_dash(self, input: Input) -> World {
        let dashed = if input.dash_pressed {
            self.start_dash()
        } else {
            self
        };
        if input.debug_pressed {
            dashed.with_blutti(BluttiView { debug: !dashed.blutti.debug, ..dashed.blutti })
        } else {
            dashed
        }
    }

    /// The level has its tick and pushes the player.
    #[verifier::opaque]
    pub open spec fn update_level(self, rolls: Seq<u32>) -> World {
        let (level, blutti) = self.level.update(self.blutti, rolls);
        World { blutti, level, ..self }
    }

    /// One tick of play: the input, the player, the level, and then the
    /// tiles under the player.
    #[verifier::opaque]
    pub open spec fn tick(self, input: Input, rolls: Seq<u32>) -> World {
        self.steer_x(input).steer_y(input).press_jump(input).press_dash(
            input,
        ).update().update_level(rolls).handle_effects()
    }

    /// The screen after a tick of play: the end of the game when the player
    /// has no life left or has finished the level, the death screen when it
    /// died, else the game itself.
    pub open spec fn screen(self) -> GameState {
        if self.blutti.lives <= 0 || self.blutti.finished_level {
            GameState::GameOver(self.blutti.finished_level)
        } else if self.blutti.died {
            GameState::Died
        } else {
            GameState::Playing
        }
    }
}

/// The values of a game: its world, its screen, and the buttons as they
/// were at the last tick.
pub struct Game {
    pub world: World,
    pub game_state: GameState,
    pub buttons: Buttons,
}

impl Game {
    /// The game one tick later, for the buttons and the pad as they are
    /// now.
    pub open spec fn update(self, buttons: Buttons, pad: Option<Pad>, rolls: Seq<u32>) -> Game {
        Game { buttons, ..self.advance(Input::spec_read(self.buttons, buttons, pad), rolls) }
    }

    /// What the game asks for after the tick.
    pub open spec fn update_request(self, buttons: Buttons, pad: Option<Pad>) -> Option<Request> {
        self.request(Input::spec_read(self.buttons, buttons, pad))
    }

    /// The game one tick later, for what the hands did.
    pub open spec fn advance(self, input: Input, rolls: Seq<u32>) -> Game {
        let b = self.world.blutti;
        let animated = self.world.with_blutti(
            BluttiView { animation: b.animation.update(), ..b },
        );
        match self.game_state {
            GameState::Title => Game {
                game_state: if input.confirm_pressed {
                    GameState::Playing
                } else {
                    GameState::Title
                },
                ..self
            },
            GameState::Credits | GameState::Info => Game {
                game_state: if input.back_pressed {
                    GameState::Title
                } else {
                    self.game_state
                },
                ..self
            },
            GameState::Died => Game { world: animated, ..self },
            GameState::Playing => {
                let played = self.world.tick(input, rolls);
                Game { world: played, game_state: played.screen(), ..self }
            },
            GameState::GameOver(_) => Game { world: animated, ..self },
        }
    }

    /// What the game asks for after the tick, once the player confirms: on
    /// the death screen the level of the player anew; at the end of a game
    /// the next level if the last one was won, and the first level with a
    /// new player if not.
    pub open spec fn request(self, input: Input) -> Option<Request> {
        if !input.confirm_pressed {
            None
        } else {
            match self.game_state {
                GameState::Died => Some(
                    Request::Retry { level: self.world.blutti.current_level },
                ),
                GameState::GameOver(won) => Some(
                    Request::Restart {
                        level: if won {
                            crate::fixed::clip(self.world.blutti.current_level + 1)
                        } else {
                            START_LEVEL
                        },
                        won,
                    },
                ),
                _ => None,
            }
        }
    }

    /// The game with the level `loaded` in place of its own, the player back
    /// at its start and the game running.
    pub open spec fn retry(self, loaded: LevelView) -> Game {
        Game {
            world: World {
                blutti: self.world.blutti.reset(loaded),
                level: loaded,
                out: self.world.out,
            },
            game_state: GameState::Playing,
            ..self
        }
    }

    /// The game after an entry of the menu was chosen.
    pub open spec fn handle_menu(self, menu_item: u8) -> Game {
        if menu_item == MENU_CREDITS {
            Game { game_state: GameState::Credits, ..self }
        } else if menu_item == MENU_INFO {
            Game { game_state: GameState::Info, ..self }
        } else {
            self
        }
    }
}

impl State {
    /// The player and the level are well-formed.
    pub open spec fn wf(&self) -> bool {
        self.blutti.wf() && self.level.wf()
    }

    /// The values of the game.
    pub open spec fn game(&self) -> Game {
        Game {
            world: world(self.blutti, self.level, self.out),
            game_state: self.game_state,
            buttons: self.buttons,
        }
    }

    /// Whether the player and the level are well-formed.
    pub fn is_wf(&self) -> (r: bool)
        ensures
            r == self.wf(),
    {
        self.blutti.is_wf() && self.level.is_wf()
    }

    /// A game at its title screen, with a new player at the start of
    /// `level`.
    pub fn new(level: Level) -> (r: State)
        requires
            level.wf(),
        ensures
            r.wf(),
            r.level == level,
            r.game_state == GameState::Title,
            r.blutti@ == Blutti::with_start_position_spec(level.start_position),
            r.out@ == OutboxView::empty(),
            r.buttons == Buttons::spec_released(),
    {
        let blutti = Blutti::with_start_position(level.start_position);
        State {
            blutti,
            level,
            game_state: GameState::Title,
            out: Outbox::new(),
            buttons: Buttons::released(),
        }
    }

    fn steer_x(&mut self, input: Input)
        requires
            old(self).wf(),
        ensures
            final(self).game().world == old(self).game().world.steer_x(input),
            final(self).game_state == old(self).game_state,
            final(self).buttons == old(self).buttons,
            final(self).wf(),
    {
        proof {
            reveal(World::steer_x);
        }
        if input.axis_x < -AXIS_THRESHOLD {
            self.blutti.move_left(&mut self.level, &self.out, axis_to_speed(input.axis_x));
        } else if input.axis_x > AXIS_THRESHOLD {
            self.blutti.move_right(&mut self.level, &self.out, axis_to_speed(input.axis_x));
        }
    }

    fn steer_y(&mut self, input: Input)
        requires
            old(self).wf(),
        ensures
            final(self).game().world == old(self).game().world.steer_y(input),
            final(self).game_state == old(self).game_state,
            final(self).buttons == old(self).buttons,
            final(self).wf(),
    {
        proof {
            reveal(World::steer_y);
        }
        if input.axis_y > AXIS_THRESHOLD {
            self.blutti.move_up(&self.level, axis_to_speed(input.axis_y));
        } else if input.axis_y < -AXIS_THRESHOLD {
            self.blutti.move_down(&self.level, axis_to_speed(input.axis_y));
        } else if -AXIS_THRESHOLD <= input.axis_x && input.axis_x <= AXIS_THRESHOLD {
            self.blutti.stop(&self.level);
        }
    }

    fn press_jump(&mut self, input: Input)
        requires
            old(self).wf(),
        ensures
            final(self).game().world == old(self).game().world.press_jump(input),
            final(self).game_state == old(self).game_state,
            final(self).buttons == old(self).buttons,
            final(self).wf(),
    {
        proof {
            reveal(World::press_jump);
        }
        if input.jump_pressed {
            self.blutti.start_jump(&mut self.level, &mut self.out);
        }
        if input.jump_released {
            self.blutti.stop_jump();
        }
    }

    fn press_dash(&mut self, input: Input)
        requires
            old(self).wf(),
        ensures
            final(self).game().world == old(self).game().world.press_dash(input),
            final(self).game_state == old(self).game_state,
            final(self).buttons == old(self).buttons,
            final(self).wf(),
    {
        proof {
            reveal(World::press_dash);
        }
        if input.dash_pressed {
            self.blutti.start_dash(&mut self.level, &mut self.out);
        }
        if input.debug_pressed {
            self.blutti.toggle_debug();
        }
    }

    fn update_level(&mut self, rolls: &Vec<u32>)
        requires
            old(self).wf(),
            rolls@.len() > 0,
        ensures
            final(self).game().world == old(self).game().world.update_level(rolls@),
            final(self).game_state == old(self).game_state,
            final(self).buttons == old(self).buttons,
            final(self).wf(),
    {
        proof {
            reveal(World::update_level);
        }
        self.level.update(&mut self.blutti, rolls);
    }

    /// One tick of play.
    pub fn tick(&mut self, input: Input, rolls: &Vec<u32>)
        requires
            old(self).wf(),
            rolls@.len() > 0,
        ensures
            final(self).game().world == old(self).game().world.tick(input, rolls@),
            final(self).game_state == old(self).game_state,
            final(self).buttons == old(self).buttons,
            final(self).wf(),
    {
        proof {
            reveal(World::tick);
        }
        self.steer_x(input);
        self.steer_y(input);
        self.press_jump(input);
        self.press_dash(input);
        self.blutti.update(&mut self.level, &mut self.out);
        self.update_level(rolls);
        self.blutti.handle_effects(&mut self.level, &mut self.out);
    }

    /// Advances the game by one tick and says whether a level is to be
    /// loaded. `buttons` and `pad` are the readings of this tick, and
    /// `rolls` is its pool of random words.
    pub fn update(&mut self, buttons: Buttons, pad: Option<Pad>, rolls: &Vec<u32>) -> (r: Option<Request>)
        requires
            old(self).wf(),
            rolls@.len() > 0,
        ensures
            final(self).game() == old(self).game().update(buttons, pad, rolls@),
            r == old(self).game().update_request(buttons, pad),
            final(self).wf(),
    {
        let input = Input::read(self.buttons, buttons, pad);
        self.buttons = buttons;
        self.advance(input, rolls)
    }

    /// Advances the game by one tick for what the hands did.
    pub fn advance(&mut self, input: Input, rolls: &Vec<u32>) -> (r: Option<Request>)
        requires
            old(self).wf(),
            rolls@.len() > 0,
        ensures
            final(self).game() == old(self).game().advance(input, rolls@),
            r == old(self).game().request(input),
            final(self).wf(),
    {
        match self.game_state {
            GameState::Title => {
                if input.confirm_pressed {
                    self.game_state = GameState::Playing;
                }
                None
            },
            GameState::Credits | GameState::Info => {
                if input.back_pressed {
                    self.game_state = GameState::Title;
                }
                None
            },
            GameState::Died => {
                self.animate();
                if input.confirm_pressed {
                    Some(Request::Retry { level: self.blutti.current_level })
                } else {
                    None
                }
            },
            GameState::Playing => {
                self.tick(input, rolls);
                self.show();
                None
            },
            GameState::GameOver(won) => {
                self.animate();
                if input.confirm_pressed {
                    if won {
                        Some(
                            Request::Restart {
                                level: crate::fixed::sat_add(self.blutti.current_level, 1),
                                won,
                            },
                        )
                    } else {
                        Some(Request::Restart { level: START_LEVEL, won })
                    }
                } else {
                    None
                }
            },
        }
    }

    /// Advances the animation of the player, which shows on the screens
    /// after a death and at the end of a game.
    fn animate(&mut self)
        requires
            old(self).wf(),
        ensures
            final(self).game() == (Game {
                world: old(self).game().world.with_blutti(
                    BluttiView {
                        animation: old(self).blutti@.animation.update(),
                        ..old(self).blutti@
                    },
                ),
                ..old(self).game()
            }),
            final(self).blutti.current_level == old(self).blutti.current_level,
            final(self).wf(),
    {
        self.blutti.animation.update();
    }

    /// Chooses the screen after a tick of play.
    fn show(&mut self)
        ensures
            final(self).game() == (Game {
                game_state: old(self).game().world.screen(),
                ..old(self).game()
            }),
            final(self).blutti == old(self).blutti,
            final(self).level == old(self).level,
    {
        if !self.blutti.is_alive() || self.blutti.finished_level {
            self.game_state = GameState::GameOver(self.blutti.finished_level);
        } else if self.blutti.died {
            self.game_state = GameState::Died;
        } else {
            self.game_state = GameState::Playing;
        }
    }

    /// Goes on after a death with the level `loaded`, which is the level of
    /// the player read anew: the player is back at its start and the game
    /// runs.
    pub fn retry(&mut self, loaded: Level)
        requires
            old(self).wf(),
            loaded.wf(),
        ensures
            final(self).game() == old(self).game().retry(loaded@),
            final(self).wf(),
    {
        self.level = loaded;
        self.blutti.reset(&self.level);
        self.game_state = GameState::Playing;
    }

    /// Follows an entry of the menu: the credits, a new game, or the help
    /// screen. A new game asks for the first level.
    pub fn handle_menu(&mut self, menu_item: u8) -> (r: Option<Request>)
        ensures
            final(self).game() == old(self).game().handle_menu(menu_item),
            r == if menu_item == MENU_RESTART {
                Some(Request::Restart { level: START_LEVEL, won: false })
            } else {
                None
            },
    {
        if menu_item == MENU_CREDITS {
            self.game_state = GameState::Credits;
            None
        } else if menu_item == MENU_RESTART {
            Some(Request::Restart { level: START_LEVEL, won: false })
        } else if menu_item == MENU_INFO {
            self.game_state = GameState::Info;
            None
        } else {
            None
        }
    }
}

} // verus!
