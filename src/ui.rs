//! The navigation state machine of the user interface: which screen is
//! shown, and how action events move between screens and menus.
use vstd::prelude::*;
use crate::router::ActionEvent;

verus! {

/// How long the startup screen stays, in milliseconds.
pub const STARTUP_MS: u64 = 1000;

/// The working modes the mode menu offers.
#[derive(Clone, Copy, Debug, PartialEq, Eq, Structural)]
pub enum Mode {
    Play,
    Compose,
    Edit,
}

impl Mode {
    /// The mode after `self` in the menu's cycle.
    pub open spec fn spec_next(self) -> Mode {
        match self {
            Mode::Play => Mode::Compose,
            Mode::Compose => Mode::Edit,
            Mode::Edit => Mode::Play,
        }
    }

    /// The mode after `self` in the menu's cycle.
    pub fn next(&self) -> (r: Mode)
        ensures
            r == self.spec_next(),
    {
        match self {
            Mode::Play => Mode::Compose,
            Mode::Compose => Mode::Edit,
            Mode::Edit => Mode::Play,
        }
    }

    /// The mode shown after `self` in the menu.
    pub fn peek_next(&self) -> (r: Mode)
        ensures
            r == self.spec_next(),
    {
        self.next()
    }

    /// The mode shown before `self` in the menu: the one whose next is
    /// `self`.
    pub fn peek_prev(&self) -> (r: Mode)
        ensures
            r.spec_next() == *self,
    {
        match self {
            Mode::Play => Mode::Edit,
            Mode::Compose => Mode::Play,
            Mode::Edit => Mode::Compose,
        }
    }

    /// The mode's name as the menu shows it.
    pub fn name(&self) -> (r: &'static str)
        ensures
            r@ == match self {
                Mode::Play => "Play"@,
                Mode::Compose => "Compose"@,
                Mode::Edit => "Edit"@,
            },
    {
        proof {
            reveal_strlit("Play");
            reveal_strlit("Compose");
            reveal_strlit("Edit");
        }
        match self {
            Mode::Play => "Play",
            Mode::Compose => "Compose",
            Mode::Edit => "Edit",
        }
    }
}

/// The parameter pages of the play screen.
#[derive(Clone, Copy, Debug, PartialEq, Eq, Structural)]
pub enum EngineMenu {
    Control,
    ADSR,
    Filter,
    Effects,
}

impl EngineMenu {
    pub open spec fn spec_next(self) -> EngineMenu {
        match self {
            EngineMenu::Control => EngineMenu::ADSR,
            EngineMenu::ADSR => EngineMenu::Filter,
            EngineMenu::Filter => EngineMenu::Effects,
            EngineMenu::Effects => EngineMenu::Control,
        }
    }

    /// The page after `self`, cycling back to the first.
    pub fn next(&self) -> (r: EngineMenu)
        ensures
            r == self.spec_next(),
    {
        match self {
            EngineMenu::Control => EngineMenu::ADSR,
            EngineMenu::ADSR => EngineMenu::Filter,
            EngineMenu::Filter => EngineMenu::Effects,
            EngineMenu::Effects => EngineMenu::Control,
        }
    }
}

/// What a screen asks of the state machine.
#[derive(Clone, Copy, Debug, PartialEq, Eq, Structural)]
pub enum UiEvent {
    Initialized,
    OpenModeMenu,
    CloseModeMenu,
    Quit,
}

/// The screen shown, with what it remembers.
#[derive(Clone, Copy, Debug, PartialEq, Eq, Structural)]
pub enum Screen {
    /// Shown since time `entered_at`, in milliseconds.
    Startup { entered_at: u64 },
    Play { selected_menu: EngineMenu },
    Mode { selected_mode: Mode },
    Compose,
    Edit,
}

/// A screen after one action, and the event it raises, if any. `X` opens
/// the mode menu from a working screen and closes it from the menu; `Y`
/// turns the play screen's page or the menu's selection; `Quit` quits from
/// anywhere.
pub open spec fn screen_action(s: Screen, a: ActionEvent) -> (Screen, Option<UiEvent>) {
    if a == ActionEvent::Quit {
        (s, Some(UiEvent::Quit))
    } else {
        match s {
            Screen::Startup { .. } => (s, None),
            Screen::Play { selected_menu } => if a == ActionEvent::X {
                (s, Some(UiEvent::OpenModeMenu))
            } else if a == ActionEvent::Y {
                (Screen::Play { selected_menu: selected_menu.spec_next() }, None)
            } else {
                (s, None)
            },
            Screen::Mode { selected_mode } => if a == ActionEvent::X {
                (s, Some(UiEvent::CloseModeMenu))
            } else if a == ActionEvent::Y {
                (Screen::Mode { selected_mode: selected_mode.spec_next() }, None)
            } else {
                (s, None)
            },
            Screen::Compose | Screen::Edit => if a == ActionEvent::X {
                (s, Some(UiEvent::OpenModeMenu))
            } else {
                (s, None)
            },
        }
    }
}

/// A screen after the actions `actions`, taken in order up to the first
/// that raises an event, and that event.
pub open spec fn screen_actions(s: Screen, actions: Seq<ActionEvent>) -> (Screen, Option<UiEvent>)
    decreases actions.len(),
{
    if actions.len() == 0 {
        (s, None)
    } else {
        let (s1, e) = screen_action(s, actions[0]);
        if e is Some {
            (s1, e)
        } else {
            screen_actions(s1, actions.drop_first())
        }
    }
}

/// Whether `s` is the startup screen and has been shown for longer than
/// `STARTUP_MS` at time `now`.
pub open spec fn startup_done(s: Screen, now: u64) -> bool {
    match s {
        Screen::Startup { entered_at } => now >= entered_at && now - entered_at > STARTUP_MS,
        _ => false,
    }
}

/// The mode a screen belongs to.
pub open spec fn screen_mode(s: Screen) -> Mode {
    match s {
        Screen::Compose => Mode::Compose,
        Screen::Edit => Mode::Edit,
        _ => Mode::Play,
    }
}

/// The screen the machine moves to on `e` at time `now`.
pub open spec fn transition_spec(s: Screen, e: UiEvent, now: u64) -> Screen {
    match e {
        UiEvent::Initialized => Screen::Play { selected_menu: EngineMenu::Control },
        UiEvent::OpenModeMenu => Screen::Mode { selected_mode: screen_mode(s) },
        UiEvent::CloseModeMenu => match s {
            Screen::Mode { selected_mode } => match selected_mode {
                Mode::Play => Screen::Play { selected_menu: EngineMenu::Control },
                Mode::Compose => Screen::Compose,
                Mode::Edit => Screen::Edit,
            },
            _ => s,
        },
        UiEvent::Quit => s,
    }
}

impl Screen {
    /// The first screen, entered at time `now`.
    pub fn startup(now: u64) -> (r: Screen)
        ensures
            r == (Screen::Startup { entered_at: now }),
    {
        Screen::Startup { entered_at: now }
    }

    /// Takes one action.
    pub fn on_action(&mut self, a: ActionEvent) -> (r: Option<UiEvent>)
        ensures
            (*final(self), r) == screen_action(*old(self), a),
    {
        if a == ActionEvent::Quit {
            return Some(UiEvent::Quit);
        }
        match *self {
            Screen::Startup { .. } => None,
            Screen::Play { selected_menu } => {
                if a == ActionEvent::X {
                    Some(UiEvent::OpenModeMenu)
                } else if a == ActionEvent::Y {
                    *self = Screen::Play { selected_menu: selected_menu.next() };
                    None
                } else {
                    None
                }
            },
            Screen::Mode { selected_mode } => {
                if a == ActionEvent::X {
                    Some(UiEvent::CloseModeMenu)
                } else if a == ActionEvent::Y {
                    *self = Screen::Mode { selected_mode: selected_mode.next() };
                    None
                } else {
                    None
                }
            },
            Screen::Compose | Screen::Edit => {
                if a == ActionEvent::X {
                    Some(UiEvent::OpenModeMenu)
                } else {
                    None
                }
            },
        }
    }

    /// Takes the queued actions in order, stopping at the first that raises
    /// an event; the startup screen raises `Initialized` once it has been
    /// shown for longer than `STARTUP_MS` at time `now`.
    pub fn update(&mut self, actions: &Vec<ActionEvent>, now: u64) -> (r: Option<UiEvent>)
        ensures
            startup_done(*old(self), now) ==> (*final(self) == *old(self) && r == Some(
                UiEvent::Initialized,
            )),
            !startup_done(*old(self), now) ==> (*final(self), r) == screen_actions(
                *old(self),
                actions@,
            ),
    {
        match *self {
            Screen::Startup { entered_at } => {
                if now >= entered_at && now - entered_at > STARTUP_MS {
                    return Some(UiEvent::Initialized);
                }
            },
            _ => {},
        }
        let ghost start = *self;
        proof {
            assert(actions@.subrange(0, actions@.len() as int) =~= actions@);
        }
        let mut i: usize = 0;
        while i < actions.len()
            invariant
                i <= actions@.len(),
                start == *old(self),
                !startup_done(start, now),
                screen_actions(start, actions@) == screen_actions(
                    *self,
                    actions@.subrange(i as int, actions@.len() as int),
                ),
            decreases actions@.len() - i,
        {
            let ghost rest = actions@.subrange(i as int, actions@.len() as int);
            proof {
                assert(rest[0] == actions@[i as int]);
                assert(rest.drop_first() =~= actions@.subrange(i + 1, actions@.len() as int));
            }
            let e = self.on_action(actions[i]);
            if e.is_some() {
                return e;
            }
            i = i + 1;
        }
        proof {
            assert(actions@.subrange(i as int, actions@.len() as int).len() == 0);
        }
        None
    }

    /// The screen the machine moves to on `e` at time `now`.
    pub fn transition(&self, e: UiEvent, now: u64) -> (r: Screen)
        ensures
            r == transition_spec(*self, e, now),
    {
        match e {
            UiEvent::Initialized => Screen::Play { selected_menu: EngineMenu::Control },
            UiEvent::OpenModeMenu => {
                let mode = match self {
                    Screen::Compose => Mode::Compose,
                    Screen::Edit => Mode::Edit,
                    _ => Mode::Play,
                };
                Screen::Mode { selected_mode: mode }
            },
            UiEvent::CloseModeMenu => match self {
                Screen::Mode { selected_mode } => match selected_mode {
                    Mode::Play => Screen::Play { selected_menu: EngineMenu::Control },
                    Mode::Compose => Screen::Compose,
                    Mode::Edit => Screen::Edit,
                },
                _ => *self,
            },
            UiEvent::Quit => *self,
        }
    }
}

} // verus!
