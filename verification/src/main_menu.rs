//! The main menu: its buttons, how they look and what they trigger.

use crate::color::Rgb;
use crate::input::{just_released, released_buttons, PointerButton};
use crate::state::{spec_scheduled, AppState, Request, Stage, System};
use crate::ui::{Align, Direction, Edges, Length};
use bevy::input::mouse::MouseButton;
use bevy::input::ButtonInput;
use vstd::prelude::*;

verus! {

/// Whether two texts hold the same characters.
fn same_text(a: &str, b: &str) -> (same: bool)
    ensures
        same == (a@ == b@),
{
    let x = a.as_bytes();
    let y = b.as_bytes();
    proof {
        // Equal encodings decode to equal texts.
        vstd::utf8::encode_utf8_decode_utf8(a@);
        vstd::utf8::encode_utf8_decode_utf8(b@);
    }
    if x.len() != y.len() {
        return false;
    }
    let mut i: usize = 0;
    while i < x.len()
        invariant
            i <= x.len(),
            x.len() == y.len(),
            forall|k: int| 0 <= k < i ==> x@[k] == y@[k],
            x@ == y@ ==> a@ == b@,
            a@ == b@ ==> x@ == y@,
        decreases x.len() - i,
    {
        if x[i] != y[i] {
            return false;
        }
        i += 1;
    }
    assert(x@ =~= y@);
    true
}

/// The buttons of the main menu. A button is told from the others by the
/// text that it shows: the text is its identity.
#[derive(Clone, Copy, PartialEq, Eq, Hash, Debug, Structural)]
pub enum MenuButton {
    Start,
    Continue,
    Options,
    Quit,
}

impl MenuButton {
    /// The text that the button shows.
    pub open spec fn spec_text(self) -> Seq<char> {
        match self {
            MenuButton::Start => "Start"@,
            MenuButton::Continue => "Continue"@,
            MenuButton::Options => "Options"@,
            MenuButton::Quit => "Quit"@,
        }
    }

    /// The button that shows `text`, if there is one.
    pub open spec fn spec_from_text(text: Seq<char>) -> Option<MenuButton> {
        if text == "Start"@ {
            Some(MenuButton::Start)
        } else if text == "Continue"@ {
            Some(MenuButton::Continue)
        } else if text == "Options"@ {
            Some(MenuButton::Options)
        } else if text == "Quit"@ {
            Some(MenuButton::Quit)
        } else {
            None
        }
    }

    /// What a click on the button asks of the host engine.
    pub open spec fn spec_on_click(self) -> Request {
        match self {
            MenuButton::Start => Request::Enter(AppState::InGame),
            MenuButton::Continue => Request::Nothing,
            MenuButton::Options => Request::Nothing,
            MenuButton::Quit => Request::Exit,
        }
    }

    /// The text that the button shows.
    pub fn text(self) -> (text: &'static str)
        ensures
            text@ == self.spec_text(),
    {
        match self {
            MenuButton::Start => "Start",
            MenuButton::Continue => "Continue",
            MenuButton::Options => "Options",
            MenuButton::Quit => "Quit",
        }
    }

    /// Finds the button that shows `text`; `None` where no button does.
    pub fn from_text(text: &str) -> (button: Option<MenuButton>)
        ensures
            button == Self::spec_from_text(text@),
    {
        if same_text(text, "Start") {
            Some(MenuButton::Start)
        } else if same_text(text, "Continue") {
            Some(MenuButton::Continue)
        } else if same_text(text, "Options") {
            Some(MenuButton::Options)
        } else if same_text(text, "Quit") {
            Some(MenuButton::Quit)
        } else {
            None
        }
    }

    /// What a click on the button asks of the host engine: "Start" enters the
    /// game, "Quit" ends the application, the other two do nothing yet.
    pub fn on_click(self) -> (request: Request)
        ensures
            request == self.spec_on_click(),
    {
        match self {
            MenuButton::Start => Request::Enter(AppState::InGame),
            MenuButton::Continue => Request::Nothing,
            MenuButton::Options => Request::Nothing,
            MenuButton::Quit => Request::Exit,
        }
    }
}

/// The four texts have four different lengths.
proof fn lemma_texts_differ()
    ensures
        "Start"@.len() == 5,
        "Continue"@.len() == 8,
        "Options"@.len() == 7,
        "Quit"@.len() == 4,
{
    reveal_strlit("Start");
    reveal_strlit("Continue");
    reveal_strlit("Options");
    reveal_strlit("Quit");
}

/// The text of a button names that button and no other.
pub proof fn lemma_text_names_button(button: MenuButton)
    ensures
        MenuButton::spec_from_text(button.spec_text()) == Some(button),
{
    lemma_texts_differ();
}

/// A text that names a button is the text which that button shows.
pub proof fn lemma_button_shows_text(text: Seq<char>, button: MenuButton)
    requires
        MenuButton::spec_from_text(text) == Some(button),
    ensures
        button.spec_text() == text,
{
}

/// How the pointer stands to a button.
#[derive(Clone, Copy, PartialEq, Eq, Hash, Debug, Structural)]
pub enum Interaction {
    /// The pointer is on the button, with a mouse button held down.
    Pressed,
    /// The pointer is on the button.
    Hovered,
    /// The pointer is elsewhere.
    Idle,
}

/// The two colours of a button: `inner` fills it, `outer` draws its border.
#[derive(Clone, Copy, PartialEq, Eq, Hash, Debug, Structural)]
pub struct ButtonColors {
    pub inner: Rgb,
    pub outer: Rgb,
}

/// What becomes of a button, and of the application, when the pointer has
/// moved on or off the button.
#[derive(Clone, Copy, PartialEq, Eq, Hash, Debug, Structural)]
pub struct ButtonUpdate {
    /// The colours that the button takes.
    pub colors: ButtonColors,
    /// What the host engine is asked to do.
    pub request: Request,
}

/// The colours that a button has under `interaction`.
pub open spec fn spec_button_colors(interaction: Interaction) -> ButtonColors {
    match interaction {
        Interaction::Hovered => ButtonColors {
            inner: Rgb { red: 50, green: 50, blue: 100 },
            outer: Rgb { red: 40, green: 40, blue: 20 },
        },
        Interaction::Pressed => ButtonColors {
            inner: Rgb { red: 30, green: 30, blue: 50 },
            outer: Rgb { red: 60, green: 60, blue: 20 },
        },
        Interaction::Idle => ButtonColors {
            inner: Rgb { red: 50, green: 50, blue: 50 },
            outer: Rgb { red: 20, green: 20, blue: 20 },
        },
    }
}

/// A click counts when the button is let go over the button, not when it
/// goes down: the pointer hovers, and the mouse button was just released.
pub open spec fn clicked(interaction: Interaction, released: bool) -> bool {
    interaction == Interaction::Hovered && released
}

/// What happens to the button that shows `text` under `interaction`, where
/// `released` says whether the left mouse button was just let go.
///
/// The colours follow the interaction alone. A click asks for what the
/// button stands for, and anything else asks for nothing. There is no
/// answer for a click on a text that names no button.
pub open spec fn spec_button_update(
    interaction: Interaction,
    text: Seq<char>,
    released: bool,
) -> Option<ButtonUpdate> {
    if !clicked(interaction, released) {
        Some(ButtonUpdate { colors: spec_button_colors(interaction), request: Request::Nothing })
    } else {
        match MenuButton::spec_from_text(text) {
            Some(button) => Some(
                ButtonUpdate {
                    colors: spec_button_colors(interaction),
                    request: button.spec_on_click(),
                },
            ),
            None => None,
        }
    }
}

/// The colours of a button under `interaction`.
pub fn button_colors(interaction: Interaction) -> (colors: ButtonColors)
    ensures
        colors == spec_button_colors(interaction),
{
    match interaction {
        Interaction::Hovered => ButtonColors {
            inner: Rgb::new(50, 50, 100),
            outer: Rgb::new(40, 40, 20),
        },
        Interaction::Pressed => ButtonColors {
            inner: Rgb::new(30, 30, 50),
            outer: Rgb::new(60, 60, 20),
        },
        Interaction::Idle => ButtonColors {
            inner: Rgb::new(50, 50, 50),
            outer: Rgb::new(20, 20, 20),
        },
    }
}

/// Decides what happens to the button that shows `text`, given how the
/// pointer stands to it and whether the left mouse button was just let go.
/// `None` says that a click fell on a text that names no button.
pub fn button_update(
    interaction: Interaction,
    text: &str,
    released: bool,
) -> (update: Option<ButtonUpdate>)
    ensures
        update == spec_button_update(interaction, text@, released),
{
    let colors = button_colors(interaction);
    let hovered = match interaction {
        Interaction::Hovered => true,
        _ => false,
    };
    if hovered && released {
        match MenuButton::from_text(text) {
            Some(button) => Some(ButtonUpdate { colors, request: button.on_click() }),
            None => None,
        }
    } else {
        Some(ButtonUpdate { colors, request: Request::Nothing })
    }
}

/// Handles one button of the menu whose interaction has changed: reads from
/// `mouse` whether the left button was just let go, and decides as
/// [`button_update`] does.
pub fn update_menu(
    interaction: Interaction,
    text: &str,
    mouse: &ButtonInput<MouseButton>,
) -> (update: Option<ButtonUpdate>)
    ensures
        update == spec_button_update(
            interaction,
            text@,
            released_buttons(*mouse).contains(PointerButton::Left),
        ),
{
    let is_released = just_released(mouse, PointerButton::Left);
    button_update(interaction, text, is_released)
}

/// The state that follows `state` after a frame in which the pointer met
/// the button that shows `text`. The menu handles the button only where its
/// update is scheduled for `state`; elsewhere the state stays. There is no
/// next state where the menu has no answer.
pub open spec fn spec_state_after(
    state: AppState,
    interaction: Interaction,
    text: Seq<char>,
    released: bool,
) -> Option<AppState> {
    if spec_scheduled(Stage::Update, state) == Some(System::UpdateMenu) {
        match spec_button_update(interaction, text, released) {
            Some(update) => Some(state.spec_after(update.request)),
            None => None,
        }
    } else {
        Some(state)
    }
}

/// The only change of state is from the main menu into the game, and it
/// happens exactly when the left mouse button is let go over "Start".
/// Nothing leaves the game, and nothing enters the pause. The one case
/// without a next state is a click, on the main menu, on a text that names
/// no button.
pub proof fn lemma_only_start_enters_game(
    state: AppState,
    interaction: Interaction,
    text: Seq<char>,
    released: bool,
)
    ensures
        match spec_state_after(state, interaction, text, released) {
            Some(next) => {
                &&& next != state <==> state == AppState::MainMenu && clicked(interaction, released)
                    && text == "Start"@
                &&& next != state ==> next == AppState::InGame
            },
            None => {
                &&& state == AppState::MainMenu
                &&& clicked(interaction, released)
                &&& MenuButton::spec_from_text(text) is None
            },
        },
{
    lemma_texts_differ();
}

/// A button as the menu builds it: a bordered box with one line of text.
#[derive(PartialEq, Eq, Debug)]
pub struct UiButton {
    /// The text that the button shows, and by which it is known.
    pub text: String,
    pub width: Length,
    pub height: Length,
    pub justify_content: Align,
    pub align_items: Align,
    pub border: Edges,
    pub margin: Edges,
    pub colors: ButtonColors,
}

/// The main menu as it is built: a node over the whole width that holds the
/// buttons in a column.
#[derive(PartialEq, Eq, Debug)]
pub struct Menu {
    pub width: Length,
    pub align_items: Align,
    pub justify_content: Align,
    pub direction: Direction,
    pub background: Rgb,
    /// The buttons, from the top down.
    pub buttons: Vec<UiButton>,
}

/// The button that shows `text`: 150 by 50 pixels, its text in the middle,
/// with a border and a margin of 5 pixels on every side, in the colours of
/// a button that the pointer is not on.
pub open spec fn spec_ui_button(text: String) -> UiButton {
    UiButton {
        text,
        width: Length::Px(150),
        height: Length::Px(50),
        justify_content: Align::Center,
        align_items: Align::Center,
        border: Edges {
            left: Length::Px(5),
            right: Length::Px(5),
            top: Length::Px(5),
            bottom: Length::Px(5),
        },
        margin: Edges {
            left: Length::Px(5),
            right: Length::Px(5),
            top: Length::Px(5),
            bottom: Length::Px(5),
        },
        colors: spec_button_colors(Interaction::Idle),
    }
}

/// The buttons of the main menu, from the top down.
pub open spec fn spec_menu_buttons() -> Seq<MenuButton> {
    seq![MenuButton::Start, MenuButton::Continue, MenuButton::Options, MenuButton::Quit]
}

impl Menu {
    /// Whether this is the main menu: centred on a dark red ground, with
    /// one button for each of [`spec_menu_buttons`], in that order, each
    /// built as [`spec_ui_button`] says and known by its text.
    pub open spec fn is_main_menu(self) -> bool {
        &&& self.width == Length::Percent(100)
        &&& self.align_items == Align::Center
        &&& self.justify_content == Align::Center
        &&& self.direction == Direction::Column
        &&& self.background == Rgb { red: 50, green: 20, blue: 20 }
        &&& self.buttons@.len() == spec_menu_buttons().len()
        &&& forall|i: int|
            0 <= i < self.buttons@.len() ==> {
                &&& #[trigger] self.buttons@[i] == spec_ui_button(self.buttons@[i].text)
                &&& self.buttons@[i].text@ == spec_menu_buttons()[i].spec_text()
            }
    }
}

/// Builds the button that shows `text`.
pub fn create_ui_button(text: String) -> (button: UiButton)
    ensures
        button == spec_ui_button(text),
{
    UiButton {
        text,
        width: Length::Px(150),
        height: Length::Px(50),
        justify_content: Align::Center,
        align_items: Align::Center,
        border: Edges::all(Length::Px(5)),
        margin: Edges::all(Length::Px(5)),
        colors: button_colors(Interaction::Idle),
    }
}

/// Builds the main menu.
pub fn setup_menu() -> (menu: Menu)
    ensures
        menu.is_main_menu(),
{
    let mut buttons: Vec<UiButton> = Vec::new();
    buttons.push(create_ui_button(MenuButton::Start.text().to_owned()));
    buttons.push(create_ui_button(MenuButton::Continue.text().to_owned()));
    buttons.push(create_ui_button(MenuButton::Options.text().to_owned()));
    buttons.push(create_ui_button(MenuButton::Quit.text().to_owned()));
    Menu {
        width: Length::Percent(100),
        align_items: Align::Center,
        justify_content: Align::Center,
        direction: Direction::Column,
        background: Rgb::new(50, 20, 20),
        buttons,
    }
}

/// Every button of the main menu answers to its text: over whichever of
/// them a click falls, the menu knows what to do.
pub proof fn lemma_menu_buttons_answer(menu: Menu, i: int, interaction: Interaction, released: bool)
    requires
        menu.is_main_menu(),
        0 <= i < menu.buttons@.len(),
    ensures
        MenuButton::spec_from_text(menu.buttons@[i].text@) == Some(spec_menu_buttons()[i]),
        spec_button_update(interaction, menu.buttons@[i].text@, released) is Some,
{
    lemma_text_names_button(spec_menu_buttons()[i]);
}

} // verus!
