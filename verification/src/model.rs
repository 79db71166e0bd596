//! The mathematical model of the menu: its state, what it shows, and what one
//! button press or release does to it.
//!
//! The device polls its buttons in a fixed order that depends on the menu
//! shown when the round of polling began (the "block"). While a button is
//! held, every poll is a press; the first one acts and marks the button held,
//! later ones do nothing; once it is let go, a release clears the mark.
use vstd::prelude::*;
use crate::alphabet::{password_alphabet, from_alphabet};
use crate::LINES_PER_SCREEN;

verus! {

/// The screens of the menu.
#[derive(Clone, Copy, PartialEq, Eq, Structural, Debug)]
pub enum Menu {
    /// Nothing shown, no button handled: where back from the main menu leads.
    Idle,
    /// The main menu: a list with the single entry "Wifi Settings".
    MainMenu,
    /// The list of the SSIDs in reach, rescanned each round.
    SsidList,
    /// Reached by selecting the second main menu line: no screen, no buttons.
    SecondItem,
    /// Reached by selecting the third main menu line: no screen, no buttons.
    ThirdItem,
    /// The chosen SSID and the prompt "Enter password".
    SsidChosen,
    /// The chosen SSID and the password typed so far.
    PasswordEntry,
    /// "PASSWORD ENTERED": select connects and saves the credentials.
    PasswordEntered,
}

/// The buttons of the device.
#[derive(Clone, Copy, PartialEq, Eq, Structural, Debug)]
pub enum Button {
    ScrollDown,
    Select,
    ScrollUp,
    Back,
}

/// The state of the menu, as mathematical values.
#[verifier::ext_equal]
pub struct MenuView {
    pub menu: Menu,
    /// The SSIDs of the last scan.
    pub ssids: Seq<Seq<char>>,
    /// The highlighted line of the visible window.
    pub selected: nat,
    /// The index of the first list entry shown.
    pub start: nat,
    /// The index at which the list wraps back to the top.
    pub end: nat,
    /// A select in the password screen is waiting for the next scroll to keep
    /// the character shown last.
    pub select_pending: bool,
    pub down_held: bool,
    pub select_held: bool,
    pub up_held: bool,
    pub back_held: bool,
    /// One select has been pressed in the password screen; a second one
    /// without another button between them accepts the password.
    pub double_click: bool,
    /// The alphabet entry shown as the password's last character.
    pub char_index: nat,
    /// The password characters typed so far, the one on show included.
    pub typed: Seq<char>,
    /// The password text on the screen.
    pub shown: Seq<char>,
    /// The accepted password.
    pub password: Seq<char>,
}

/// A line of text on the display.
#[verifier::ext_equal]
pub struct LineView {
    pub text: Seq<char>,
    /// Its vertical position, in pixels from the top.
    pub y: int,
    /// Drawn inverted, as the current selection.
    pub highlighted: bool,
}

impl MenuView {
    /// What every state of the menu satisfies.
    pub open spec fn wf(self) -> bool {
        &&& self.selected < LINES_PER_SCREEN
        &&& (self.end == self.start || self.end == self.start + 4)
        &&& self.end < usize::MAX
        &&& self.ssids.len() <= usize::MAX
        &&& self.char_index < 94
        &&& from_alphabet(self.typed)
        &&& from_alphabet(self.shown)
        &&& from_alphabet(self.password)
    }

    /// The position in the SSID list of the highlighted line.
    pub open spec fn chosen_index(self) -> int {
        self.start + self.selected as int
    }

    /// The highlighted SSID names an entry of the list.
    pub open spec fn has_chosen_ssid(self) -> bool {
        self.chosen_index() < self.ssids.len()
    }

    /// The highlighted SSID.
    pub open spec fn chosen_ssid(self) -> Seq<char> {
        self.ssids[self.chosen_index()]
    }
}

/// The state the device starts in, on the main menu, with the SSIDs of a
/// first scan.
pub open spec fn initial_view(ssids: Seq<Seq<char>>) -> MenuView {
    MenuView {
        menu: Menu::MainMenu,
        ssids,
        selected: 0,
        start: 0,
        end: 4,
        select_pending: false,
        down_held: false,
        select_held: false,
        up_held: false,
        back_held: false,
        double_click: false,
        char_index: 0,
        typed: Seq::empty(),
        shown: Seq::empty(),
        password: seq!['_'],
    }
}

/// The buttons polled, in order, in a round that began on `block`.
pub open spec fn button_order(block: Menu) -> Seq<Button> {
    match block {
        Menu::MainMenu => seq![Button::ScrollDown, Button::Select, Button::ScrollUp, Button::Back],
        Menu::SsidList => seq![Button::ScrollDown, Button::Select, Button::ScrollUp, Button::Back],
        Menu::SsidChosen => seq![Button::Select, Button::Back],
        Menu::PasswordEntry => seq![
            Button::ScrollDown,
            Button::Select,
            Button::Back,
            Button::ScrollUp,
        ],
        Menu::PasswordEntered => seq![Button::Select],
        _ => Seq::empty(),
    }
}

/// `block` reacts to `b`.
pub open spec fn responds_to(block: Menu, b: Button) -> bool {
    match block {
        Menu::MainMenu | Menu::SsidList | Menu::PasswordEntry => true,
        Menu::SsidChosen => b == Button::Select || b == Button::Back,
        Menu::PasswordEntered => b == Button::Select,
        _ => false,
    }
}

/// `b` has been pressed and not yet released.
pub open spec fn button_held(v: MenuView, b: Button) -> bool {
    match b {
        Button::ScrollDown => v.down_held,
        Button::Select => v.select_held,
        Button::ScrollUp => v.up_held,
        Button::Back => v.back_held,
    }
}

/// `v` with the held mark of `b` set to `h`.
pub open spec fn with_held(v: MenuView, b: Button, h: bool) -> MenuView {
    match b {
        Button::ScrollDown => MenuView { down_held: h, ..v },
        Button::Select => MenuView { select_held: h, ..v },
        Button::ScrollUp => MenuView { up_held: h, ..v },
        Button::Back => MenuView { back_held: h, ..v },
    }
}

/// Scrolling down a list: the highlight moves down; on the last screen line
/// the window moves instead; past the end of the SSID list it all goes back
/// to the top.
pub open spec fn list_scroll_down(v: MenuView) -> MenuView {
    let w = if v.selected == LINES_PER_SCREEN - 1 {
        MenuView { start: v.start + 1, end: v.end + 1, ..v }
    } else {
        MenuView { selected: v.selected + 1, ..v }
    };
    if w.end >= w.ssids.len() {
        MenuView { selected: 0, start: 0, end: (LINES_PER_SCREEN - 1) as nat, ..w }
    } else {
        w
    }
}

/// Scrolling up a list: the highlight moves up; on the first screen line the
/// window moves instead; at the very top nothing changes.
pub open spec fn list_scroll_up(v: MenuView) -> MenuView {
    if v.selected == 0 && v.start == 0 {
        v
    } else if v.selected == 0 {
        MenuView { start: (v.start - 1) as nat, end: (v.end - 1) as nat, ..v }
    } else {
        MenuView { selected: (v.selected - 1) as nat, ..v }
    }
}

/// Select in the main menu: the first three lines open their screen, with
/// the list window reset; other lines do nothing.
pub open spec fn main_menu_select(v: MenuView) -> MenuView {
    let w = MenuView { select_pending: false, ..v };
    if v.selected < 3 {
        let target = if v.selected == 0 {
            Menu::SsidList
        } else if v.selected == 1 {
            Menu::SecondItem
        } else {
            Menu::ThirdItem
        };
        MenuView { menu: target, start: 0, selected: 0, end: 0, ..w }
    } else {
        w
    }
}

/// The alphabet entry after `i` when scrolling down: 93 wraps to 1.
pub open spec fn next_char_index(i: nat) -> nat {
    if i + 1 == 94 {
        1
    } else {
        i + 1
    }
}

/// The alphabet entry after `i` when scrolling up: 1 wraps to 93.
pub open spec fn prev_char_index(i: nat) -> nat {
    if i == 1 {
        93
    } else {
        (i - 1) as nat
    }
}

/// A pending select keeps the shown character: it is appended once more, so
/// that the next scroll replaces the copy and not the kept one.
pub open spec fn commit_pending(v: MenuView) -> MenuView {
    if v.select_pending {
        MenuView {
            typed: v.typed.push(password_alphabet()[v.char_index as int]),
            select_pending: false,
            ..v
        }
    } else {
        v
    }
}

/// Shows alphabet entry `i` as the last password character, replacing the
/// last one typed, and cancels a started double click.
pub open spec fn show_char(v: MenuView, i: nat) -> MenuView {
    let kept = if v.typed.len() > 0 {
        v.typed.drop_last()
    } else {
        v.typed
    };
    let typed = kept.push(password_alphabet()[i as int]);
    MenuView { char_index: i, typed, shown: typed, double_click: false, ..v }
}

/// What a press of `b` in a round that began on `block` does, when `b` was
/// not held: the next state, and the credentials to connect with and save,
/// if any.
pub open spec fn press_action(v: MenuView, block: Menu, b: Button) -> (
    MenuView,
    Option<(Seq<char>, Seq<char>)>,
) {
    match block {
        Menu::MainMenu => match b {
            Button::ScrollDown => (list_scroll_down(v), None),
            Button::Select => (main_menu_select(v), None),
            Button::ScrollUp => (list_scroll_up(v), None),
            Button::Back => (MenuView { menu: Menu::Idle, ..v }, None),
        },
        Menu::SsidList => match b {
            Button::ScrollDown => (list_scroll_down(v), None),
            Button::Select => (MenuView { menu: Menu::SsidChosen, select_pending: false, ..v }, None),
            Button::ScrollUp => (list_scroll_up(v), None),
            Button::Back => (MenuView { menu: Menu::MainMenu, ..v }, None),
        },
        Menu::SsidChosen => match b {
            Button::Select => (
                MenuView { menu: Menu::PasswordEntry, select_pending: false, ..v },
                None,
            ),
            Button::Back => (MenuView { menu: Menu::SsidList, ..v }, None),
            _ => (v, None),
        },
        Menu::PasswordEntry => match b {
            Button::ScrollDown => (show_char(commit_pending(v), next_char_index(v.char_index)), None),
            Button::ScrollUp => (show_char(commit_pending(v), prev_char_index(v.char_index)), None),
            Button::Select => {
                let w = MenuView { select_pending: true, char_index: 0, ..v };
                if !v.double_click {
                    (MenuView { double_click: true, ..w }, None)
                } else {
                    (MenuView { password: v.shown, menu: Menu::PasswordEntered, ..w }, None)
                }
            },
            Button::Back => {
                if v.typed.len() > 0 {
                    (MenuView { typed: v.typed.drop_last(), double_click: false, ..v }, None)
                } else {
                    (MenuView { menu: Menu::SsidChosen, double_click: false, ..v }, None)
                }
            },
        },
        Menu::PasswordEntered => match b {
            Button::Select => (
                MenuView { shown: seq!['_'], typed: seq!['_'], menu: Menu::MainMenu, ..v },
                Some((v.chosen_ssid(), v.password)),
            ),
            _ => (v, None),
        },
        _ => (v, None),
    }
}

/// A poll that finds `b` pressed, in a round that began on `block`: the
/// first such poll acts and marks `b` held (the SSID screen's select leaves
/// the mark alone); while `b` is held, or when `block` does not react to it,
/// nothing changes.
pub open spec fn press(v: MenuView, block: Menu, b: Button) -> (
    MenuView,
    Option<(Seq<char>, Seq<char>)>,
) {
    if !responds_to(block, b) || button_held(v, b) {
        (v, None)
    } else {
        let (w, e) = press_action(v, block, b);
        if block == Menu::SsidChosen && b == Button::Select {
            (w, e)
        } else {
            (with_held(w, b, true), e)
        }
    }
}

/// A press that can be carried out: scrolling up the password alphabet from
/// its entry 0, or accepting credentials when no SSID is highlighted, has no
/// next state.
pub open spec fn press_defined(v: MenuView, block: Menu, b: Button) -> bool {
    (responds_to(block, b) && !button_held(v, b)) ==> {
        &&& (block == Menu::PasswordEntry && b == Button::ScrollUp) ==> v.char_index > 0
        &&& (block == Menu::PasswordEntered && b == Button::Select) ==> v.has_chosen_ssid()
    }
}

/// A poll that finds `b` let go after it was held.
pub open spec fn release(v: MenuView, b: Button) -> MenuView {
    with_held(v, b, false)
}

/// The lines of the main menu.
pub open spec fn main_menu_items() -> Seq<Seq<char>> {
    seq!["Wifi Settings"@]
}

/// At most `LINES_PER_SCREEN` entries of `items` from `start` on, one per
/// 12 pixels, the `selected`-th highlighted.
pub open spec fn list_window(items: Seq<Seq<char>>, start: nat, selected: nat) -> Seq<LineView> {
    let n: int = if start >= items.len() {
        0
    } else if items.len() - start < LINES_PER_SCREEN {
        items.len() - start
    } else {
        LINES_PER_SCREEN as int
    };
    Seq::new(
        n as nat,
        |i: int| LineView { text: items[start + i], y: 12 * i, highlighted: i == selected },
    )
}

/// What the display shows in state `v`.
pub open spec fn screen_lines(v: MenuView) -> Seq<LineView> {
    match v.menu {
        Menu::MainMenu => list_window(main_menu_items(), v.start, v.selected),
        Menu::SsidList => list_window(v.ssids, v.start, v.selected),
        Menu::SsidChosen => seq![
            LineView { text: v.chosen_ssid(), y: 0, highlighted: false },
            LineView { text: "Enter password"@, y: 12, highlighted: true },
        ],
        Menu::PasswordEntry => seq![
            LineView { text: v.chosen_ssid(), y: 0, highlighted: false },
            LineView { text: "temp_password:"@, y: 12, highlighted: true },
            LineView { text: v.shown, y: 30, highlighted: false },
        ],
        Menu::PasswordEntered => seq![
            LineView { text: "PASSWORD ENTERED"@, y: 0, highlighted: true },
        ],
        _ => Seq::empty(),
    }
}

/// The screen of `v` can be drawn: the screens that name the chosen SSID
/// need one.
pub open spec fn screen_defined(v: MenuView) -> bool {
    (v.menu == Menu::SsidChosen || v.menu == Menu::PasswordEntry) ==> v.has_chosen_ssid()
}

} // verus!
