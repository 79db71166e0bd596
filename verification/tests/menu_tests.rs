use wifi_menu::alphabet::password_char;
use wifi_menu::menu::WifiMenu;
use wifi_menu::model::{Button, Menu};

fn ssids(names: &[&str]) -> Vec<String> {
    names.iter().map(|s| s.to_string()).collect()
}

fn shown(m: &WifiMenu) -> Vec<(String, i32, bool)> {
    assert!(m.can_show());
    m.screen().into_iter().map(|l| (l.text, l.y, l.highlighted)).collect()
}

fn line(t: &str, y: i32, h: bool) -> (String, i32, bool) {
    (t.to_string(), y, h)
}

/// One press and release of `b` in a round that began on `block`.
fn click(m: &mut WifiMenu, block: Menu, b: Button) -> Option<(String, String)> {
    assert!(m.can_press(block, b));
    let r = m.press(block, b).map(|c| (c.ssid, c.password));
    m.release(b);
    r
}

fn at_password_screen(names: &[&str]) -> WifiMenu {
    let mut m = WifiMenu::new(ssids(names));
    click(&mut m, Menu::MainMenu, Button::Select);
    click(&mut m, Menu::SsidList, Button::Select);
    click(&mut m, Menu::SsidChosen, Button::Select);
    assert_eq!(m.current(), Menu::PasswordEntry);
    m
}

#[test]
fn starts_on_the_main_menu() {
    let m = WifiMenu::new(ssids(&["Home"]));
    assert_eq!(m.current(), Menu::MainMenu);
    assert_eq!(shown(&m), vec![line("Wifi Settings", 0, true)]);
}

#[test]
fn buttons_polled_per_screen() {
    assert_eq!(
        WifiMenu::buttons(Menu::MainMenu),
        vec![Button::ScrollDown, Button::Select, Button::ScrollUp, Button::Back]
    );
    assert_eq!(
        WifiMenu::buttons(Menu::PasswordEntry),
        vec![Button::ScrollDown, Button::Select, Button::Back, Button::ScrollUp]
    );
    assert_eq!(WifiMenu::buttons(Menu::SsidChosen), vec![Button::Select, Button::Back]);
    assert_eq!(WifiMenu::buttons(Menu::PasswordEntered), vec![Button::Select]);
    assert!(WifiMenu::buttons(Menu::Idle).is_empty());
    assert!(WifiMenu::responds(Menu::SsidChosen, Button::Back));
    assert!(!WifiMenu::responds(Menu::SsidChosen, Button::ScrollDown));
}

#[test]
fn wifi_settings_opens_the_ssid_list() {
    let mut m = WifiMenu::new(ssids(&["Home", "Cafe"]));
    click(&mut m, Menu::MainMenu, Button::Select);
    assert_eq!(m.current(), Menu::SsidList);
    assert_eq!(shown(&m), vec![line("Home", 0, true), line("Cafe", 12, false)]);
}

#[test]
fn rescan_replaces_the_list() {
    let mut m = WifiMenu::new(ssids(&["Home"]));
    click(&mut m, Menu::MainMenu, Button::Select);
    m.set_ssids(ssids(&["A", "B", "C"]));
    assert_eq!(shown(&m), vec![line("A", 0, true), line("B", 12, false), line("C", 24, false)]);
}

#[test]
fn scrolling_moves_the_highlight() {
    let mut m = WifiMenu::new(ssids(&["A", "B", "C"]));
    click(&mut m, Menu::MainMenu, Button::Select);
    click(&mut m, Menu::SsidList, Button::ScrollDown);
    assert_eq!(shown(&m), vec![line("A", 0, false), line("B", 12, true), line("C", 24, false)]);
    click(&mut m, Menu::SsidList, Button::ScrollUp);
    assert_eq!(shown(&m), vec![line("A", 0, true), line("B", 12, false), line("C", 24, false)]);
    click(&mut m, Menu::SsidList, Button::ScrollUp);
    assert_eq!(shown(&m), vec![line("A", 0, true), line("B", 12, false), line("C", 24, false)]);
}

#[test]
fn long_list_scrolls_its_window_then_wraps_to_top() {
    let names = ["s0", "s1", "s2", "s3", "s4", "s5", "s6"];
    let mut m = WifiMenu::new(ssids(&names));
    click(&mut m, Menu::MainMenu, Button::Select);
    // Entering the list resets the window with its wrap mark on the first line.
    for _ in 0..4 {
        click(&mut m, Menu::SsidList, Button::ScrollDown);
    }
    assert_eq!(shown(&m)[4], line("s4", 48, true));
    click(&mut m, Menu::SsidList, Button::ScrollDown);
    assert_eq!(
        shown(&m),
        vec![
            line("s1", 0, false),
            line("s2", 12, false),
            line("s3", 24, false),
            line("s4", 36, false),
            line("s5", 48, true),
        ]
    );
    for _ in 0..6 {
        click(&mut m, Menu::SsidList, Button::ScrollDown);
    }
    // The wrap mark reached the end of the list: back to the top.
    assert_eq!(shown(&m)[0], line("s0", 0, true));
    click(&mut m, Menu::SsidList, Button::ScrollUp);
    assert_eq!(shown(&m)[0], line("s0", 0, true));
}

#[test]
fn scrolling_past_a_short_list_leaves_no_line_highlighted() {
    let mut m = WifiMenu::new(ssids(&["A", "B"]));
    click(&mut m, Menu::MainMenu, Button::Select);
    click(&mut m, Menu::SsidList, Button::ScrollDown);
    click(&mut m, Menu::SsidList, Button::ScrollDown);
    assert_eq!(shown(&m), vec![line("A", 0, false), line("B", 12, false)]);
}

#[test]
fn main_menu_scroll_wraps_with_the_ssid_count() {
    let mut m = WifiMenu::new(ssids(&["A"]));
    click(&mut m, Menu::MainMenu, Button::ScrollDown);
    // The wrap mark (4) is past the one SSID: back to the top.
    assert_eq!(shown(&m), vec![line("Wifi Settings", 0, true)]);
}

#[test]
fn second_main_menu_line_opens_an_empty_screen() {
    let names = ["a", "b", "c", "d", "e", "f", "g"];
    let mut m = WifiMenu::new(ssids(&names));
    click(&mut m, Menu::MainMenu, Button::ScrollDown);
    assert_eq!(shown(&m), vec![line("Wifi Settings", 0, false)]);
    click(&mut m, Menu::MainMenu, Button::Select);
    assert_eq!(m.current(), Menu::SecondItem);
    assert!(shown(&m).is_empty());
    assert!(m.press(Menu::SecondItem, Button::Back).is_none());
    assert_eq!(m.current(), Menu::SecondItem);
}

#[test]
fn back_walks_up_the_menus() {
    let mut m = WifiMenu::new(ssids(&["Home"]));
    click(&mut m, Menu::MainMenu, Button::Select);
    click(&mut m, Menu::SsidList, Button::Select);
    assert_eq!(m.current(), Menu::SsidChosen);
    click(&mut m, Menu::SsidChosen, Button::Back);
    assert_eq!(m.current(), Menu::SsidList);
    click(&mut m, Menu::SsidList, Button::Back);
    assert_eq!(m.current(), Menu::MainMenu);
    click(&mut m, Menu::MainMenu, Button::Back);
    assert_eq!(m.current(), Menu::Idle);
    assert!(shown(&m).is_empty());
}

#[test]
fn chosen_ssid_screen() {
    let mut m = WifiMenu::new(ssids(&["Home", "Cafe"]));
    click(&mut m, Menu::MainMenu, Button::Select);
    click(&mut m, Menu::SsidList, Button::ScrollDown);
    click(&mut m, Menu::SsidList, Button::Select);
    assert_eq!(shown(&m), vec![line("Cafe", 0, false), line("Enter password", 12, true)]);
}

#[test]
fn chosen_screen_needs_an_ssid() {
    let mut m = WifiMenu::new(Vec::new());
    click(&mut m, Menu::MainMenu, Button::Select);
    click(&mut m, Menu::SsidList, Button::Select);
    assert_eq!(m.current(), Menu::SsidChosen);
    assert!(!m.can_show());
}

#[test]
fn a_held_button_acts_once() {
    let mut m = WifiMenu::new(ssids(&["A", "B", "C"]));
    click(&mut m, Menu::MainMenu, Button::Select);
    assert!(m.press(Menu::SsidList, Button::ScrollDown).is_none());
    assert!(m.is_held(Button::ScrollDown));
    m.press(Menu::SsidList, Button::ScrollDown);
    m.press(Menu::SsidList, Button::ScrollDown);
    assert_eq!(shown(&m)[1], line("B", 12, true));
    m.release(Button::ScrollDown);
    assert!(!m.is_held(Button::ScrollDown));
    m.press(Menu::SsidList, Button::ScrollDown);
    assert_eq!(shown(&m)[2], line("C", 24, true));
}

#[test]
fn a_round_keeps_the_handlers_of_its_first_screen() {
    // Select and back in one round of the SSID list: back still acts as the
    // list's back, returning to the main menu.
    let mut m = WifiMenu::new(ssids(&["Home"]));
    click(&mut m, Menu::MainMenu, Button::Select);
    click(&mut m, Menu::SsidList, Button::Select);
    click(&mut m, Menu::SsidList, Button::Back);
    assert_eq!(m.current(), Menu::MainMenu);
}

#[test]
fn scrolling_shows_password_characters() {
    let mut m = at_password_screen(&["Home"]);
    assert_eq!(
        shown(&m),
        vec![line("Home", 0, false), line("temp_password:", 12, true), line("", 30, false)]
    );
    click(&mut m, Menu::PasswordEntry, Button::ScrollDown);
    assert_eq!(shown(&m)[2], line("A", 30, false));
    click(&mut m, Menu::PasswordEntry, Button::ScrollDown);
    assert_eq!(shown(&m)[2], line("B", 30, false));
    click(&mut m, Menu::PasswordEntry, Button::ScrollUp);
    assert_eq!(shown(&m)[2], line("A", 30, false));
    click(&mut m, Menu::PasswordEntry, Button::ScrollUp);
    assert_eq!(shown(&m)[2], line("\\", 30, false));
    click(&mut m, Menu::PasswordEntry, Button::ScrollDown);
    assert_eq!(shown(&m)[2], line("A", 30, false));
}

#[test]
fn scrolling_up_first_cannot_be_carried_out() {
    let m = at_password_screen(&["Home"]);
    assert!(!m.can_press(Menu::PasswordEntry, Button::ScrollUp));
    assert!(m.can_press(Menu::PasswordEntry, Button::ScrollDown));
}

#[test]
fn select_keeps_a_character_and_starts_the_next() {
    let mut m = at_password_screen(&["Home"]);
    click(&mut m, Menu::PasswordEntry, Button::ScrollDown);
    click(&mut m, Menu::PasswordEntry, Button::ScrollDown);
    click(&mut m, Menu::PasswordEntry, Button::Select);
    assert_eq!(m.current(), Menu::PasswordEntry);
    click(&mut m, Menu::PasswordEntry, Button::ScrollDown);
    assert_eq!(shown(&m)[2], line("BA", 30, false));
}

#[test]
fn double_select_accepts_and_third_select_connects() {
    let mut m = at_password_screen(&["Home", "Cafe"]);
    click(&mut m, Menu::PasswordEntry, Button::ScrollDown);
    click(&mut m, Menu::PasswordEntry, Button::ScrollDown);
    click(&mut m, Menu::PasswordEntry, Button::Select);
    click(&mut m, Menu::PasswordEntry, Button::ScrollDown);
    assert!(click(&mut m, Menu::PasswordEntry, Button::Select).is_none());
    assert!(click(&mut m, Menu::PasswordEntry, Button::Select).is_none());
    assert_eq!(m.current(), Menu::PasswordEntered);
    assert_eq!(shown(&m), vec![line("PASSWORD ENTERED", 0, true)]);
    let creds = click(&mut m, Menu::PasswordEntered, Button::Select);
    assert_eq!(creds, Some(("Home".to_string(), "BA".to_string())));
    assert_eq!(m.current(), Menu::MainMenu);
}

#[test]
fn accepted_entry_restarts_from_underscore() {
    let mut m = at_password_screen(&["Home"]);
    click(&mut m, Menu::PasswordEntry, Button::ScrollDown);
    click(&mut m, Menu::PasswordEntry, Button::Select);
    click(&mut m, Menu::PasswordEntry, Button::Select);
    click(&mut m, Menu::PasswordEntered, Button::Select);
    click(&mut m, Menu::MainMenu, Button::Select);
    click(&mut m, Menu::SsidList, Button::Select);
    click(&mut m, Menu::SsidChosen, Button::Select);
    assert_eq!(shown(&m)[2], line("_", 30, false));
}

#[test]
fn other_button_cancels_double_click() {
    let mut m = at_password_screen(&["Home"]);
    click(&mut m, Menu::PasswordEntry, Button::ScrollDown);
    click(&mut m, Menu::PasswordEntry, Button::Select);
    click(&mut m, Menu::PasswordEntry, Button::ScrollDown);
    click(&mut m, Menu::PasswordEntry, Button::Select);
    assert_eq!(m.current(), Menu::PasswordEntry);
}

#[test]
fn back_deletes_characters_then_leaves() {
    let mut m = at_password_screen(&["Home"]);
    click(&mut m, Menu::PasswordEntry, Button::ScrollDown);
    click(&mut m, Menu::PasswordEntry, Button::Select);
    click(&mut m, Menu::PasswordEntry, Button::ScrollDown);
    assert_eq!(shown(&m)[2], line("AA", 30, false));
    click(&mut m, Menu::PasswordEntry, Button::Back);
    assert_eq!(m.current(), Menu::PasswordEntry);
    click(&mut m, Menu::PasswordEntry, Button::Back);
    assert_eq!(m.current(), Menu::PasswordEntry);
    click(&mut m, Menu::PasswordEntry, Button::Back);
    assert_eq!(m.current(), Menu::SsidChosen);
}

#[test]
fn accepting_needs_an_ssid() {
    let mut m = at_password_screen(&["Home"]);
    click(&mut m, Menu::PasswordEntry, Button::Select);
    click(&mut m, Menu::PasswordEntry, Button::Select);
    m.set_ssids(Vec::new());
    assert!(!m.can_press(Menu::PasswordEntered, Button::Select));
}

#[test]
fn password_alphabet_entries() {
    assert_eq!(password_char(0), '_');
    assert_eq!(password_char(1), 'A');
    assert_eq!(password_char(26), 'Z');
    assert_eq!(password_char(27), 'a');
    assert_eq!(password_char(52), 'z');
    assert_eq!(password_char(53), '0');
    assert_eq!(password_char(62), '9');
    assert_eq!(password_char(63), '!');
    assert_eq!(password_char(74), '_');
    assert_eq!(password_char(93), '\\');
}
