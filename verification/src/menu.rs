//! The menu of the device: the state that its loop keeps between rounds, and
//! the decisions that a button poll or a redraw makes on it. Each function
//! here is proved to do what `crate::model` says.
use vstd::prelude::*;
use crate::alphabet::{password_char, lemma_alphabet_entry, ALPHABET_LEN};
use crate::model::{
    Menu, Button, MenuView, LineView, initial_view, button_order, responds_to, button_held,
    with_held, list_scroll_down, list_scroll_up, main_menu_select, next_char_index,
    prev_char_index, commit_pending, show_char, press_action, press, press_defined, release,
    main_menu_items, list_window, screen_lines, screen_defined,
};
use crate::text::{push_char, string_of, string_views};
use crate::LINES_PER_SCREEN;

verus! {

/// The network and password to connect with, and then to save.
pub struct Credentials {
    pub ssid: String,
    pub password: String,
}

/// A line of text to draw.
pub struct TextLine {
    pub text: String,
    /// Pixels from the top of the display.
    pub y: i32,
    /// Drawn inverted.
    pub highlighted: bool,
}

/// The mathematical value of each line.
pub open spec fn line_views(lines: Seq<TextLine>) -> Seq<LineView> {
    lines.map_values(
        |l: TextLine| LineView { text: l.text@, y: l.y as int, highlighted: l.highlighted },
    )
}

/// The mathematical value of a press's result.
pub open spec fn credentials_view(c: Option<Credentials>) -> Option<(Seq<char>, Seq<char>)> {
    match c {
        Some(c) => Some((c.ssid@, c.password@)),
        None => None,
    }
}

/// The menu's state.
pub struct WifiMenu {
    menu: Menu,
    ssids: Vec<String>,
    selected: usize,
    start: usize,
    end: usize,
    select_pending: bool,
    down_held: bool,
    select_held: bool,
    up_held: bool,
    back_held: bool,
    double_click: bool,
    char_index: usize,
    typed: Vec<char>,
    shown: String,
    password: String,
}

impl View for WifiMenu {
    type V = MenuView;

    closed spec fn view(&self) -> MenuView {
        MenuView {
            menu: self.menu,
            ssids: string_views(self.ssids@),
            selected: self.selected as nat,
            start: self.start as nat,
            end: self.end as nat,
            select_pending: self.select_pending,
            down_held: self.down_held,
            select_held: self.select_held,
            up_held: self.up_held,
            back_held: self.back_held,
            double_click: self.double_click,
            char_index: self.char_index as nat,
            typed: self.typed@,
            shown: self.shown@,
            password: self.password@,
        }
    }
}

/// The string `"_"`.
fn underscore() -> (r: String)
    ensures
        r@ == seq!['_'],
{
    let mut r = String::new();
    push_char(&mut r, '_');
    assert(r@ =~= seq!['_']);
    r
}

impl WifiMenu {
    /// The state satisfies the menu's invariant.
    pub open spec fn wf(&self) -> bool {
        self@.wf()
    }

    /// The menu as the device starts: on the main menu, with the SSIDs of a
    /// first scan.
    pub fn new(ssids: Vec<String>) -> (m: WifiMenu)
        ensures
            m.wf(),
            m@ == initial_view(string_views(ssids@)),
    {
        let m = WifiMenu {
            menu: Menu::MainMenu,
            ssids,
            selected: 0,
            start: 0,
            end: LINES_PER_SCREEN - 1,
            select_pending: false,
            down_held: false,
            select_held: false,
            up_held: false,
            back_held: false,
            double_click: false,
            char_index: 0,
            typed: Vec::new(),
            shown: String::new(),
            password: underscore(),
        };
        proof {
            lemma_alphabet_entry(0);
            assert(string_views(m.ssids@).len() == m.ssids.len());
            assert(m@ =~= initial_view(string_views(ssids@)));
        }
        m
    }

    /// The screen shown now.
    pub fn current(&self) -> (m: Menu)
        ensures
            m == self@.menu,
    {
        self.menu
    }

    /// `b` has been pressed and not yet released.
    pub fn is_held(&self, b: Button) -> (r: bool)
        ensures
            r == button_held(self@, b),
    {
        match b {
            Button::ScrollDown => self.down_held,
            Button::Select => self.select_held,
            Button::ScrollUp => self.up_held,
            Button::Back => self.back_held,
        }
    }

    /// The buttons to poll, in order, in a round that begins on `block`.
    pub fn buttons(block: Menu) -> (r: Vec<Button>)
        ensures
            r@ == button_order(block),
    {
        let mut r: Vec<Button> = Vec::new();
        match block {
            Menu::MainMenu | Menu::SsidList => {
                r.push(Button::ScrollDown);
                r.push(Button::Select);
                r.push(Button::ScrollUp);
                r.push(Button::Back);
            },
            Menu::SsidChosen => {
                r.push(Button::Select);
                r.push(Button::Back);
            },
            Menu::PasswordEntry => {
                r.push(Button::ScrollDown);
                r.push(Button::Select);
                r.push(Button::Back);
                r.push(Button::ScrollUp);
            },
            Menu::PasswordEntered => {
                r.push(Button::Select);
            },
            _ => {},
        }
        assert(r@ =~= button_order(block));
        r
    }

    /// `block` reacts to `b`.
    pub fn responds(block: Menu, b: Button) -> (r: bool)
        ensures
            r == responds_to(block, b),
    {
        match block {
            Menu::MainMenu | Menu::SsidList | Menu::PasswordEntry => true,
            Menu::SsidChosen => b == Button::Select || b == Button::Back,
            Menu::PasswordEntered => b == Button::Select,
            _ => false,
        }
    }

    /// Replaces the SSID list with the result of a new scan.
    pub fn set_ssids(&mut self, ssids: Vec<String>)
        requires
            old(self).wf(),
        ensures
            final(self).wf(),
            final(self)@ == (MenuView { ssids: string_views(ssids@), ..old(self)@ }),
    {
        self.ssids = ssids;
        assert(string_views(self.ssids@).len() == self.ssids.len());
        assert(self@ =~= (MenuView { ssids: string_views(ssids@), ..old(self)@ }));
    }

    fn set_held(&mut self, b: Button, h: bool)
        requires
            old(self).wf(),
        ensures
            final(self).wf(),
            final(self)@ == with_held(old(self)@, b, h),
    {
        match b {
            Button::ScrollDown => self.down_held = h,
            Button::Select => self.select_held = h,
            Button::ScrollUp => self.up_held = h,
            Button::Back => self.back_held = h,
        }
        assert(self@ =~= with_held(old(self)@, b, h));
    }

    fn scroll_list_down(&mut self)
        requires
            old(self).wf(),
        ensures
            final(self).wf(),
            final(self)@ == list_scroll_down(old(self)@),
    {
        if self.selected == LINES_PER_SCREEN - 1 {
            self.start = self.start + 1;
            self.end = self.end + 1;
        } else {
            self.selected = self.selected + 1;
        }
        if self.end >= self.ssids.len() {
            self.selected = 0;
            self.start = 0;
            self.end = LINES_PER_SCREEN - 1;
        }
        assert(self@ =~= list_scroll_down(old(self)@));
    }

    fn scroll_list_up(&mut self)
        requires
            old(self).wf(),
        ensures
            final(self).wf(),
            final(self)@ == list_scroll_up(old(self)@),
    {
        if self.selected == 0 && self.start == 0 {
        } else if self.selected == 0 {
            self.start = self.start - 1;
            self.end = self.end - 1;
        } else {
            self.selected = self.selected - 1;
        }
        assert(self@ =~= list_scroll_up(old(self)@));
    }

    fn select_in_main_menu(&mut self)
        requires
            old(self).wf(),
        ensures
            final(self).wf(),
            final(self)@ == main_menu_select(old(self)@),
    {
        self.select_pending = false;
        if self.selected < 3 {
            self.menu = if self.selected == 0 {
                Menu::SsidList
            } else if self.selected == 1 {
                Menu::SecondItem
            } else {
                Menu::ThirdItem
            };
            self.start = 0;
            self.selected = 0;
            self.end = 0;
        }
        assert(self@ =~= main_menu_select(old(self)@));
    }

    /// One scroll in the password screen, down when `forward`, else up.
    fn scroll_password(&mut self, forward: bool)
        requires
            old(self).wf(),
            forward || old(self)@.char_index > 0,
        ensures
            final(self).wf(),
            final(self)@ == show_char(
                commit_pending(old(self)@),
                if forward {
                    next_char_index(old(self)@.char_index)
                } else {
                    prev_char_index(old(self)@.char_index)
                },
            ),
    {
        let ghost v0 = self@;
        if self.select_pending {
            let c = password_char(self.char_index);
            self.typed.push(c);
            self.select_pending = false;
            proof {
                lemma_alphabet_entry(v0.char_index as int);
            }
        }
        assert(self@ =~= commit_pending(v0));
        let ghost v1 = self@;
        let i = if forward {
            if self.char_index + 1 == ALPHABET_LEN {
                1
            } else {
                self.char_index + 1
            }
        } else {
            if self.char_index == 1 {
                93
            } else {
                self.char_index - 1
            }
        };
        self.char_index = i;
        if self.typed.len() > 0 {
            self.typed.pop();
        }
        let c = password_char(i);
        self.typed.push(c);
        self.shown = string_of(&self.typed, 0, self.typed.len());
        self.double_click = false;
        proof {
            lemma_alphabet_entry(i as int);
            assert(self.typed@.subrange(0, self.typed@.len() as int) =~= self.typed@);
            assert(self@ =~= show_char(v1, i as nat));
        }
    }

    fn select_in_password(&mut self)
        requires
            old(self).wf(),
        ensures
            final(self).wf(),
            final(self)@ == press_action(old(self)@, Menu::PasswordEntry, Button::Select).0,
    {
        self.select_pending = true;
        self.char_index = 0;
        if !self.double_click {
            self.double_click = true;
        } else {
            self.password = self.shown.clone();
            self.menu = Menu::PasswordEntered;
        }
        assert(self@ =~= press_action(old(self)@, Menu::PasswordEntry, Button::Select).0);
    }

    fn back_in_password(&mut self)
        requires
            old(self).wf(),
        ensures
            final(self).wf(),
            final(self)@ == press_action(old(self)@, Menu::PasswordEntry, Button::Back).0,
    {
        if self.typed.len() > 0 {
            self.typed.pop();
        } else {
            self.menu = Menu::SsidChosen;
        }
        self.double_click = false;
        assert(self@ =~= press_action(old(self)@, Menu::PasswordEntry, Button::Back).0);
    }

    fn accept_credentials(&mut self) -> (r: Credentials)
        requires
            old(self).wf(),
            old(self)@.has_chosen_ssid(),
        ensures
            final(self).wf(),
            (final(self)@, credentials_view(Some(r))) == press_action(
                old(self)@,
                Menu::PasswordEntered,
                Button::Select,
            ),
    {
        let r = Credentials {
            ssid: self.ssids[self.start + self.selected].clone(),
            password: self.password.clone(),
        };
        self.shown = underscore();
        let mut typed: Vec<char> = Vec::new();
        typed.push('_');
        self.typed = typed;
        self.menu = Menu::MainMenu;
        proof {
            lemma_alphabet_entry(0);
            assert(self.typed@ =~= seq!['_']);
            assert(self@ =~= press_action(old(self)@, Menu::PasswordEntered, Button::Select).0);
        }
        r
    }

    /// Whether a press of `b`, in a round that began on `block`, can be carried
    /// out: scrolling up the password alphabet from its entry 0, or accepting
    /// credentials with no SSID highlighted, cannot.
    pub fn can_press(&self, block: Menu, b: Button) -> (r: bool)
        requires
            self.wf(),
        ensures
            r == press_defined(self@, block, b),
    {
        if !Self::responds(block, b) || self.is_held(b) {
            true
        } else if block == Menu::PasswordEntry && b == Button::ScrollUp {
            self.char_index > 0
        } else if block == Menu::PasswordEntered && b == Button::Select {
            self.start < self.ssids.len() && self.selected < self.ssids.len() - self.start
        } else {
            true
        }
    }

    /// A poll that finds `b` pressed, in a round that began on `block`. Returns
    /// the credentials to connect with and save, when the press accepts them.
    pub fn press(&mut self, block: Menu, b: Button) -> (r: Option<Credentials>)
        requires
            old(self).wf(),
            press_defined(old(self)@, block, b),
        ensures
            final(self).wf(),
            (final(self)@, credentials_view(r)) == press(old(self)@, block, b),
    {
        if !Self::responds(block, b) || self.is_held(b) {
            return None;
        }
        let ghost v0 = self@;
        let mut r: Option<Credentials> = None;
        match block {
            Menu::MainMenu => match b {
                Button::ScrollDown => self.scroll_list_down(),
                Button::Select => self.select_in_main_menu(),
                Button::ScrollUp => self.scroll_list_up(),
                Button::Back => {
                    self.menu = Menu::Idle;
                },
            },
            Menu::SsidList => match b {
                Button::ScrollDown => self.scroll_list_down(),
                Button::Select => {
                    self.menu = Menu::SsidChosen;
                    self.select_pending = false;
                },
                Button::ScrollUp => self.scroll_list_up(),
                Button::Back => {
                    self.menu = Menu::MainMenu;
                },
            },
            Menu::SsidChosen => match b {
                Button::Select => {
                    self.menu = Menu::PasswordEntry;
                    self.select_pending = false;
                },
                Button::Back => {
                    self.menu = Menu::SsidList;
                },
                _ => {},
            },
            Menu::PasswordEntry => match b {
                Button::ScrollDown => self.scroll_password(true),
                Button::ScrollUp => self.scroll_password(false),
                Button::Select => self.select_in_password(),
                Button::Back => self.back_in_password(),
            },
            Menu::PasswordEntered => match b {
                Button::Select => {
                    r = Some(self.accept_credentials());
                },
                _ => {},
            },
            _ => {},
        }
        assert(self@ =~= press_action(v0, block, b).0);
        assert(credentials_view(r) == press_action(v0, block, b).1);
        if !(block == Menu::SsidChosen && b == Button::Select) {
            self.set_held(b, true);
        }
        r
    }

    /// A poll that finds `b` let go.
    pub fn release(&mut self, b: Button)
        requires
            old(self).wf(),
        ensures
            final(self).wf(),
            final(self)@ == release(old(self)@, b),
    {
        self.set_held(b, false);
    }

    /// Whether the current screen can be drawn: the screens that name the
    /// chosen SSID need one.
    pub fn can_show(&self) -> (r: bool)
        requires
            self.wf(),
        ensures
            r == screen_defined(self@),
    {
        if self.menu == Menu::SsidChosen || self.menu == Menu::PasswordEntry {
            self.start < self.ssids.len() && self.selected < self.ssids.len() - self.start
        } else {
            true
        }
    }

    /// The lines to draw for the current screen.
    pub fn screen(&self) -> (r: Vec<TextLine>)
        requires
            self.wf(),
            screen_defined(self@),
        ensures
            line_views(r@) == screen_lines(self@),
    {
        let mut r: Vec<TextLine> = Vec::new();
        match self.menu {
            Menu::MainMenu => {
                let mut items: Vec<String> = Vec::new();
                items.push(String::from_str("Wifi Settings"));
                assert(string_views(items@) =~= main_menu_items());
                r = list_lines(&items, self.start, self.selected);
            },
            Menu::SsidList => {
                r = list_lines(&self.ssids, self.start, self.selected);
            },
            Menu::SsidChosen => {
                r.push(TextLine { text: self.chosen_ssid(), y: 0, highlighted: false });
                r.push(
                    TextLine { text: String::from_str("Enter password"), y: 12, highlighted: true },
                );
            },
            Menu::PasswordEntry => {
                r.push(TextLine { text: self.chosen_ssid(), y: 0, highlighted: false });
                r.push(
                    TextLine { text: String::from_str("temp_password:"), y: 12, highlighted: true },
                );
                r.push(TextLine { text: self.shown.clone(), y: 30, highlighted: false });
            },
            Menu::PasswordEntered => {
                r.push(
                    TextLine {
                        text: String::from_str("PASSWORD ENTERED"),
                        y: 0,
                        highlighted: true,
                    },
                );
            },
            _ => {},
        }
        assert(line_views(r@) =~= screen_lines(self@));
        r
    }

    fn chosen_ssid(&self) -> (r: String)
        requires
            self.wf(),
            self@.has_chosen_ssid(),
        ensures
            r@ == self@.chosen_ssid(),
    {
        self.ssids[self.start + self.selected].clone()
    }
}

/// The visible window of `items` (see `list_window`).
fn list_lines(items: &Vec<String>, start: usize, selected: usize) -> (r: Vec<TextLine>)
    requires
        selected < LINES_PER_SCREEN,
    ensures
        line_views(r@) == list_window(string_views(items@), start as nat, selected as nat),
{
    let mut r: Vec<TextLine> = Vec::new();
    let ghost want = list_window(string_views(items@), start as nat, selected as nat);
    if start < items.len() {
        let n = if items.len() - start < LINES_PER_SCREEN {
            items.len() - start
        } else {
            LINES_PER_SCREEN
        };
        let mut i: usize = 0;
        while i < n
            invariant
                start < items.len(),
                n <= LINES_PER_SCREEN,
                start + n <= items.len(),
                want.len() == n,
                i <= n,
                want == list_window(string_views(items@), start as nat, selected as nat),
                line_views(r@) == want.take(i as int),
            decreases n - i,
        {
            let line = TextLine {
                text: items[start + i].clone(),
                y: (12 * i) as i32,
                highlighted: i == selected,
            };
            let ghost old_r = r@;
            r.push(line);
            proof {
                assert(string_views(items@)[start + i] == items@[start + i]@);
                assert(line_views(r@) =~= line_views(old_r).push(want[i as int]));
                assert(want.take(i + 1) =~= want.take(i as int).push(want[i as int]));
            }
            i += 1;
        }
        assert(want.take(n as int) =~= want);
    } else {
        assert(want =~= Seq::<LineView>::empty());
        assert(line_views(r@) =~= want);
    }
    r
}

} // verus!
