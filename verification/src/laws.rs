//! Properties of the menu and of the text handling that hold across calls.
use vstd::prelude::*;
use crate::alphabet::{password_alphabet, lemma_alphabet_entry, lemma_alphabet_len, lemma_symbols_len, SYMBOLS};
use crate::model::{
    Menu, Button, MenuView, initial_view, button_held, press, press_defined, release,
    next_char_index, prev_char_index, screen_lines, screen_defined, button_order, responds_to,
};
use crate::text::{
    is_white_space, trim, trim_start, trim_end, newline_pieces, text_lines,
    lemma_newline_pieces_nonempty,
};
use crate::LINES_PER_SCREEN;

verus! {

/// The device starts in a valid state.
pub proof fn lemma_initial_state_valid(ssids: Seq<Seq<char>>)
    requires
        ssids.len() <= usize::MAX,
    ensures
        initial_view(ssids).wf(),
{
    lemma_alphabet_entry(0);
}

/// Every press and every release keeps the menu valid: the highlighted line
/// stays on the screen, the alphabet position stays in the alphabet, and the
/// typed, shown and accepted passwords hold alphabet characters only.
pub proof fn lemma_steps_keep_valid(v: MenuView, block: Menu, b: Button)
    requires
        v.wf(),
    ensures
        press_defined(v, block, b) ==> press(v, block, b).0.wf(),
        release(v, b).wf(),
{
    lemma_alphabet_entry(0);
    lemma_alphabet_entry(v.char_index as int);
    lemma_alphabet_entry(next_char_index(v.char_index) as int);
    if v.char_index > 0 {
        lemma_alphabet_entry(prev_char_index(v.char_index) as int);
    }
}

/// A press acts once: further polls that find the button still down change
/// nothing and accept nothing.
pub proof fn lemma_held_press_acts_once(v: MenuView, block: Menu, b: Button)
    requires
        v.wf(),
        press_defined(v, block, b),
    ensures
        press(press(v, block, b).0, block, b) == (press(v, block, b).0, None::<
            (Seq<char>, Seq<char>),
        >),
{
    let w = press(v, block, b).0;
    if block == Menu::SsidChosen && b == Button::Select && !button_held(v, b) {
        assert(press(w, block, b).0 =~= w);
    }
}

/// In the password screen, two selects with no other button between them
/// accept the password on show; the first one alone stays in the screen.
pub proof fn lemma_double_select_accepts_password(v: MenuView)
    requires
        v.wf(),
        v.menu == Menu::PasswordEntry,
        !v.double_click,
        !v.select_held,
    ensures
        press(v, Menu::PasswordEntry, Button::Select).0.menu == Menu::PasswordEntry,
        press(
            release(press(v, Menu::PasswordEntry, Button::Select).0, Button::Select),
            Menu::PasswordEntry,
            Button::Select,
        ).0.menu == Menu::PasswordEntered,
        press(
            release(press(v, Menu::PasswordEntry, Button::Select).0, Button::Select),
            Menu::PasswordEntry,
            Button::Select,
        ).0.password == v.shown,
{
}

/// In the password screen, any button but select cancels a started double
/// click.
pub proof fn lemma_other_button_cancels_double_click(v: MenuView, b: Button)
    requires
        v.wf(),
        b != Button::Select,
        !button_held(v, b),
        press_defined(v, Menu::PasswordEntry, b),
    ensures
        !press(v, Menu::PasswordEntry, b).0.double_click,
{
}

/// Scrolling down a list either stays within the SSID list or goes back to
/// its top.
pub proof fn lemma_scroll_down_wraps_to_top(v: MenuView, block: Menu)
    requires
        v.wf(),
        block == Menu::MainMenu || block == Menu::SsidList,
        !v.down_held,
    ensures
        ({
            let w = press(v, block, Button::ScrollDown).0;
            w.end < w.ssids.len() || (w.selected == 0 && w.start == 0 && w.end
                == LINES_PER_SCREEN - 1)
        }),
{
}

/// Back in the password screen deletes the last typed character, and goes
/// back to the SSID screen when nothing is typed.
pub proof fn lemma_back_deletes_then_leaves(v: MenuView)
    requires
        v.wf(),
        v.menu == Menu::PasswordEntry,
        !v.back_held,
    ensures
        v.typed.len() > 0 ==> press(v, Menu::PasswordEntry, Button::Back).0.typed
            == v.typed.drop_last() && press(v, Menu::PasswordEntry, Button::Back).0.menu
            == Menu::PasswordEntry,
        v.typed.len() == 0 ==> press(v, Menu::PasswordEntry, Button::Back).0.menu
            == Menu::SsidChosen,
{
}

/// Scrolling up right after scrolling down in the password screen brings the
/// same character back.
pub proof fn lemma_scroll_up_undoes_scroll_down(v: MenuView)
    requires
        v.wf(),
        !v.select_pending,
        !v.down_held,
        !v.up_held,
        1 <= v.char_index,
        v.typed.len() > 0,
        v.typed.last() == password_alphabet()[v.char_index as int],
    ensures
        ({
            let d = release(
                press(v, Menu::PasswordEntry, Button::ScrollDown).0,
                Button::ScrollDown,
            );
            let u = press(d, Menu::PasswordEntry, Button::ScrollUp).0;
            &&& u.char_index == v.char_index
            &&& u.typed == v.typed
            &&& u.shown == v.typed
        }),
{
    let d = release(press(v, Menu::PasswordEntry, Button::ScrollDown).0, Button::ScrollDown);
    let u = press(d, Menu::PasswordEntry, Button::ScrollUp).0;
    assert(prev_char_index(next_char_index(v.char_index)) == v.char_index);
    assert(u.typed =~= v.typed);
}

/// Accepting the password connects with the chosen SSID and the accepted
/// password, returns to the main menu, and starts the next entry from "_".
pub proof fn lemma_accept_connects_and_returns(v: MenuView)
    requires
        v.wf(),
        v.has_chosen_ssid(),
        !v.select_held,
    ensures
        press(v, Menu::PasswordEntered, Button::Select).1 == Some((v.chosen_ssid(), v.password)),
        press(v, Menu::PasswordEntered, Button::Select).0.menu == Menu::MainMenu,
        press(v, Menu::PasswordEntered, Button::Select).0.typed == seq!['_'],
        press(v, Menu::PasswordEntered, Button::Select).0.shown == seq!['_'],
{
}

/// The screens without buttons (the idle screen and those of the second and
/// third main menu lines) ignore every press: nothing leads out of them.
pub proof fn lemma_inert_screens_ignore_presses(v: MenuView, block: Menu, b: Button)
    requires
        block == Menu::Idle || block == Menu::SecondItem || block == Menu::ThirdItem,
    ensures
        press(v, block, b) == (v, None::<(Seq<char>, Seq<char>)>),
{
}

/// Only the accepting select yields credentials.
pub proof fn lemma_only_accept_yields_credentials(v: MenuView, block: Menu, b: Button)
    requires
        v.wf(),
        !(block == Menu::PasswordEntered && b == Button::Select),
    ensures
        press(v, block, b).1 is None,
{
}

/// Every line of a list screen lies on the display, and at most one of them
/// is highlighted: the one at the selected position.
pub proof fn lemma_list_screen_fits(v: MenuView)
    requires
        v.wf(),
        v.menu == Menu::MainMenu || v.menu == Menu::SsidList,
    ensures
        screen_lines(v).len() <= LINES_PER_SCREEN,
        forall|i: int|
            0 <= i < screen_lines(v).len() ==> (#[trigger] screen_lines(v)[i]).y == 12 * i && (
            screen_lines(v)[i].highlighted <==> i == v.selected),
{
}

/// Trimming leaves no whitespace at either end.
pub proof fn lemma_trim_leaves_no_outer_whitespace(s: Seq<char>)
    ensures
        trim(s).len() > 0 ==> !is_white_space(trim(s)[0]) && !is_white_space(trim(s).last()),
{
    lemma_trim_start_first(s);
    lemma_trim_end_last(trim_start(s));
    lemma_trim_end_prefix(trim_start(s));
}

proof fn lemma_trim_start_first(s: Seq<char>)
    ensures
        trim_start(s).len() > 0 ==> !is_white_space(trim_start(s)[0]),
    decreases s.len(),
{
    if s.len() > 0 && is_white_space(s[0]) {
        lemma_trim_start_first(s.drop_first());
    }
}

proof fn lemma_trim_end_last(s: Seq<char>)
    ensures
        trim_end(s).len() > 0 ==> !is_white_space(trim_end(s).last()),
    decreases s.len(),
{
    if s.len() > 0 && is_white_space(s.last()) {
        lemma_trim_end_last(s.drop_last());
    }
}

proof fn lemma_trim_end_prefix(s: Seq<char>)
    ensures
        trim_end(s).len() <= s.len(),
        trim_end(s) == s.take(trim_end(s).len() as int),
    decreases s.len(),
{
    if s.len() > 0 && is_white_space(s.last()) {
        lemma_trim_end_prefix(s.drop_last());
        assert(s.drop_last().take(trim_end(s).len() as int) =~= s.take(trim_end(s).len() as int));
    } else {
        assert(s.take(s.len() as int) =~= s);
    }
}

/// No line of a text holds a newline.
pub proof fn lemma_lines_hold_no_newline(s: Seq<char>)
    ensures
        forall|i: int, j: int|
            0 <= i < text_lines(s).len() && 0 <= j < text_lines(s)[i].len() ==> text_lines(
                s,
            )[i][j] != '\n',
{
    lemma_pieces_hold_no_newline(s);
    if s.len() > 0 {
        lemma_pieces_hold_no_newline(s.drop_last());
    }
}

proof fn lemma_pieces_hold_no_newline(s: Seq<char>)
    ensures
        forall|i: int, j: int|
            0 <= i < newline_pieces(s).len() && 0 <= j < newline_pieces(s)[i].len()
                ==> newline_pieces(s)[i][j] != '\n',
    decreases s.len(),
{
    if s.len() > 0 {
        lemma_pieces_hold_no_newline(s.drop_last());
        lemma_newline_pieces_nonempty(s.drop_last());
    }
}

/// Scrolling up a list moves the highlight up one line; with the highlight
/// on the first line it moves the window up one entry instead; at the very
/// top nothing moves. Nothing else changes.
pub proof fn lemma_scroll_up_moves_highlight_or_window(v: MenuView, block: Menu)
    requires
        v.wf(),
        block == Menu::MainMenu || block == Menu::SsidList,
        !v.up_held,
    ensures
        ({
            let w = press(v, block, Button::ScrollUp).0;
            &&& v.selected > 0 ==> w.selected == v.selected - 1 && w.start == v.start && w.end
                == v.end
            &&& v.selected == 0 && v.start > 0 ==> w.selected == 0 && w.start == v.start - 1
                && w.end == v.end - 1
            &&& v.selected == 0 && v.start == 0 ==> w.selected == 0 && w.start == 0 && w.end
                == v.end
            &&& w.menu == v.menu && w.ssids == v.ssids && w.typed == v.typed && w.password
                == v.password && w.up_held
        }),
{
}

/// Scrolling down a list moves the highlight down one line; on the last
/// screen line it moves the window down one entry instead; when the wrap
/// mark then reaches the end of the SSID list, everything goes back to the
/// top. Nothing else changes.
pub proof fn lemma_scroll_down_moves_highlight_or_window(v: MenuView, block: Menu)
    requires
        v.wf(),
        block == Menu::MainMenu || block == Menu::SsidList,
        !v.down_held,
    ensures
        ({
            let w = press(v, block, Button::ScrollDown).0;
            let mark = if v.selected == 4 {
                v.end + 1int
            } else {
                v.end as int
            };
            &&& mark >= v.ssids.len() ==> w.selected == 0 && w.start == 0 && w.end == 4
            &&& mark < v.ssids.len() && v.selected < 4 ==> w.selected == v.selected + 1
                && w.start == v.start && w.end == v.end
            &&& mark < v.ssids.len() && v.selected == 4 ==> w.selected == 4 && w.start
                == v.start + 1 && w.end == v.end + 1
            &&& w.menu == v.menu && w.ssids == v.ssids && w.typed == v.typed && w.password
                == v.password && w.down_held
        }),
{
}

/// Scrolling up right after a scroll down that moved the highlight (and did
/// not wrap) brings the highlight back.
pub proof fn lemma_scroll_up_undoes_list_scroll_down(v: MenuView, block: Menu)
    requires
        v.wf(),
        block == Menu::MainMenu || block == Menu::SsidList,
        !v.down_held,
        !v.up_held,
        v.selected < 4,
        v.end < v.ssids.len(),
    ensures
        ({
            let d = release(press(v, block, Button::ScrollDown).0, Button::ScrollDown);
            let u = press(d, block, Button::ScrollUp).0;
            u.selected == v.selected && u.start == v.start && u.end == v.end
        }),
{
}

/// The list screens show the entries from the window's start on, one per
/// line, as many as fit: the SSID list shows SSID `start + i` on line `i`.
pub proof fn lemma_ssid_list_screen_shows_window(v: MenuView)
    requires
        v.wf(),
        v.menu == Menu::SsidList,
    ensures
        screen_lines(v).len() == (if v.start >= v.ssids.len() {
            0
        } else if v.ssids.len() - v.start < 5 {
            v.ssids.len() - v.start
        } else {
            5
        }),
        forall|i: int|
            0 <= i < screen_lines(v).len() ==> (#[trigger] screen_lines(v)[i]).text == v.ssids[v.start
                + i],
{
}

/// Select on the SSID list chooses the highlighted entry: the chosen-SSID
/// screen, and then the password screen, name the text of the highlighted
/// line of the list, which is SSID `start + selected`.
pub proof fn lemma_select_chooses_highlighted_ssid(v: MenuView)
    requires
        v.wf(),
        v.menu == Menu::SsidList,
        !v.select_held,
        v.start + v.selected < v.ssids.len(),
    ensures
        ({
            let w = press(v, Menu::SsidList, Button::Select).0;
            let p = press(release(w, Button::Select), Menu::SsidChosen, Button::Select).0;
            &&& screen_lines(v)[v.selected as int].highlighted
            &&& screen_lines(v)[v.selected as int].text == v.ssids[v.start + v.selected as int]
            &&& w.menu == Menu::SsidChosen
            &&& screen_lines(w)[0].text == screen_lines(v)[v.selected as int].text
            &&& p.menu == Menu::PasswordEntry
            &&& screen_lines(p)[0].text == screen_lines(v)[v.selected as int].text
        }),
{
}

/// Accepting the password yields SSID `start + selected` (the one the list
/// screen highlights with the same window) and the accepted password.
pub proof fn lemma_accept_yields_highlighted_ssid(v: MenuView)
    requires
        v.wf(),
        v.start + v.selected < v.ssids.len(),
        !v.select_held,
    ensures
        press(v, Menu::PasswordEntered, Button::Select).1 == Some(
            (v.ssids[v.start + v.selected as int], v.password),
        ),
        ({
            let l = MenuView { menu: Menu::SsidList, ..v };
            &&& screen_lines(l)[v.selected as int].highlighted
            &&& press(v, Menu::PasswordEntered, Button::Select).1 == Some(
                (screen_lines(l)[v.selected as int].text, v.password),
            )
        }),
{
}

/// In the password screen, a scroll moves the alphabet position by one:
/// down from 93 wraps to 1, up from 1 wraps to 93.
pub proof fn lemma_password_scroll_moves_position(v: MenuView)
    requires
        v.wf(),
        !v.down_held,
        !v.up_held,
    ensures
        press(v, Menu::PasswordEntry, Button::ScrollDown).0.char_index == (if v.char_index == 93 {
            1
        } else {
            v.char_index + 1
        }),
        v.char_index > 0 ==> press(v, Menu::PasswordEntry, Button::ScrollUp).0.char_index == (
        if v.char_index == 1 {
            93
        } else {
            v.char_index - 1
        }),
{
}

/// In the password screen, a scroll right after a select keeps every
/// character typed so far and adds the newly shown one, whatever the
/// password's length; the screen then shows the whole typed password.
pub proof fn lemma_scroll_after_select_appends(v: MenuView, b: Button)
    requires
        v.wf(),
        v.select_pending,
        b == Button::ScrollDown || (b == Button::ScrollUp && v.char_index > 0),
        !button_held(v, b),
    ensures
        ({
            let w = press(v, Menu::PasswordEntry, b).0;
            &&& w.typed.len() == v.typed.len() + 1
            &&& w.typed.take(v.typed.len() as int) == v.typed
            &&& w.typed.last() == password_alphabet()[w.char_index as int]
            &&& w.shown == w.typed
            &&& !w.select_pending
        }),
{
    lemma_alphabet_len();
    let w = press(v, Menu::PasswordEntry, b).0;
    assert(w.typed.take(v.typed.len() as int) =~= v.typed);
}

/// In the password screen, a scroll with no select before it replaces the
/// last typed character by the newly shown one (or shows it alone when
/// nothing is typed) and keeps the others.
pub proof fn lemma_scroll_replaces_last_character(v: MenuView, b: Button)
    requires
        v.wf(),
        !v.select_pending,
        b == Button::ScrollDown || (b == Button::ScrollUp && v.char_index > 0),
        !button_held(v, b),
    ensures
        ({
            let w = press(v, Menu::PasswordEntry, b).0;
            &&& v.typed.len() > 0 ==> w.typed.len() == v.typed.len() && w.typed.drop_last()
                == v.typed.drop_last()
            &&& v.typed.len() == 0 ==> w.typed.len() == 1
            &&& w.typed.last() == password_alphabet()[w.char_index as int]
            &&& w.shown == w.typed
        }),
{
    lemma_alphabet_len();
    let w = press(v, Menu::PasswordEntry, b).0;
    if v.typed.len() > 0 {
        assert(w.typed.drop_last() =~= v.typed.drop_last());
    }
}

/// Select then scroll down in the password screen types one more `A` after
/// all the characters typed so far: a password of any length can be typed.
pub proof fn lemma_select_then_scroll_adds_a_character(v: MenuView)
    requires
        v.wf(),
        !v.double_click,
        !v.select_held,
        !v.down_held,
    ensures
        ({
            let s = release(press(v, Menu::PasswordEntry, Button::Select).0, Button::Select);
            let d = press(s, Menu::PasswordEntry, Button::ScrollDown).0;
            &&& d.typed == v.typed.push('A')
            &&& d.shown == d.typed
            &&& !d.double_click
        }),
{
    lemma_alphabet_layout();
    let s = release(press(v, Menu::PasswordEntry, Button::Select).0, Button::Select);
    let d = press(s, Menu::PasswordEntry, Button::ScrollDown).0;
    assert(d.typed =~= v.typed.push('A'));
}

/// The password screen shows the chosen SSID, the label and the password
/// typed so far.
pub proof fn lemma_password_screen_shows_typed_text(v: MenuView)
    requires
        v.wf(),
        v.menu == Menu::PasswordEntry,
    ensures
        screen_lines(v).len() == 3,
        screen_lines(v)[0].text == v.ssids[v.start + v.selected as int],
        screen_lines(v)[2].text == v.shown,
        screen_lines(v)[2].y == 30,
{
}

/// The alphabet's layout: `'_'`, `A`..`Z`, `a`..`z`, `0`..`9`, then the
/// symbols from `!` to `\`.
pub proof fn lemma_alphabet_layout()
    ensures
        password_alphabet().len() == 94,
        password_alphabet()[0] == '_',
        forall|i: int| 1 <= i <= 26 ==> (#[trigger] password_alphabet()[i]) as u32 == 0x40 + i,
        forall|i: int|
            27 <= i <= 52 ==> (#[trigger] password_alphabet()[i]) as u32 == 0x60 + (i - 26),
        forall|i: int|
            53 <= i <= 62 ==> (#[trigger] password_alphabet()[i]) as u32 == 0x30 + (i - 53),
        password_alphabet()[1] == 'A',
        password_alphabet()[63] == '!',
        password_alphabet()[74] == '_',
        password_alphabet()[93] == '\\',
{
    lemma_alphabet_len();
    lemma_symbols_len();
    reveal_strlit("!@#$%^&*()-_=+{}[]~`:;\"><,./?|\\");
    assert(password_alphabet()[1] == (0x41int) as char);
}

/// A release clears the button's held mark and changes nothing else.
pub proof fn lemma_release_only_clears_mark(v: MenuView, b: Button)
    ensures
        !button_held(release(v, b), b),
        forall|c: Button| c != b ==> button_held(release(v, b), c) == button_held(v, c),
        release(v, b).menu == v.menu,
        release(v, b).ssids == v.ssids,
        release(v, b).selected == v.selected,
        release(v, b).start == v.start,
        release(v, b).typed == v.typed,
        release(v, b).shown == v.shown,
        release(v, b).password == v.password,
        release(v, b).char_index == v.char_index,
        release(v, b).select_pending == v.select_pending,
        release(v, b).double_click == v.double_click,
{
}

/// The device starts on the main menu with its first line highlighted, the
/// window at the top, nothing typed and "_" as the accepted password.
pub proof fn lemma_start_state(ssids: Seq<Seq<char>>)
    ensures
        initial_view(ssids).menu == Menu::MainMenu,
        initial_view(ssids).ssids == ssids,
        initial_view(ssids).selected == 0,
        initial_view(ssids).start == 0,
        initial_view(ssids).end == 4,
        initial_view(ssids).typed.len() == 0,
        initial_view(ssids).shown.len() == 0,
        initial_view(ssids).password == seq!['_'],
        !initial_view(ssids).select_pending && !initial_view(ssids).double_click,
        forall|b: Button| !button_held(initial_view(ssids), b),
{
}

/// Select on the main menu opens the screen of the highlighted line, with
/// the list's highlight and window at the top: line 0 opens the SSID list,
/// lines 1 and 2 their empty screens; lower lines do nothing. Back leaves the
/// main menu for the idle screen; back on the SSID list returns to the main
/// menu; back on the chosen-SSID screen returns to the SSID list.
pub proof fn lemma_main_menu_select_and_backs(v: MenuView)
    requires
        v.wf(),
    ensures
        !v.select_held ==> ({
            let w = press(v, Menu::MainMenu, Button::Select).0;
            &&& v.selected == 0 ==> w.menu == Menu::SsidList
            &&& v.selected == 1 ==> w.menu == Menu::SecondItem
            &&& v.selected == 2 ==> w.menu == Menu::ThirdItem
            &&& v.selected < 3 ==> w.selected == 0 && w.start == 0
            &&& v.selected >= 3 ==> w.menu == v.menu && w.selected == v.selected && w.start
                == v.start
        }),
        !v.back_held ==> press(v, Menu::MainMenu, Button::Back).0.menu == Menu::Idle,
        !v.back_held ==> press(v, Menu::SsidList, Button::Back).0.menu == Menu::MainMenu,
        !v.back_held ==> press(v, Menu::SsidChosen, Button::Back).0.menu == Menu::SsidList,
        !v.select_held ==> press(v, Menu::SsidChosen, Button::Select).0.menu
            == Menu::PasswordEntry,
{
}

/// The screens that are not lists: the chosen SSID with the prompt, the
/// password screen, the confirmation, and nothing on the screens without
/// buttons.
pub proof fn lemma_fixed_screens(v: MenuView)
    requires
        v.wf(),
    ensures
        v.menu == Menu::SsidChosen ==> screen_lines(v).len() == 2 && screen_lines(v)[0].y == 0
            && !screen_lines(v)[0].highlighted && screen_lines(v)[1].text == "Enter password"@
            && screen_lines(v)[1].y == 12 && screen_lines(v)[1].highlighted,
        v.menu == Menu::PasswordEntry ==> screen_lines(v)[1].text == "temp_password:"@
            && screen_lines(v)[1].y == 12 && screen_lines(v)[1].highlighted,
        v.menu == Menu::PasswordEntered ==> screen_lines(v).len() == 1 && screen_lines(v)[0].text
            == "PASSWORD ENTERED"@ && screen_lines(v)[0].y == 0 && screen_lines(v)[0].highlighted,
        (v.menu == Menu::Idle || v.menu == Menu::SecondItem || v.menu == Menu::ThirdItem)
            ==> screen_lines(v).len() == 0,
        v.menu == Menu::MainMenu && v.start == 0 ==> screen_lines(v).len() == 1
            && screen_lines(v)[0].text == "Wifi Settings"@,
{
}

/// Exactly two presses cannot be carried out: scrolling up the password
/// alphabet from entry 0, and accepting when the window's start plus the
/// highlighted line is past the SSID list. Exactly the screens naming the
/// chosen SSID need it to exist.
pub proof fn lemma_what_can_be_carried_out(v: MenuView, block: Menu, b: Button)
    ensures
        !press_defined(v, block, b) <==> !button_held(v, b) && ((block == Menu::PasswordEntry
            && b == Button::ScrollUp && v.char_index == 0) || (block == Menu::PasswordEntered && b
            == Button::Select && v.start + v.selected >= v.ssids.len())),
        !screen_defined(v) <==> (v.menu == Menu::SsidChosen || v.menu == Menu::PasswordEntry)
            && v.start + v.selected >= v.ssids.len(),
{
}

/// The buttons polled in a round are exactly those its screen reacts to,
/// each once.
pub proof fn lemma_polled_buttons_are_the_handled_ones(block: Menu, b: Button)
    ensures
        button_order(block).contains(b) <==> responds_to(block, b),
        forall|i: int, j: int|
            0 <= i < j < button_order(block).len() ==> button_order(block)[i]
                != button_order(block)[j],
{
    if responds_to(block, b) {
        let o = button_order(block);
        if block == Menu::SsidChosen {
            if b == Button::Select { assert(o[0] == b); } else { assert(o[1] == b); }
        } else if block == Menu::PasswordEntered {
            assert(o[0] == b);
        } else if block == Menu::PasswordEntry {
            match b {
                Button::ScrollDown => assert(o[0] == b),
                Button::Select => assert(o[1] == b),
                Button::Back => assert(o[2] == b),
                Button::ScrollUp => assert(o[3] == b),
            }
        } else {
            match b {
                Button::ScrollDown => assert(o[0] == b),
                Button::Select => assert(o[1] == b),
                Button::ScrollUp => assert(o[2] == b),
                Button::Back => assert(o[3] == b),
            }
        }
    }
}

} // verus!
