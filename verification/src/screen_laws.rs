//! What the user sees, stated on the rows, the colours and the numbers
//! themselves.

use vstd::prelude::*;
use crate::layout::{arranged, centred, rounded, Area, Places};
use crate::overlay::{
    byte_len, config_cursor_fits, config_input, cursor_column, input_fits, is_input, masked,
    mod_cursor_fits, mod_input, text_rows, Overlay,
};
use crate::screen::{
    bar_piece, log_panel, mods_panel, queue_panel, sorted_mods, title_piece, Colour, Look,
    PieceView,
};
use crate::text::{before, decimal, text_lines};
use crate::tui::{ConfigField, InputMode, LogLevel, Panel, TuiView};

verus! {

/// A text in one colour and without any other look.
pub open spec fn only_coloured(look: Look, colour: Colour) -> bool {
    look.fg == Some(colour) && look.bg is None && !look.bold && !look.italic
}

/// A text without any look.
pub open spec fn unadorned(look: Look) -> bool {
    look.fg is None && look.bg is None && !look.bold && !look.italic
}

/// Whether a row is that of a mod: the name, two spaces, and a `v` with the version in
/// this colour.
pub open spec fn shows_mod(
    row: Seq<PieceView>,
    name: Seq<char>,
    version: Seq<char>,
    colour: Colour,
) -> bool {
    &&& row.len() == 3
    &&& row[0].text == name && unadorned(row[0].look)
    &&& row[1].text == "  "@ && unadorned(row[1].look)
    &&& row[2].text == "v"@ + version && only_coloured(row[2].look, colour)
}

/// The active panel stands out: its border is cyan and so is the ground of its
/// selected row; other panels have them dark gray.
pub open spec fn shows_whether_active(border: Look, highlight: Look, active: bool) -> bool {
    let colour = if active {
        Colour::Cyan
    } else {
        Colour::DarkGray
    };
    &&& only_coloured(border, colour)
    &&& highlight.fg == Some(Colour::Black) && highlight.bg == Some(colour) && !highlight.bold
        && !highlight.italic
}

/// The panel of the local mods has one row for each mod of the manifest, in
/// dictionary order, with its version in yellow, and counts them.
pub proof fn law_mods_panel(app: TuiView, names: Seq<Seq<char>>)
    requires
        sorted_mods(app, names),
    ensures
        ({
            let panel = mods_panel(app, names);
            &&& panel.rows.len() == names.len() == app.manifest.len()
            &&& forall|i: int|
                0 <= i < names.len() ==> app.manifest.contains_key(#[trigger] names[i])
                    && shows_mod(
                    panel.rows[i],
                    names[i],
                    app.manifest[names[i]].version,
                    Colour::Yellow,
                )
            &&& forall|k: Seq<char>| #[trigger] app.manifest.contains_key(k) ==> names.contains(k)
            &&& forall|i: int, j: int|
                0 <= i < j < names.len() ==> before(#[trigger] names[i], #[trigger] names[j])
            &&& panel.title == " Local Mods ("@ + decimal(app.manifest.len()) + ") "@
            &&& shows_whether_active(
                panel.border,
                panel.highlight,
                app.active_panel == Panel::LocalMods,
            )
            &&& panel.symbol == "> "@
            &&& panel.place == app.mod_list
        }),
{
    let panel = mods_panel(app, names);
    assert forall|i: int| 0 <= i < names.len() implies app.manifest.contains_key(
        #[trigger] names[i],
    ) && shows_mod(
        panel.rows[i],
        names[i],
        app.manifest[names[i]].version,
        Colour::Yellow,
    ) by {
        assert(names.contains(names[i]));
        assert(names.to_set().contains(names[i]));
    }
    assert forall|k: Seq<char>| #[trigger] app.manifest.contains_key(k) implies names.contains(
        k,
    ) by {
        assert(app.manifest.dom().contains(k));
        assert(names.to_set().contains(k));
    }
}

/// The panel of the queue has one row for each file, in order, with its new
/// version in green, and counts them; an empty queue shows that there is none.
pub proof fn law_queue_panel(app: TuiView)
    ensures
        ({
            let panel = queue_panel(app);
            let queue = app.download_queue;
            &&& queue.len() > 0 ==> panel.rows.len() == queue.len() && forall|i: int|
                0 <= i < queue.len() ==> shows_mod(
                    #[trigger] panel.rows[i],
                    queue[i].base_name,
                    queue[i].new_version,
                    Colour::Green,
                )
            &&& queue.len() == 0 ==> panel.rows.len() == 1 && panel.rows[0].len() == 1
                && panel.rows[0][0].text == " None "@ && panel.rows[0][0].look.fg == Some(
                Colour::DarkGray,
            ) && panel.rows[0][0].look.italic && !panel.rows[0][0].look.bold
                && panel.rows[0][0].look.bg is None
            &&& panel.title == " Download Queue ("@ + decimal(queue.len()) + ") "@
            &&& shows_whether_active(
                panel.border,
                panel.highlight,
                app.active_panel == Panel::DownloadQueue,
            )
            &&& panel.symbol == "> "@
            &&& panel.place == app.queue_list
        }),
{
}

/// The panel of the log has one row for each line, in order: what informs in
/// white, what worked in green, what failed in red.
pub proof fn law_log_panel(app: TuiView)
    ensures
        ({
            let panel = log_panel(app);
            &&& panel.rows.len() == app.status_log.len()
            &&& forall|i: int|
                0 <= i < app.status_log.len() ==> (#[trigger] panel.rows[i]).len() == 1
                    && panel.rows[i][0].text == app.status_log[i].text && only_coloured(
                    panel.rows[i][0].look,
                    match app.status_log[i].level {
                        LogLevel::Info => Colour::White,
                        LogLevel::Success => Colour::Green,
                        LogLevel::Error => Colour::Red,
                    },
                )
            &&& panel.title == " Status Log "@
            &&& only_coloured(
                panel.border,
                if app.active_panel == Panel::Log {
                    Colour::Cyan
                } else {
                    Colour::DarkGray
                },
            )
            &&& panel.highlight.fg is None && panel.highlight.bg == Some(Colour::DarkGray)
                && !panel.highlight.bold && !panel.highlight.italic
            &&& panel.symbol.len() == 0
            &&& panel.place == app.log_list
        }),
{
}

/// The title and the key bar.
pub proof fn law_title_and_bar()
    ensures
        title_piece().text == " Rusty Gears v3 — Interactive Mode "@,
        title_piece().look.fg == Some(Colour::Cyan) && title_piece().look.bold,
        title_piece().look.bg is None && !title_piece().look.italic,
        bar_piece().text
            == " F1 Check  |  F2 Add Mod  |  F3 Auth  |  F4 Download All  |  c Config  |  r Reload  |  Tab Focus  |  q Quit "@,
        bar_piece().look.fg == Some(Colour::Black) && bar_piece().look.bg == Some(Colour::Cyan),
        !bar_piece().look.bold && !bar_piece().look.italic,
{
}

/// The rows of a name that is typed are its lines; before anything is typed there
/// is one empty row.
pub proof fn law_name_rows(text: Seq<char>)
    ensures
        text.len() == 0 ==> text_rows(text).len() == 1 && text_rows(text)[0].len() == 1
            && text_rows(text)[0][0].text.len() == 0,
        text.len() > 0 ==> text_rows(text).len() == text_lines(text).len() && forall|i: int|
            0 <= i < text_lines(text).len() ==> (#[trigger] text_rows(text)[i]).len() == 1
                && text_rows(text)[i][0].text == text_lines(text)[i],
        forall|i: int|
            0 <= i < text_rows(text).len() ==> unadorned((#[trigger] text_rows(text)[i])[0].look),
{
}

/// The cursor stands behind the bytes of the text, as far as they are counted in
/// sixteen bits, or in the last column inside the border if that is nearer.
pub proof fn law_cursor(window: Area, indent: int, text: Seq<char>)
    requires
        window.width >= 2,
    ensures
        ({
            let x = cursor_column(window, indent, text);
            let behind = window.x + 1 + indent + byte_len(text) % 0x1_0000;
            let last = window.x + window.width - 2;
            x <= behind && x <= last && (x == behind || x == last)
        }),
{
}

/// The window for a mod's name shows the name, with the cursor on its line.
pub proof fn law_name_window(app: TuiView, window: Area)
    ensures
        ({
            let shown = mod_input(app, window);
            &&& shown.title == " Add New Mod "@
            &&& only_coloured(shown.border, Colour::Cyan)
            &&& only_coloured(shown.look, Colour::White)
            &&& shown.rows == text_rows(app.mod_input_buffer)
            &&& shown.cursor_x == cursor_column(window, 0, app.mod_input_buffer)
            &&& shown.cursor_y == window.y + 1
        }),
{
}

/// The window for user name and password shows the user name as it is and an
/// asterisk for each byte of the password, each behind its label, and the keys
/// that leave it. The field that has the focus is cyan, the other gray, and the
/// cursor stands behind the first.
pub proof fn law_config_window(app: TuiView, window: Area)
    ensures
        ({
            let shown = config_input(app, window);
            let on_name = app.config_edit_focus == ConfigField::Username;
            &&& shown.title == " Edit Config "@
            &&& only_coloured(shown.border, Colour::Cyan)
            &&& only_coloured(shown.look, Colour::White)
            &&& shown.rows.len() == 4
            &&& shown.rows[0].len() == 2 && shown.rows[1].len() == 2
            &&& shown.rows[0][0].text == " Username: "@
            &&& shown.rows[0][1].text == app.config_edit_username
            &&& only_coloured(
                shown.rows[0][1].look,
                if on_name {
                    Colour::Cyan
                } else {
                    Colour::Gray
                },
            )
            &&& shown.rows[1][0].text == " Password: "@
            &&& shown.rows[1][1].text.len() == byte_len(app.config_edit_password)
            &&& forall|i: int|
                0 <= i < shown.rows[1][1].text.len() ==> #[trigger] shown.rows[1][1].text[i] == '*'
            &&& only_coloured(
                shown.rows[1][1].look,
                if on_name {
                    Colour::Gray
                } else {
                    Colour::Cyan
                },
            )
            &&& shown.rows[0][0].look == shown.rows[1][0].look
            &&& shown.rows[0][0].look.bold && !shown.rows[0][0].look.italic
                && shown.rows[0][0].look.fg == Some(Colour::White)
                && shown.rows[0][0].look.bg is None
            &&& shown.rows[2].len() == 1 && shown.rows[2][0].text.len() == 0 && unadorned(
                shown.rows[2][0].look,
            )
            &&& shown.rows[3].len() == 1 && shown.rows[3][0].text
                == " Tab: switch field  |  Enter: save  |  Esc: cancel "@ && only_coloured(
                shown.rows[3][0].look,
                Colour::DarkGray,
            )
            &&& on_name ==> shown.cursor_x == cursor_column(window, 11, app.config_edit_username)
                && shown.cursor_y == window.y + 1
            &&& !on_name ==> shown.cursor_x == cursor_column(window, 11, app.config_edit_password)
                && shown.cursor_y == window.y + 2
        }),
{
    assert(config_input(app, window).rows[1][1].text == masked(app.config_edit_password));
}

/// Which window lies over the screen goes by what is being typed, and none does
/// when nothing is; it is three lines high for a name and seven for user name and
/// password, as far as the screen has so many.
pub proof fn law_which_window(app: TuiView, area: Area, shown: Option<(Area, Overlay)>)
    requires
        is_input(app, area, shown),
    ensures
        shown is None <==> app.input_mode == InputMode::Normal,
        app.input_mode == InputMode::AddingMod ==> (shown->0).1@ == mod_input(app, (shown->0).0)
            && (shown->0).0.height == if area.height >= 3 {
            3
        } else {
            area.height
        },
        app.input_mode == InputMode::EditingConfig ==> (shown->0).1@ == config_input(
            app,
            (shown->0).0,
        ) && (shown->0).0.height == if area.height >= 7 {
            7
        } else {
            area.height
        },
{
}

/// Hundredths are rounded to the nearest whole, a half upwards.
pub proof fn law_rounding(hundredths: int)
    ensures
        100 * rounded(hundredths) - 50 <= hundredths < 100 * rounded(hundredths) + 50,
{
}

/// The parts fill the screen: the title is its first line, the key bar its last,
/// the panels have all lines between; side by side they have all columns, three
/// tenths, three tenths and four tenths, to the nearest column.
pub proof fn law_screen_is_filled(places: Places, area: Area)
    requires
        arranged(places, area),
    ensures
        places.title.height + places.mods.height + places.bar.height == area.height,
        places.mods.width + places.queue.width + places.log.width == area.width,
        area.height >= 3 ==> places.title.y == area.y && places.title.height == 1 && places.mods.y
            == area.y + 1 && places.mods.height == area.height - 2 && places.bar.y == area.y
            + area.height - 1 && places.bar.height == 1,
        area.height == 1 || area.height == 2 ==> places.mods.height == 1,
        places.title.width == area.width && places.bar.width == area.width,
        places.queue.y == places.mods.y && places.log.y == places.mods.y,
        places.queue.height == places.mods.height && places.log.height == places.mods.height,
        places.mods.x == area.x,
        places.queue.x == area.x + places.mods.width,
        places.log.x == area.x + places.mods.width + places.queue.width,
        -5 <= 10 * places.mods.width - 3 * area.width <= 5,
        -5 <= 10 * (places.mods.width + places.queue.width) - 6 * area.width <= 5,
{
}

/// A window in the middle leaves a quarter of the columns free on either side, to
/// the nearest column, and begins below its margin, to the nearest line, as soon
/// as there is room for it.
pub proof fn law_window_is_centred(window: Area, area: Area, height: u16, margin: u16)
    requires
        centred(window, area, height, margin),
    ensures
        area.x <= window.x && window.x + window.width <= area.x + area.width,
        area.y <= window.y && window.y + window.height <= area.y + area.height,
        -2 <= 4 * (window.x - area.x) - area.width <= 2,
        -2 <= 4 * (window.x + window.width - area.x) - 3 * area.width <= 2,
        height <= area.height ==> window.height == height,
        height > area.height ==> window.height == area.height,
        2 * (area.height * margin) + 100 * height <= 100 * area.height ==> -50 <= 100 * (window.y
            - area.y) - area.height * margin <= 50,
{
}

/// A window can be drawn wherever the column behind its text, the last column
/// inside its border and its line can be written in sixteen bits.
pub proof fn law_when_a_window_fits(app: TuiView, window: Area)
    ensures
        mod_cursor_fits(app, window) <==> window.x + 1 + byte_len(app.mod_input_buffer) % 0x1_0000
            <= 0xffff && window.x + window.width <= 0x1_0001 && window.y + 1 <= 0xffff,
        app.config_edit_focus == ConfigField::Username ==> (config_cursor_fits(app, window)
            <==> window.x + 12 + byte_len(app.config_edit_username) % 0x1_0000 <= 0xffff && window.x
            + window.width <= 0x1_0001 && window.y + 1 <= 0xffff),
        app.config_edit_focus == ConfigField::Password ==> (config_cursor_fits(app, window)
            <==> window.x + 12 + byte_len(app.config_edit_password) % 0x1_0000 <= 0xffff && window.x
            + window.width <= 0x1_0001 && window.y + 2 <= 0xffff),
{
}

/// On a screen that begins at its first line and column and is no wider than
/// forty thousand columns, what is typed can always be shown as long as it has
/// fewer than thirty thousand bytes.
pub proof fn law_input_fits_ordinary_screens(app: TuiView, area: Area)
    requires
        area.x == 0,
        area.y == 0,
        area.width <= 40000,
        byte_len(app.mod_input_buffer) < 30000,
        byte_len(app.config_edit_username) < 30000,
        byte_len(app.config_edit_password) < 30000,
    ensures
        input_fits(app, area),
{
}

} // verus!
