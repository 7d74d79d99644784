//! The windows in which a mod's name, or user name and password, are typed.

use vstd::prelude::*;
use vstd::utf8::encode_utf8;
use crate::layout::{centre, centred, rounded, Area};
use crate::screen::{
    add_row, coloured, pieces, plain, row_of, rows_of, Colour, Look, Piece, PieceView,
};
use crate::text::{owned, repeat, repeated, split_lines, text_lines, texts};
use crate::tui::{field, ConfigField, InputMode, TuiApp, TuiView};

verus! {

/// A window with some rows and a cursor.
#[derive(Debug)]
pub struct Overlay {
    pub title: String,
    pub border: Look,
    pub look: Look,
    pub rows: Vec<Vec<Piece>>,
    pub cursor_x: u16,
    pub cursor_y: u16,
}

#[verifier::ext_equal]
pub struct OverlayView {
    pub title: Seq<char>,
    pub border: Look,
    pub look: Look,
    pub rows: Seq<Seq<PieceView>>,
    pub cursor_x: int,
    pub cursor_y: int,
}

impl View for Overlay {
    type V = OverlayView;

    open spec fn view(&self) -> OverlayView {
        OverlayView {
            title: self.title@,
            border: self.border,
            look: self.look,
            rows: rows_of(self.rows@),
            cursor_x: self.cursor_x as int,
            cursor_y: self.cursor_y as int,
        }
    }
}

/// The length of a text in bytes.
pub open spec fn byte_len(text: Seq<char>) -> nat {
    encode_utf8(text).len()
}

/// The length of a text in bytes as far as sixteen bits hold it.
pub open spec fn short_len(text: Seq<char>) -> int {
    byte_len(text) as int % 0x1_0000
}

/// Where the cursor stands behind a text that begins `indent` columns inside
/// the window; it stays inside the border.
pub open spec fn cursor_column(window: Area, indent: int, text: Seq<char>) -> int {
    let behind = window.x + 1 + indent + short_len(text);
    let last = window.x + if window.width >= 2 {
        window.width - 2
    } else {
        0
    };
    if behind <= last {
        behind
    } else {
        last
    }
}

/// Whether the column behind the text, the last column inside the border and
/// the line can be written as coordinates.
pub open spec fn cursor_fits(window: Area, indent: int, text: Seq<char>, line: int) -> bool {
    &&& window.x + 1 + indent + short_len(text) <= u16::MAX
    &&& window.x + window.width - 2 <= u16::MAX
    &&& window.y + line <= u16::MAX
}

/// The length of a text in bytes as far as sixteen bits hold it.
fn short_byte_len(text: &str) -> (n: u16)
    ensures
        n == short_len(text@),
{
    let bytes: usize = text.as_bytes().len();
    assert(bytes == byte_len(text@));
    let n: u16 = #[verifier::truncate] (bytes as u16);
    assert(bytes as u16 == bytes % 0x1_0000) by (bit_vector);
    n
}

/// Whether the cursor can be placed.
fn can_place(window: Area, indent: u16, text: &str, line: u16) -> (r: bool)
    ensures
        r == cursor_fits(window, indent as int, text@, line as int),
{
    let n: u32 = short_byte_len(text) as u32;
    window.x as u32 + 1 + indent as u32 + n <= 0xffff && window.x as u32 + window.width as u32
        <= 0xffff + 2 && window.y as u32 + line as u32 <= 0xffff
}

/// Places the cursor.
fn place_cursor(window: Area, indent: u16, text: &str, line: u16) -> (at: (u16, u16))
    requires
        cursor_fits(window, indent as int, text@, line as int),
    ensures
        at.0 == cursor_column(window, indent as int, text@),
        at.1 == window.y + line,
{
    let behind: u16 = window.x + 1 + indent + short_byte_len(text);
    let room: u16 = if window.width >= 2 {
        window.width - 2
    } else {
        0
    };
    let last: u16 = window.x + room;
    let x: u16 = if behind <= last {
        behind
    } else {
        last
    };
    (x, window.y + line)
}

/// The window for a mod's name.
pub fn mod_input_window(area: Area) -> (window: Area)
    requires
        area.valid(),
    ensures
        centred(window, area, 3, 40),
{
    centre(area, 3, 40)
}

/// The window for user name and password.
pub fn config_window(area: Area) -> (window: Area)
    requires
        area.valid(),
    ensures
        centred(window, area, 7, 35),
{
    centre(area, 7, 35)
}

/// Whether the cursor behind a mod's name has coordinates that can be written.
pub open spec fn mod_cursor_fits(app: TuiView, window: Area) -> bool {
    cursor_fits(window, 0, app.mod_input_buffer, 1)
}

/// Tells whether the cursor behind a mod's name can be placed.
pub fn can_draw_mod_input(app: &TuiApp, window: Area) -> (r: bool)
    ensures
        r == mod_cursor_fits(app@, window),
{
    can_place(window, 0, app.mod_input_buffer.as_str(), 1)
}

/// The rows of a text: its lines, or one empty row.
pub open spec fn text_rows(text: Seq<char>) -> Seq<Seq<PieceView>> {
    if text.len() == 0 {
        seq![seq![PieceView { text, look: plain() }]]
    } else {
        Seq::new(
            text_lines(text).len(),
            |i: int| seq![PieceView { text: text_lines(text)[i], look: plain() }],
        )
    }
}

/// Makes the rows of a text.
fn make_text_rows(text: &str) -> (rows: Vec<Vec<Piece>>)
    ensures
        rows_of(rows@) == text_rows(text@),
{
    let mut rows: Vec<Vec<Piece>> = Vec::new();
    if text.is_empty() {
        add_row(&mut rows, row_of(owned(text), Look::none()));
    } else {
        let list: Vec<String> = split_lines(text);
        let ghost all = text_lines(text@);
        for i in 0..list.len()
            invariant
                all == texts(list@),
                rows@.len() == i,
                forall|j: int|
                    0 <= j < i ==> pieces((#[trigger] rows@[j])@) == seq![
                        PieceView { text: all[j], look: plain() },
                    ],
        {
            assert(all[i as int] == list@[i as int]@);
            rows.push(row_of(list[i].clone(), Look::none()));
        }
        assert(all.len() == list@.len());
    }
    assert(rows_of(rows@) =~= text_rows(text@));
    rows
}

/// The window in which a mod's name is typed.
pub open spec fn mod_input(app: TuiView, window: Area) -> OverlayView {
    OverlayView {
        title: " Add New Mod "@,
        border: coloured(Colour::Cyan),
        look: coloured(Colour::White),
        rows: text_rows(app.mod_input_buffer),
        cursor_x: cursor_column(window, 0, app.mod_input_buffer),
        cursor_y: window.y + 1,
    }
}

/// Makes the window in which a mod's name is typed.
pub fn draw_mod_input_overlay(app: &TuiApp, window: Area) -> (overlay: Overlay)
    requires
        mod_cursor_fits(app@, window),
    ensures
        overlay@ == mod_input(app@, window),
{
    let (cursor_x, cursor_y) = place_cursor(window, 0, app.mod_input_buffer.as_str(), 1);
    let rows: Vec<Vec<Piece>> = make_text_rows(app.mod_input_buffer.as_str());
    Overlay {
        title: owned(" Add New Mod "),
        border: Look::of(Colour::Cyan),
        look: Look::of(Colour::White),
        rows,
        cursor_x,
        cursor_y,
    }
}

/// The line of the field that has the focus.
pub open spec fn focus_line(focus: ConfigField) -> int {
    match focus {
        ConfigField::Username => 1,
        ConfigField::Password => 2,
    }
}

/// The width of the labels.
pub const LABEL: u16 = 11;

/// Whether the cursor behind the field that has the focus has coordinates that
/// can be written.
pub open spec fn config_cursor_fits(app: TuiView, window: Area) -> bool {
    cursor_fits(window, LABEL as int, field(app), focus_line(app.config_edit_focus))
}

/// A field and its label; the field shows whether it has the focus.
pub open spec fn field_row(label: Seq<char>, text: Seq<char>, focused: bool) -> Seq<PieceView> {
    seq![
        PieceView { text: label, look: Look { bold: true, ..coloured(Colour::White) } },
        PieceView {
            text,
            look: if focused {
                coloured(Colour::Cyan)
            } else {
                coloured(Colour::Gray)
            },
        },
    ]
}

/// A password as it is shown: an asterisk for each byte.
pub open spec fn masked(password: Seq<char>) -> Seq<char> {
    repeated('*', byte_len(password))
}

/// The window in which user name and password are typed.
pub open spec fn config_input(app: TuiView, window: Area) -> OverlayView {
    OverlayView {
        title: " Edit Config "@,
        border: coloured(Colour::Cyan),
        look: coloured(Colour::White),
        rows: seq![
            field_row(
                " Username: "@,
                app.config_edit_username,
                app.config_edit_focus == ConfigField::Username,
            ),
            field_row(
                " Password: "@,
                masked(app.config_edit_password),
                app.config_edit_focus == ConfigField::Password,
            ),
            seq![PieceView { text: Seq::empty(), look: plain() }],
            seq![
                PieceView {
                    text: " Tab: switch field  |  Enter: save  |  Esc: cancel "@,
                    look: coloured(Colour::DarkGray),
                },
            ],
        ],
        cursor_x: cursor_column(window, LABEL as int, field(app)),
        cursor_y: window.y + focus_line(app.config_edit_focus),
    }
}

/// Makes a field and its label.
fn make_field_row(label: &str, text: String, focused: bool) -> (row: Vec<Piece>)
    ensures
        pieces(row@) == field_row(label@, text@, focused),
{
    let mut row: Vec<Piece> = Vec::new();
    row.push(
        Piece {
            text: owned(label),
            look: Look { fg: Some(Colour::White), bg: None, bold: true, italic: false },
        },
    );
    let colour: Colour = if focused {
        Colour::Cyan
    } else {
        Colour::Gray
    };
    row.push(Piece { text, look: Look::of(colour) });
    assert(pieces(row@) =~= field_row(label@, text@, focused));
    row
}

/// The text and the line of the field that has the focus.
fn focused_field(app: &TuiApp) -> (r: (&str, u16))
    ensures
        r.0@ == field(app@),
        r.1 == focus_line(app@.config_edit_focus),
{
    match app.config_edit_focus {
        ConfigField::Username => (app.config_edit_username.as_str(), 1),
        ConfigField::Password => (app.config_edit_password.as_str(), 2),
    }
}

/// Tells whether the cursor behind the field that has the focus can be placed.
pub fn can_draw_config(app: &TuiApp, window: Area) -> (r: bool)
    ensures
        r == config_cursor_fits(app@, window),
{
    let (text, line): (&str, u16) = focused_field(app);
    can_place(window, LABEL, text, line)
}

/// Makes the window in which user name and password are typed.
pub fn draw_config_overlay(app: &TuiApp, window: Area) -> (overlay: Overlay)
    requires
        config_cursor_fits(app@, window),
    ensures
        overlay@ == config_input(app@, window),
{
    let (text, line): (&str, u16) = focused_field(app);
    let (cursor_x, cursor_y) = place_cursor(window, LABEL, text, line);
    let on_username: bool = app.config_edit_focus == ConfigField::Username;
    let mask: String = repeat('*', app.config_edit_password.as_str().as_bytes().len());
    let mut rows: Vec<Vec<Piece>> = Vec::new();
    add_row(
        &mut rows,
        make_field_row(" Username: ", app.config_edit_username.clone(), on_username),
    );
    add_row(&mut rows, make_field_row(" Password: ", mask, !on_username));
    add_row(&mut rows, row_of(String::new(), Look::none()));
    add_row(
        &mut rows,
        row_of(
            owned(" Tab: switch field  |  Enter: save  |  Esc: cancel "),
            Look::of(Colour::DarkGray),
        ),
    );
    assert(rows_of(rows@) =~= config_input(app@, window).rows);
    Overlay {
        title: owned(" Edit Config "),
        border: Look::of(Colour::Cyan),
        look: Look::of(Colour::White),
        rows,
        cursor_x,
        cursor_y,
    }
}

/// Whether the cursor behind a text, in a window in the middle of the screen, has
/// coordinates that can be written. On a screen with fewer lines than `line` the
/// cursor would stand below it.
pub open spec fn centre_fits(area: Area, indent: int, text: Seq<char>, line: int) -> bool {
    &&& area.x + rounded(25 * area.width) + 1 + indent + short_len(text) <= u16::MAX
    &&& area.height >= line || area.y + line <= u16::MAX
}

/// Whether the cursor of the window that the program is to show has coordinates
/// that can be written.
pub open spec fn input_fits(app: TuiView, area: Area) -> bool {
    match app.input_mode {
        InputMode::Normal => true,
        InputMode::AddingMod => centre_fits(area, 0, app.mod_input_buffer, 1),
        InputMode::EditingConfig => centre_fits(
            area,
            LABEL as int,
            field(app),
            focus_line(app.config_edit_focus),
        ),
    }
}

/// Whether the cursor in a window in the middle of the screen can be placed.
fn can_place_centred(area: Area, indent: u16, text: &str, line: u16) -> (r: bool)
    ensures
        r == centre_fits(area, indent as int, text@, line as int),
{
    let n: u32 = short_byte_len(text) as u32;
    let left: u32 = area.x as u32 + (25 * area.width as u32 + 50) / 100;
    left + 1 + indent as u32 + n <= 0xffff && (area.height >= line || area.y as u32 + line as u32
        <= 0xffff)
}

/// Tells whether the window that the program is to show can be drawn.
pub fn can_draw_input(app: &TuiApp, area: Area) -> (r: bool)
    ensures
        r == input_fits(app@, area),
{
    match app.input_mode {
        InputMode::Normal => true,
        InputMode::AddingMod => can_place_centred(area, 0, app.mod_input_buffer.as_str(), 1),
        InputMode::EditingConfig => {
            let (text, line): (&str, u16) = focused_field(app);
            can_place_centred(area, LABEL, text, line)
        },
    }
}

/// Whether a window and what it shows are those of the program: none when nothing
/// is being typed, else the one for what is being typed.
pub open spec fn is_input(app: TuiView, area: Area, shown: Option<(Area, Overlay)>) -> bool {
    match (app.input_mode, shown) {
        (InputMode::Normal, None) => true,
        (InputMode::AddingMod, Some((window, overlay))) => centred(window, area, 3, 40)
            && overlay@ == mod_input(app, window),
        (InputMode::EditingConfig, Some((window, overlay))) => centred(window, area, 7, 35)
            && overlay@ == config_input(app, window),
        _ => false,
    }
}

/// Makes the window that the program is to show over the screen, if any.
pub fn draw_input(app: &TuiApp, area: Area) -> (shown: Option<(Area, Overlay)>)
    requires
        area.valid(),
        input_fits(app@, area),
    ensures
        is_input(app@, area, shown),
{
    match app.input_mode {
        InputMode::Normal => None,
        InputMode::AddingMod => {
            let window: Area = mod_input_window(area);
            Some((window, draw_mod_input_overlay(app, window)))
        },
        InputMode::EditingConfig => {
            let window: Area = config_window(area);
            Some((window, draw_config_overlay(app, window)))
        },
    }
}

/// The cursor stays inside the border of its window, if there is room inside.
pub proof fn law_cursor_stays_inside(window: Area, indent: int, text: Seq<char>)
    requires
        indent >= 0,
    ensures
        window.x <= cursor_column(window, indent, text),
        window.width >= 2 ==> cursor_column(window, indent, text) <= window.x + window.width - 2,
        window.width >= 3 ==> window.x < cursor_column(window, indent, text),
{
}

/// What is shown of a password depends on its length alone.
pub proof fn law_password_is_masked(left: Seq<char>, right: Seq<char>)
    requires
        byte_len(left) == byte_len(right),
    ensures
        masked(left) == masked(right),
        forall|i: int| 0 <= i < masked(left).len() ==> masked(left)[i] == '*',
{
}

} // verus!
