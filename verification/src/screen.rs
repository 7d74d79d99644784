//! What the interactive program shows: the panels, the title and the key bar,
//! the windows for input, and where they stand.

use vstd::prelude::*;
use vstd::string::StringExecFns;
use crate::layout::{arrange, arranged, Area, Places};
use crate::models::{files, FileToDownload, FileToDownloadView};
use crate::string_map::{enumerates, in_order};
use crate::text::{before, decimal, decimal_text, law_dictionary_order, owned, texts};
use crate::tui::{InputMode, ListPosition, LogLevel, Panel, TuiApp, TuiView};

verus! {

/// The colours in use.
#[derive(Clone, Copy, Debug, PartialEq, Eq, Structural)]
pub enum Colour {
    Black,
    Red,
    Green,
    Yellow,
    Cyan,
    Gray,
    DarkGray,
    White,
}

/// How a text looks.
#[derive(Clone, Copy, Debug, PartialEq, Eq)]
pub struct Look {
    pub fg: Option<Colour>,
    pub bg: Option<Colour>,
    pub bold: bool,
    pub italic: bool,
}

/// A text without any look of its own.
pub open spec fn plain() -> Look {
    Look { fg: None, bg: None, bold: false, italic: false }
}

/// A text in this colour.
pub open spec fn coloured(fg: Colour) -> Look {
    Look { fg: Some(fg), ..plain() }
}

impl Look {
    /// No look.
    pub fn none() -> (look: Self)
        ensures
            look == plain(),
    {
        Look { fg: None, bg: None, bold: false, italic: false }
    }

    /// This colour.
    pub fn of(fg: Colour) -> (look: Self)
        ensures
            look == coloured(fg),
    {
        Look { fg: Some(fg), bg: None, bold: false, italic: false }
    }
}

/// A text with its look.
#[derive(Debug)]
pub struct Piece {
    pub text: String,
    pub look: Look,
}

#[verifier::ext_equal]
pub struct PieceView {
    pub text: Seq<char>,
    pub look: Look,
}

impl View for Piece {
    type V = PieceView;

    open spec fn view(&self) -> PieceView {
        PieceView { text: self.text@, look: self.look }
    }
}

/// The pieces of a row.
pub open spec fn pieces(row: Seq<Piece>) -> Seq<PieceView> {
    row.map_values(|p: Piece| p@)
}

/// The rows of a list.
pub open spec fn rows_of(rows: Seq<Vec<Piece>>) -> Seq<Seq<PieceView>> {
    rows.map_values(|r: Vec<Piece>| pieces(r@))
}

/// A row of one piece.
pub(crate) fn row_of(text: String, look: Look) -> (row: Vec<Piece>)
    ensures
        pieces(row@) == seq![PieceView { text: text@, look }],
{
    let mut row: Vec<Piece> = Vec::new();
    row.push(Piece { text, look });
    assert(pieces(row@) =~= seq![PieceView { text: text@, look }]);
    row
}

/// Puts a row behind others.
pub(crate) fn add_row(rows: &mut Vec<Vec<Piece>>, row: Vec<Piece>)
    ensures
        rows_of(final(rows)@) == rows_of(old(rows)@).push(pieces(row@)),
{
    let ghost was = rows@;
    rows.push(row);
    assert(rows_of(rows@) =~= rows_of(was).push(pieces(row@)));
}

/// A panel with a list.
#[derive(Debug)]
pub struct PanelPicture {
    pub title: String,
    pub border: Look,
    pub rows: Vec<Vec<Piece>>,
    /// How the selected row looks.
    pub highlight: Look,
    /// What stands before the selected row.
    pub symbol: String,
    pub place: ListPosition,
}

#[verifier::ext_equal]
pub struct PanelPictureView {
    pub title: Seq<char>,
    pub border: Look,
    pub rows: Seq<Seq<PieceView>>,
    pub highlight: Look,
    pub symbol: Seq<char>,
    pub place: ListPosition,
}

impl View for PanelPicture {
    type V = PanelPictureView;

    open spec fn view(&self) -> PanelPictureView {
        PanelPictureView {
            title: self.title@,
            border: self.border,
            rows: rows_of(self.rows@),
            highlight: self.highlight,
            symbol: self.symbol@,
            place: self.place,
        }
    }
}

/// The border of a panel, which shows whether it is active.
pub open spec fn border_look(is_active: bool) -> Look {
    if is_active {
        coloured(Colour::Cyan)
    } else {
        coloured(Colour::DarkGray)
    }
}

/// Makes the border of a panel.
pub fn active_border_style(is_active: bool) -> (look: Look)
    ensures
        look == border_look(is_active),
{
    if is_active {
        Look::of(Colour::Cyan)
    } else {
        Look::of(Colour::DarkGray)
    }
}

/// The look of the selected row, which shows whether its panel is active.
pub open spec fn highlight_look(is_active: bool) -> Look {
    Look {
        fg: Some(Colour::Black),
        bg: Some(
            if is_active {
                Colour::Cyan
            } else {
                Colour::DarkGray
            },
        ),
        bold: false,
        italic: false,
    }
}

/// Makes the look of the selected row.
fn highlight(is_active: bool) -> (look: Look)
    ensures
        look == highlight_look(is_active),
{
    let bg: Colour = if is_active {
        Colour::Cyan
    } else {
        Colour::DarkGray
    };
    Look { fg: Some(Colour::Black), bg: Some(bg), bold: false, italic: false }
}

/// The row of a mod: its name and its version.
pub open spec fn mod_row(name: Seq<char>, version: Seq<char>, colour: Colour) -> Seq<PieceView> {
    seq![
        PieceView { text: name, look: plain() },
        PieceView { text: "  "@, look: plain() },
        PieceView { text: "v"@ + version, look: coloured(colour) },
    ]
}

/// Makes the row of a mod.
fn make_mod_row(name: &str, version: &str, colour: Colour) -> (row: Vec<Piece>)
    ensures
        pieces(row@) == mod_row(name@, version@, colour),
{
    let mut row: Vec<Piece> = Vec::new();
    row.push(Piece { text: owned(name), look: Look::none() });
    row.push(Piece { text: owned("  "), look: Look::none() });
    row.push(Piece { text: owned("v").concat(version), look: Look::of(colour) });
    assert(pieces(row@) =~= mod_row(name@, version@, colour));
    row
}

/// The panel of the local mods, in this order.
pub open spec fn mods_panel(app: TuiView, names: Seq<Seq<char>>) -> PanelPictureView {
    let is_active = app.active_panel == Panel::LocalMods;
    PanelPictureView {
        title: " Local Mods ("@ + decimal(app.manifest.len()) + ") "@,
        border: border_look(is_active),
        rows: Seq::new(
            names.len(),
            |i: int| mod_row(names[i], app.manifest[names[i]].version, Colour::Yellow),
        ),
        highlight: highlight_look(is_active),
        symbol: "> "@,
        place: app.mod_list,
    }
}

/// Whether some names are those of the local mods in dictionary order.
pub open spec fn sorted_mods(app: TuiView, names: Seq<Seq<char>>) -> bool {
    enumerates(names, app.manifest) && in_order(names)
}

/// Makes the panel of the local mods, sorted by name.
pub fn render_mods_panel(app: &TuiApp) -> (panel: PanelPicture)
    ensures
        exists|names: Seq<Seq<char>>| #[trigger]
            sorted_mods(app@, names) && panel@ == mods_panel(app@, names),
{
    let is_active: bool = app.active_panel == Panel::LocalMods;
    let keys: Vec<String> = app.manifest.sorted_keys();
    let ghost names = texts(keys@);
    let mut rows: Vec<Vec<Piece>> = Vec::new();
    for i in 0..keys.len()
        invariant
            names == texts(keys@),
            enumerates(names, app.manifest@),
            rows@.len() == i,
            forall|j: int|
                0 <= j < i ==> pieces((#[trigger] rows@[j])@) == mod_row(
                    names[j],
                    app.manifest@[names[j]].version,
                    Colour::Yellow,
                ),
    {
        assert(names[i as int] == keys@[i as int]@);
        assert(names.to_set().contains(names[i as int]));
        match app.manifest.get(keys[i].as_str()) {
            Some(info) => {
                rows.push(make_mod_row(keys[i].as_str(), info.version.as_str(), Colour::Yellow));
            },
            None => {
                assert(false);
            },
        }
    }
    let title: String = owned(" Local Mods (").concat(decimal_text(keys.len()).as_str()).concat(
        ") ",
    );
    let panel: PanelPicture = PanelPicture {
        title,
        border: active_border_style(is_active),
        rows,
        highlight: highlight(is_active),
        symbol: owned("> "),
        place: app.mod_list,
    };
    proof {
        assert(sorted_mods(app@, names));
        assert(rows_of(rows@) =~= mods_panel(app@, names).rows);
        assert(panel@ =~= mods_panel(app@, names));
    }
    panel
}

proof fn lemma_sorted_once(left: Seq<Seq<char>>, right: Seq<Seq<char>>)
    requires
        in_order(left),
        in_order(right),
        left.no_duplicates(),
        right.no_duplicates(),
        left.len() == right.len(),
        forall|x: Seq<char>| left.contains(x) <==> right.contains(x),
    ensures
        left == right,
    decreases left.len(),
{
    if left.len() > 0 {
        let a = left.last();
        let b = right.last();
        assert(left.contains(a) && right.contains(b));
        assert(right.contains(a) && left.contains(b));
        if a != b {
            let i = choose|i: int| 0 <= i < right.len() && right[i] == a;
            let j = choose|j: int| 0 <= j < left.len() && left[j] == b;
            assert(before(right[i], right[right.len() - 1]));
            assert(before(left[j], left[left.len() - 1]));
            law_dictionary_order(a, b, a);
        }
        let l = left.drop_last();
        let r = right.drop_last();
        assert forall|x: Seq<char>| l.contains(x) <==> r.contains(x) by {
            if l.contains(x) {
                let i = choose|i: int| 0 <= i < l.len() && l[i] == x;
                assert(left[i] == x && x != a);
                assert(right.contains(x));
                let j = choose|j: int| 0 <= j < right.len() && right[j] == x;
                assert(r[j] == x);
            }
            if r.contains(x) {
                let j = choose|j: int| 0 <= j < r.len() && r[j] == x;
                assert(right[j] == x && x != b);
                assert(left.contains(x));
                let i = choose|i: int| 0 <= i < left.len() && left[i] == x;
                assert(l[i] == x);
            }
        }
        lemma_sorted_once(l, r);
        assert(left =~= l.push(a));
        assert(right =~= r.push(b));
    } else {
        assert(left =~= right);
    }
}

/// There is only one order that the local mods can be shown in.
pub proof fn law_one_order(app: TuiView, left: Seq<Seq<char>>, right: Seq<Seq<char>>)
    requires
        sorted_mods(app, left),
        sorted_mods(app, right),
    ensures
        left == right,
{
    assert forall|x: Seq<char>| left.contains(x) <==> right.contains(x) by {
        assert(left.to_set().contains(x) == left.contains(x));
        assert(right.to_set().contains(x) == right.contains(x));
    }
    lemma_sorted_once(left, right);
}

/// The rows of the queue; an empty queue shows one row that says so.
pub open spec fn queue_rows(queue: Seq<FileToDownloadView>) -> Seq<Seq<PieceView>> {
    if queue.len() == 0 {
        seq![
            seq![
                PieceView {
                    text: " None "@,
                    look: Look { italic: true, ..coloured(Colour::DarkGray) },
                },
            ],
        ]
    } else {
        Seq::new(
            queue.len(),
            |i: int| mod_row(queue[i].base_name, queue[i].new_version, Colour::Green),
        )
    }
}

/// The panel of the queue.
pub open spec fn queue_panel(app: TuiView) -> PanelPictureView {
    let is_active = app.active_panel == Panel::DownloadQueue;
    PanelPictureView {
        title: " Download Queue ("@ + decimal(app.download_queue.len()) + ") "@,
        border: border_look(is_active),
        rows: queue_rows(app.download_queue),
        highlight: highlight_look(is_active),
        symbol: "> "@,
        place: app.queue_list,
    }
}

/// Makes the rows of the queue.
fn make_queue_rows(queue: &Vec<FileToDownload>) -> (rows: Vec<Vec<Piece>>)
    ensures
        rows_of(rows@) == queue_rows(files(queue@)),
{
    let mut rows: Vec<Vec<Piece>> = Vec::new();
    if queue.len() == 0 {
        add_row(
            &mut rows,
            row_of(
                owned(" None "),
                Look { fg: Some(Colour::DarkGray), bg: None, bold: false, italic: true },
            ),
        );
    } else {
        for i in 0..queue.len()
            invariant
                rows@.len() == i,
                forall|j: int|
                    0 <= j < i ==> pieces((#[trigger] rows@[j])@) == mod_row(
                        queue@[j]@.base_name,
                        queue@[j]@.new_version,
                        Colour::Green,
                    ),
        {
            rows.push(
                make_mod_row(
                    queue[i].base_name.as_str(),
                    queue[i].new_version.as_str(),
                    Colour::Green,
                ),
            );
        }
    }
    assert(rows_of(rows@) =~= queue_rows(files(queue@)));
    rows
}

/// Makes the panel of the queue.
pub fn render_queue_panel(app: &TuiApp) -> (panel: PanelPicture)
    ensures
        panel@ == queue_panel(app@),
{
    let is_active: bool = app.active_panel == Panel::DownloadQueue;
    PanelPicture {
        title: owned(" Download Queue (").concat(
            decimal_text(app.download_queue.len()).as_str(),
        ).concat(") "),
        border: active_border_style(is_active),
        rows: make_queue_rows(&app.download_queue),
        highlight: highlight(is_active),
        symbol: owned("> "),
        place: app.queue_list,
    }
}

/// The look of a line of the log.
pub open spec fn level_look(level: LogLevel) -> Look {
    match level {
        LogLevel::Info => coloured(Colour::White),
        LogLevel::Success => coloured(Colour::Green),
        LogLevel::Error => coloured(Colour::Red),
    }
}

/// The panel of the log.
pub open spec fn log_panel(app: TuiView) -> PanelPictureView {
    PanelPictureView {
        title: " Status Log "@,
        border: border_look(app.active_panel == Panel::Log),
        rows: Seq::new(
            app.status_log.len(),
            |i: int|
                seq![
                    PieceView {
                        text: app.status_log[i].text,
                        look: level_look(app.status_log[i].level),
                    },
                ],
        ),
        highlight: Look { bg: Some(Colour::DarkGray), ..plain() },
        symbol: Seq::empty(),
        place: app.log_list,
    }
}

/// Makes the panel of the log.
pub fn render_log_panel(app: &TuiApp) -> (panel: PanelPicture)
    ensures
        panel@ == log_panel(app@),
{
    let mut rows: Vec<Vec<Piece>> = Vec::new();
    for i in 0..app.status_log.len()
        invariant
            rows@.len() == i,
            forall|j: int|
                0 <= j < i ==> pieces((#[trigger] rows@[j])@) == seq![
                    PieceView {
                        text: app.status_log@[j]@.text,
                        look: level_look(app.status_log@[j]@.level),
                    },
                ],
    {
        let look: Look = match app.status_log[i].level {
            LogLevel::Info => Look::of(Colour::White),
            LogLevel::Success => Look::of(Colour::Green),
            LogLevel::Error => Look::of(Colour::Red),
        };
        rows.push(row_of(app.status_log[i].text.clone(), look));
    }
    assert(rows_of(rows@) =~= log_panel(app@).rows);
    PanelPicture {
        title: owned(" Status Log "),
        border: active_border_style(app.active_panel == Panel::Log),
        rows,
        highlight: Look { fg: None, bg: Some(Colour::DarkGray), bold: false, italic: false },
        symbol: String::new(),
        place: app.log_list,
    }
}

/// The text of the title.
pub open spec fn title_piece() -> PieceView {
    PieceView {
        text: " Rusty Gears v3 — Interactive Mode "@,
        look: Look { bold: true, ..coloured(Colour::Cyan) },
    }
}

/// The text of the key bar.
pub open spec fn bar_piece() -> PieceView {
    PieceView {
        text:
            " F1 Check  |  F2 Add Mod  |  F3 Auth  |  F4 Download All  |  c Config  |  r Reload  |  Tab Focus  |  q Quit "@,
        look: Look { bg: Some(Colour::Cyan), ..coloured(Colour::Black) },
    }
}

/// The whole screen but for the window that may lie over it.
#[derive(Debug)]
pub struct Screen {
    pub places: Places,
    pub title: Piece,
    pub mods: PanelPicture,
    pub queue: PanelPicture,
    pub log: PanelPicture,
    pub bar: Piece,
    /// Which window lies over it.
    pub input: InputMode,
}

/// Makes the screen.
pub fn draw_ui(app: &TuiApp, area: Area) -> (screen: Screen)
    requires
        area.valid(),
    ensures
        arranged(screen.places, area),
        screen.title@ == title_piece(),
        exists|names: Seq<Seq<char>>| #[trigger]
            sorted_mods(app@, names) && screen.mods@ == mods_panel(app@, names),
        screen.queue@ == queue_panel(app@),
        screen.log@ == log_panel(app@),
        screen.bar@ == bar_piece(),
        screen.input == app@.input_mode,
{
    Screen {
        places: arrange(area),
        title: Piece {
            text: owned(" Rusty Gears v3 — Interactive Mode "),
            look: Look { fg: Some(Colour::Cyan), bg: None, bold: true, italic: false },
        },
        mods: render_mods_panel(app),
        queue: render_queue_panel(app),
        log: render_log_panel(app),
        bar: Piece {
            text: owned(
                " F1 Check  |  F2 Add Mod  |  F3 Auth  |  F4 Download All  |  c Config  |  r Reload  |  Tab Focus  |  q Quit ",
            ),
            look: Look {
                fg: Some(Colour::Black),
                bg: Some(Colour::Cyan),
                bold: false,
                italic: false,
            },
        },
        input: app.input_mode,
    }
}

} // verus!
