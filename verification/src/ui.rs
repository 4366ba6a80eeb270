//! The layout and render planner: a pure function from editor state and
//! viewport to a tree of labeled rectangles with styled text. Nothing
//! here mutates the editor; a drawing collaborator outside this crate
//! consumes the plan.

use vstd::prelude::*;
use vstd::string::StrSliceExecFns;
use vstd::string::StringExecFns;
use crate::editor::ActiveScreen;
use crate::editor::EditingMode;
use crate::editor::JsonEditor;

verus! {

/// An axis-aligned rectangle of terminal cells.
#[derive(Clone, Copy, PartialEq, Eq, Structural, Debug)]
pub struct Rect {
    pub x: u16,
    pub y: u16,
    pub width: u16,
    pub height: u16,
}

impl Rect {
    /// The rectangle stays within the addressable cell grid.
    pub open spec fn wf(&self) -> bool {
        self.x + self.width <= u16::MAX && self.y + self.height <= u16::MAX
    }
}

/// The heights of the three vertical bands for a viewport of height
/// `h`: a fixed title band of 3, a flexible middle of at least 1, and
/// a fixed footer band of 3. When there is too little room the middle
/// keeps its minimum of 1 and the two fixed bands starve evenly, one
/// cell at a time, so no band jumps as the viewport shrinks.
pub open spec fn band_heights(h: int) -> (int, int, int) {
    if h >= 7 {
        (3, h - 6, 3)
    } else if h >= 1 {
        let rem = h - 1;
        (rem - rem / 2, 1, rem / 2)
    } else {
        (0, 0, 0)
    }
}

/// The three bands stacked from the top of the viewport.
pub open spec fn spec_vertical_bands(v: Rect) -> (Rect, Rect, Rect) {
    let hs = band_heights(v.height as int);
    (
        Rect { x: v.x, y: v.y, width: v.width, height: hs.0 as u16 },
        Rect { x: v.x, y: (v.y + hs.0) as u16, width: v.width, height: hs.1 as u16 },
        Rect { x: v.x, y: (v.y + hs.0 + hs.1) as u16, width: v.width, height: hs.2 as u16 },
    )
}

/// A rectangle cut into a left and a right half; an odd column goes to
/// the right half.
pub open spec fn spec_split_half(r: Rect) -> (Rect, Rect) {
    (
        Rect { x: r.x, y: r.y, width: (r.width / 2) as u16, height: r.height },
        Rect {
            x: (r.x + r.width / 2) as u16,
            y: r.y,
            width: (r.width - r.width / 2) as u16,
            height: r.height,
        },
    )
}

/// A rectangle shrunk by a one-cell margin on every side; degenerate
/// rectangles collapse to the zero rectangle.
pub open spec fn spec_inner_margin(r: Rect) -> Rect {
    if r.width < 2 || r.height < 2 {
        Rect { x: 0, y: 0, width: 0, height: 0 }
    } else {
        Rect {
            x: (r.x + 1) as u16,
            y: (r.y + 1) as u16,
            width: (r.width - 2) as u16,
            height: (r.height - 2) as u16,
        }
    }
}

/// A sub-rectangle covering the given percentages of the container,
/// centered on both axes. Each size is the truncated percentage of the
/// container's extent; the leftover cells split evenly between the two
/// margins, the odd cell going to the far side.
pub open spec fn spec_centered_rect(percent_x: u16, percent_y: u16, c: Rect) -> Rect {
    let w = c.width * percent_x / 100;
    let h = c.height * percent_y / 100;
    Rect {
        x: (c.x + (c.width - w) / 2) as u16,
        y: (c.y + (c.height - h) / 2) as u16,
        width: w as u16,
        height: h as u16,
    }
}

/// Splits the viewport into the title, list and footer bands.
/// The bands always tile the viewport's full height; from height 3 up
/// the flexible middle band is the height less the two fixed bands,
/// floored at its minimum of 1.
pub fn vertical_bands(v: Rect) -> (r: (Rect, Rect, Rect))
    requires
        v.wf(),
    ensures
        r == spec_vertical_bands(v),
        r.0.height + r.1.height + r.2.height == v.height,
        v.height >= 3 ==> r.1.height == if v.height >= 7 {
            v.height - 6
        } else {
            1
        },
        r.0.wf() && r.1.wf() && r.2.wf(),
{
    let h = v.height;
    let h1: u16;
    let h2: u16;
    let h3: u16;
    if h >= 7 {
        h1 = 3;
        h2 = h - 6;
        h3 = 3;
    } else if h >= 1 {
        let rem = h - 1;
        h1 = rem - rem / 2;
        h2 = 1;
        h3 = rem / 2;
    } else {
        h1 = 0;
        h2 = 0;
        h3 = 0;
    }
    (
        Rect { x: v.x, y: v.y, width: v.width, height: h1 },
        Rect { x: v.x, y: v.y + h1, width: v.width, height: h2 },
        Rect { x: v.x, y: v.y + h1 + h2, width: v.width, height: h3 },
    )
}

/// Cuts a rectangle into two equal halves side by side; with an odd
/// width the right half is one cell wider.
pub fn split_half(r: Rect) -> (halves: (Rect, Rect))
    requires
        r.wf(),
    ensures
        halves == spec_split_half(r),
        halves.0.width + halves.1.width == r.width,
        halves.0.wf() && halves.1.wf(),
{
    let half = r.width / 2;
    (
        Rect { x: r.x, y: r.y, width: half, height: r.height },
        Rect { x: r.x + half, y: r.y, width: r.width - half, height: r.height },
    )
}

/// Shrinks a rectangle by a one-cell margin on every side.
pub fn inner_margin(r: Rect) -> (inner: Rect)
    requires
        r.wf(),
    ensures
        inner == spec_inner_margin(r),
        inner.wf(),
{
    if r.width < 2 || r.height < 2 {
        Rect { x: 0, y: 0, width: 0, height: 0 }
    } else {
        Rect { x: r.x + 1, y: r.y + 1, width: r.width - 2, height: r.height - 2 }
    }
}

/// Creates a centered rectangle covering `percent_x` of the container's
/// width and `percent_y` of its height, by integer percentage
/// arithmetic with truncating division. The result never leaves the
/// container, and the two margins of each axis differ by at most one
/// cell, the far one taking the odd cell.
pub fn centered_rect(percent_x: u16, percent_y: u16, container: Rect) -> (r: Rect)
    requires
        percent_x <= 100,
        percent_y <= 100,
        container.wf(),
    ensures
        r == spec_centered_rect(percent_x, percent_y, container),
        container.x <= r.x && r.x + r.width <= container.x + container.width,
        container.y <= r.y && r.y + r.height <= container.y + container.height,
        (container.x + container.width) - (r.x + r.width) - (r.x - container.x) <= 1,
        r.x - container.x <= (container.x + container.width) - (r.x + r.width),
        (container.y + container.height) - (r.y + r.height) - (r.y - container.y) <= 1,
        r.y - container.y <= (container.y + container.height) - (r.y + r.height),
        r.wf(),
{
    proof {
        lemma_percentage_slice_fits(container.width as int, percent_x as int);
        lemma_percentage_slice_fits(container.height as int, percent_y as int);
    }
    let w = ((container.width as u32) * (percent_x as u32) / 100) as u16;
    let h = ((container.height as u32) * (percent_y as u32) / 100) as u16;
    let off_x = (container.width - w) / 2;
    let off_y = (container.height - h) / 2;
    Rect { x: container.x + off_x, y: container.y + off_y, width: w, height: h }
}

/// A truncated percentage of a length is at most the length (so the
/// centering offsets never underflow) and stays well under the u32
/// range the executable arithmetic works in.
proof fn lemma_percentage_slice_fits(len: int, pct: int)
    requires
        0 <= len <= 65535,
        0 <= pct <= 100,
    ensures
        0 <= len * pct <= 6553500,
        0 <= len * pct / 100 <= len,
{
    vstd::arithmetic::mul::lemma_mul_upper_bound(len, 65535, pct, 100);
    vstd::arithmetic::mul::lemma_mul_nonnegative(len, pct);
    assert(len * pct <= len * 100) by (nonlinear_arith)
        requires
            len >= 0,
            pct <= 100,
    ;
    vstd::arithmetic::div_mod::lemma_div_pos_is_pos(len * pct, 100);
    vstd::arithmetic::div_mod::lemma_div_is_ordered(len * pct, len * 100, 100);
    vstd::arithmetic::div_mod::lemma_div_multiples_vanish(len, 100);
    assert(len * 100 == 100 * len);
}

/// A run of `n` spaces.
pub open spec fn spaces(n: nat) -> Seq<char> {
    Seq::new(n, |i: int| ' ')
}

/// A key fitted to the fixed 25-character list column: short keys are
/// padded with spaces, longer keys are cut off at the column edge.
pub open spec fn pad_key(s: Seq<char>) -> Seq<char> {
    if s.len() >= 25 {
        s.take(25)
    } else {
        s + spaces((25 - s.len()) as nat)
    }
}

/// One list line: the key in its column, a literal separator, the
/// value.
pub open spec fn pair_line(k: Seq<char>, v: Seq<char>) -> Seq<char> {
    pad_key(k) + " : "@ + v
}

/// Builds the text of one list line for a stored pair.
pub fn render_pair_line(key: &String, value: &String) -> (r: String)
    ensures
        r@ == pair_line(key@, value@),
{
    let len0 = key.as_str().unicode_len();
    let mut s: String;
    if len0 >= 25 {
        s = key.as_str().substring_char(0, 25).to_owned();
        proof {
            assert(s@ =~= pad_key(key@));
        }
    } else {
        s = key.clone();
        let mut n = len0;
        proof {
            assert(key@ + spaces(0) =~= key@);
        }
        while n < 25
            invariant
                len0 == key@.len(),
                len0 <= n <= 25,
                s@ == key@ + spaces((n - len0) as nat),
            decreases 25 - n,
        {
            s.append(" ");
            n = n + 1;
            proof {
                reveal_strlit(" ");
                assert(s@ =~= key@ + spaces((n - len0) as nat));
            }
        }
        proof {
            assert(s@ =~= pad_key(key@));
        }
    }
    let mut r = s;
    r.append(" : ");
    r.append(value.as_str());
    r
}

/// The palette the planner draws from; the drawing collaborator maps
/// each to its terminal color.
#[derive(Clone, Copy, PartialEq, Eq, Structural, Debug)]
pub enum TextColor {
    Green,
    Yellow,
    LightGreen,
    LightRed,
    LightYellow,
    DarkGray,
    White,
    Red,
    Black,
}

/// A run of text in one color.
pub struct Span {
    pub text: String,
    pub fg: TextColor,
}

/// The bordered title band.
pub struct TitleBar {
    pub area: Rect,
    pub text: Span,
}

/// The object preview band: one line per stored pair.
pub struct PairList {
    pub area: Rect,
    pub lines: Vec<Span>,
}

/// The status band: mode text on the left, key hints on the right.
pub struct Footer {
    pub mode_area: Rect,
    pub mode_spans: Vec<Span>,
    pub hint_area: Rect,
    pub hint: Span,
}

/// The centered key/value input popup; `active` names the box that is
/// highlighted and receives keystrokes.
pub struct EditPopup {
    pub area: Rect,
    pub title: String,
    pub key_box: Rect,
    pub value_box: Rect,
    pub key_title: String,
    pub value_title: String,
    pub key_text: String,
    pub value_text: String,
    pub active: EditingMode,
}

/// The centered exit confirmation popup; it replaces everything drawn
/// before it for the frame.
pub struct ExitPopup {
    pub area: Rect,
    pub title: String,
    pub text: Span,
    pub wrap: bool,
    pub clear_screen: bool,
}

/// One frame's worth of drawable regions.
pub struct RenderPlan {
    pub title: TitleBar,
    pub list: PairList,
    pub footer: Footer,
    pub edit_popup: Option<EditPopup>,
    pub exit_popup: Option<ExitPopup>,
}

/// The left status text for each screen.
pub open spec fn screen_label(s: ActiveScreen) -> Seq<char> {
    match s {
        ActiveScreen::Main => "Normal Mode"@,
        ActiveScreen::Editing => "Editing Mode"@,
        ActiveScreen::Exiting => "Exiting"@,
    }
}

pub open spec fn screen_color(s: ActiveScreen) -> TextColor {
    match s {
        ActiveScreen::Main => TextColor::Green,
        ActiveScreen::Editing => TextColor::Yellow,
        ActiveScreen::Exiting => TextColor::LightRed,
    }
}

/// The editing hint beside the status text.
pub open spec fn mode_label(m: Option<EditingMode>) -> Seq<char> {
    match m {
        Some(EditingMode::Key) => "Editing Json Key"@,
        Some(EditingMode::Value) => "Editing Json Value"@,
        None => "Not Editing Anything"@,
    }
}

pub open spec fn mode_color(m: Option<EditingMode>) -> TextColor {
    match m {
        Some(EditingMode::Key) => TextColor::Green,
        Some(EditingMode::Value) => TextColor::LightGreen,
        None => TextColor::DarkGray,
    }
}

/// The keybinding hint for each screen.
pub open spec fn hint_label(s: ActiveScreen) -> Seq<char> {
    match s {
        ActiveScreen::Editing => "(ESC) to cancel/(Tab) to switch boxes/enter to complete"@,
        _ => "(q) to quit / (e) to make new pair"@,
    }
}

/// Plans one frame from the editor state and the viewport: the three
/// bands with their content, and the popup, if any, on top. Pure: the
/// editor is only read.
pub fn ui(app: &JsonEditor, viewport: Rect) -> (plan: RenderPlan)
    requires
        viewport.wf(),
    ensures
        plan.title.area == spec_vertical_bands(viewport).0,
        plan.title.text.text@ == "Create New Json"@,
        plan.title.text.fg == TextColor::Green,
        plan.list.area == spec_vertical_bands(viewport).1,
        plan.list.lines@.len() == app.pairs.len_spec(),
        forall|i: int|
            0 <= i < app.pairs.len_spec() ==> (#[trigger] plan.list.lines@[i]).text@ == pair_line(
                app.pairs.entries_seq()[i].0,
                app.pairs.entries_seq()[i].1,
            ) && plan.list.lines@[i].fg == TextColor::Yellow,
        plan.footer.mode_area == spec_split_half(spec_vertical_bands(viewport).2).0,
        plan.footer.hint_area == spec_split_half(spec_vertical_bands(viewport).2).1,
        plan.footer.mode_spans@.len() == 3,
        plan.footer.mode_spans@[0].text@ == screen_label(app.current_screen),
        plan.footer.mode_spans@[0].fg == screen_color(app.current_screen),
        plan.footer.mode_spans@[1].text@ == " | "@,
        plan.footer.mode_spans@[1].fg == TextColor::White,
        plan.footer.mode_spans@[2].text@ == mode_label(app.editing_mode),
        plan.footer.mode_spans@[2].fg == mode_color(app.editing_mode),
        plan.footer.hint.text@ == hint_label(app.current_screen),
        plan.footer.hint.fg == TextColor::Red,
        plan.edit_popup is Some <==> app.editing_mode is Some,
        plan.edit_popup matches Some(p) ==> {
            &&& p.area == spec_centered_rect(60, 25, viewport)
            &&& p.title@ == "Enter a new key-value pair"@
            &&& p.key_box == spec_split_half(spec_inner_margin(spec_centered_rect(60, 25, viewport))).0
            &&& p.value_box == spec_split_half(
                spec_inner_margin(spec_centered_rect(60, 25, viewport)),
            ).1
            &&& p.key_title@ == "Key"@
            &&& p.value_title@ == "Value"@
            &&& p.key_text@ == app.key_input@
            &&& p.value_text@ == app.value_input@
            &&& app.editing_mode == Some(p.active)
        },
        plan.exit_popup is Some <==> app.current_screen == ActiveScreen::Exiting,
        plan.exit_popup matches Some(p) ==> {
            &&& p.area == spec_centered_rect(60, 25, viewport)
            &&& p.title@ == "Y/N"@
            &&& p.text.text@ == "Would you like to output the buffer as json? (y/n)"@
            &&& p.text.fg == TextColor::Red
            &&& p.wrap == true
            &&& p.clear_screen == true
        },
{
    let bands = vertical_bands(viewport);
    let title = TitleBar {
        area: bands.0,
        text: Span { text: String::from_str("Create New Json"), fg: TextColor::Green },
    };
    let mut lines: Vec<Span> = Vec::new();
    let count = app.pairs.len();
    let mut i: usize = 0;
    while i < count
        invariant
            count == app.pairs.len_spec(),
            i <= count,
            lines@.len() == i,
            forall|j: int|
                0 <= j < i ==> (#[trigger] lines@[j]).text@ == pair_line(
                    app.pairs.entries_seq()[j].0,
                    app.pairs.entries_seq()[j].1,
                ) && lines@[j].fg == TextColor::Yellow,
        decreases count - i,
    {
        let line = render_pair_line(app.pairs.key_at(i), app.pairs.value_at(i));
        lines.push(Span { text: line, fg: TextColor::Yellow });
        i = i + 1;
    }
    let list = PairList { area: bands.1, lines };
    let halves = split_half(bands.2);
    let screen_span = match app.current_screen {
        ActiveScreen::Main => Span { text: String::from_str("Normal Mode"), fg: TextColor::Green },
        ActiveScreen::Editing => Span {
            text: String::from_str("Editing Mode"),
            fg: TextColor::Yellow,
        },
        ActiveScreen::Exiting => Span {
            text: String::from_str("Exiting"),
            fg: TextColor::LightRed,
        },
    };
    let divider = Span { text: String::from_str(" | "), fg: TextColor::White };
    let mode_span = match app.editing_mode {
        Some(EditingMode::Key) => Span {
            text: String::from_str("Editing Json Key"),
            fg: TextColor::Green,
        },
        Some(EditingMode::Value) => Span {
            text: String::from_str("Editing Json Value"),
            fg: TextColor::LightGreen,
        },
        None => Span { text: String::from_str("Not Editing Anything"), fg: TextColor::DarkGray },
    };
    let mut mode_spans: Vec<Span> = Vec::new();
    mode_spans.push(screen_span);
    mode_spans.push(divider);
    mode_spans.push(mode_span);
    let hint = match app.current_screen {
        ActiveScreen::Editing => Span {
            text: String::from_str("(ESC) to cancel/(Tab) to switch boxes/enter to complete"),
            fg: TextColor::Red,
        },
        _ => Span {
            text: String::from_str("(q) to quit / (e) to make new pair"),
            fg: TextColor::Red,
        },
    };
    let footer = Footer { mode_area: halves.0, mode_spans, hint_area: halves.1, hint };
    let edit_popup = match app.editing_mode {
        Some(active) => {
            let area = centered_rect(60, 25, viewport);
            let inner = inner_margin(area);
            let boxes = split_half(inner);
            Some(
                EditPopup {
                    area,
                    title: String::from_str("Enter a new key-value pair"),
                    key_box: boxes.0,
                    value_box: boxes.1,
                    key_title: String::from_str("Key"),
                    value_title: String::from_str("Value"),
                    key_text: app.key_input.clone(),
                    value_text: app.value_input.clone(),
                    active,
                },
            )
        },
        None => None,
    };
    let exit_popup = match app.current_screen {
        ActiveScreen::Exiting => Some(
            ExitPopup {
                area: centered_rect(60, 25, viewport),
                title: String::from_str("Y/N"),
                text: Span {
                    text: String::from_str("Would you like to output the buffer as json? (y/n)"),
                    fg: TextColor::Red,
                },
                wrap: true,
                clear_screen: true,
            },
        ),
        _ => None,
    };
    RenderPlan { title, list, footer, edit_popup, exit_popup }
}

} // verus!
