//! The tab strip renderer: its configuration, and the layout it computes for
//! one draw (the text of each tab, the highlighted index and the region).
use core::marker::PhantomData;
use ratatui::style::Color;
use vstd::prelude::*;

use crate::state::TabsState;

verus! {

/// The decimal digit `d` as a character.
pub open spec fn digit_char(d: nat) -> char {
    if d == 0 {
        '0'
    } else if d == 1 {
        '1'
    } else if d == 2 {
        '2'
    } else if d == 3 {
        '3'
    } else if d == 4 {
        '4'
    } else if d == 5 {
        '5'
    } else if d == 6 {
        '6'
    } else if d == 7 {
        '7'
    } else if d == 8 {
        '8'
    } else {
        '9'
    }
}

/// `n` written in decimal, without leading zeros.
pub open spec fn decimal(n: nat) -> Seq<char>
    decreases n,
{
    if n < 10 {
        seq![digit_char(n)]
    } else {
        decimal(n / 10).push(digit_char(n % 10))
    }
}

fn digit_str(d: usize) -> (r: &'static str)
    requires
        d < 10,
    ensures
        r@ == seq![digit_char(d as nat)],
{
    let r = match d {
        0 => "0",
        1 => "1",
        2 => "2",
        3 => "3",
        4 => "4",
        5 => "5",
        6 => "6",
        7 => "7",
        8 => "8",
        _ => "9",
    };
    proof {
        reveal_strlit("0");
        reveal_strlit("1");
        reveal_strlit("2");
        reveal_strlit("3");
        reveal_strlit("4");
        reveal_strlit("5");
        reveal_strlit("6");
        reveal_strlit("7");
        reveal_strlit("8");
        reveal_strlit("9");
        assert(r@ =~= seq![digit_char(d as nat)]);
    }
    r
}

/// Appends `n` in decimal to `out`.
fn push_decimal(out: &mut String, n: usize)
    ensures
        final(out)@ == old(out)@ + decimal(n as nat),
    decreases n,
{
    if n >= 10 {
        push_decimal(out, n / 10);
    }
    let d = digit_str(n % 10);
    out.append(d);
    assert(out@ =~= old(out)@ + decimal(n as nat));
}

/// `n` in decimal.
pub fn decimal_string(n: usize) -> (r: String)
    ensures
        r@ == decimal(n as nat),
{
    let mut out = String::new();
    push_decimal(&mut out, n);
    assert(out@ =~= decimal(n as nat));
    out
}

/// Columns that each tab takes beyond its text: a space of padding on each
/// side and the divider that follows it.
pub const TAB_OVERHEAD: usize = 3;

/// A rectangular region of the screen, in cells.
#[derive(Clone, Copy, Debug, PartialEq, Eq, Structural)]
pub struct Area {
    pub x: u16,
    pub y: u16,
    pub width: u16,
    pub height: u16,
}

/// The region of `width` columns centered horizontally in `area`; a strip
/// wider than `area` takes all of it. The left offset is rounded down.
pub open spec fn centered(area: Area, width: nat) -> Area {
    let w: nat = if width < area.width {
        width
    } else {
        area.width as nat
    };
    Area {
        x: (area.x + (area.width - w) / 2) as u16,
        y: area.y,
        width: w as u16,
        height: area.height,
    }
}

/// A strip no wider than its region keeps its width when centered, and its
/// left offset within the region is half the spare columns, rounded down.
pub proof fn centering_offset(area: Area, width: nat)
    requires
        area.x + area.width <= u16::MAX,
        width <= area.width,
    ensures
        centered(area, width).x == area.x + (area.width - width) / 2,
        centered(area, width).width == width,
        centered(area, width).y == area.y,
        centered(area, width).height == area.height,
{
}

/// The text of one tab: an ordinal to be shown underlined, if any, and the
/// rest of the label.
pub struct TabLine {
    pub ordinal: Option<String>,
    pub text: String,
}

impl View for TabLine {
    type V = (Option<Seq<char>>, Seq<char>);

    open spec fn view(&self) -> (Option<Seq<char>>, Seq<char>) {
        (
            match self.ordinal {
                Some(o) => Some(o@),
                None => None,
            },
            self.text@,
        )
    }
}

/// The text shown for the tab at index `i` with label `label`: in numbered
/// mode its one-based ordinal, then ". " and the label; otherwise the label.
pub open spec fn tab_line(numbered: bool, i: nat, label: Seq<char>) -> (Option<Seq<char>>, Seq<char>) {
    if numbered {
        (Some(decimal(i + 1)), seq!['.', ' '] + label)
    } else {
        (None, label)
    }
}

/// The number of characters in a tab's text.
pub open spec fn line_len(line: (Option<Seq<char>>, Seq<char>)) -> nat {
    match line.0 {
        Some(o) => o.len() + line.1.len(),
        None => line.1.len(),
    }
}

/// The columns taken by the tab at index `i`: its text and the fixed overhead.
pub open spec fn tab_width(numbered: bool, i: nat, label: Seq<char>) -> nat {
    line_len(tab_line(numbered, i, label)) + TAB_OVERHEAD as nat
}

/// The columns taken by the first `n` of `labels`.
pub open spec fn width_prefix(numbered: bool, labels: Seq<Seq<char>>, n: nat) -> nat
    decreases n,
{
    if n == 0 {
        0
    } else {
        width_prefix(numbered, labels, (n - 1) as nat) + tab_width(
            numbered,
            (n - 1) as nat,
            labels[n - 1],
        )
    }
}

/// The columns taken by the whole strip.
pub open spec fn strip_width(numbered: bool, labels: Seq<Seq<char>>) -> nat {
    width_prefix(numbered, labels, labels.len())
}

/// The characters of each label.
pub open spec fn label_views(labels: Seq<String>) -> Seq<Seq<char>> {
    labels.map_values(|s: String| s@)
}

/// The region of `width` columns centered horizontally in `area`.
pub fn center_area(area: Area, width: usize) -> (r: Area)
    requires
        area.x + area.width <= u16::MAX,
    ensures
        r == centered(area, width as nat),
{
    let w: u16 = if width < area.width as usize {
        width as u16
    } else {
        area.width
    };
    Area { x: area.x + (area.width - w) / 2, y: area.y, width: w, height: area.height }
}

/// The renderer's configuration: the highlight color, whether tabs are
/// numbered, and whether the strip is centered in its region.
pub struct Tabs<T> {
    beginner_mode: bool,
    color: Color,
    center: bool,
    _pht: PhantomData<T>,
}

/// What one draw shows: the text of each tab, the index to highlight, the
/// color for the ordinals and the highlight, and the region to draw in.
pub struct Strip {
    pub lines: Vec<TabLine>,
    pub selected: usize,
    pub color: Color,
    pub area: Area,
}

impl<T> Tabs<T> {
    /// Whether each tab is prefixed with its one-based ordinal.
    pub closed spec fn numbered(&self) -> bool {
        self.beginner_mode
    }

    /// Whether the strip is centered in its region.
    pub closed spec fn centered(&self) -> bool {
        self.center
    }

    /// The color of the ordinals' underline and of the selected tab.
    pub closed spec fn fg(&self) -> Color {
        self.color
    }

    /// A configuration with numbering and centering on and the default color,
    /// which resets the terminal's foreground.
    pub fn new() -> (r: Self)
        ensures
            r.numbered(),
            r.centered(),
            r.fg() == Color::Reset,
    {
        Tabs { beginner_mode: true, color: Color::default(), center: true, _pht: PhantomData }
    }

    /// The same configuration with `color` as its color.
    pub fn color(self, color: Color) -> (r: Self)
        ensures
            r.fg() == color,
            r.numbered() == self.numbered(),
            r.centered() == self.centered(),
    {
        Tabs { color, ..self }
    }

    /// The same configuration with numbering on or off.
    pub fn beginner_mode(self, beginner_mode: bool) -> (r: Self)
        ensures
            r.numbered() == beginner_mode,
            r.fg() == self.fg(),
            r.centered() == self.centered(),
    {
        Tabs { beginner_mode, ..self }
    }

    /// The same configuration with centering on or off.
    pub fn center(self, center: bool) -> (r: Self)
        ensures
            r.centered() == center,
            r.fg() == self.fg(),
            r.numbered() == self.numbered(),
    {
        Tabs { center, ..self }
    }

    /// The text of each tab, in the order of `labels`.
    pub fn lines(&self, labels: &Vec<String>) -> (r: Vec<TabLine>)
        ensures
            r@.len() == labels@.len(),
            forall|i: int|
                0 <= i < labels@.len() ==> #[trigger] r@[i]@ == tab_line(
                    self.numbered(),
                    i as nat,
                    labels@[i]@,
                ),
    {
        let mut lines: Vec<TabLine> = Vec::new();
        let mut i: usize = 0;
        while i < labels.len()
            invariant
                i <= labels@.len(),
                lines@.len() == i,
                forall|j: int|
                    0 <= j < i ==> #[trigger] lines@[j]@ == tab_line(
                        self.numbered(),
                        j as nat,
                        labels@[j]@,
                    ),
            decreases labels@.len() - i,
        {
            let label = &labels[i];
            let line = if self.beginner_mode {
                let mut text = String::from_str(". ");
                text.append(label.as_str());
                proof {
                    reveal_strlit(". ");
                    assert(text@ =~= seq!['.', ' '] + label@);
                }
                TabLine { ordinal: Some(decimal_string(i + 1)), text }
            } else {
                TabLine { ordinal: None, text: label.clone() }
            };
            lines.push(line);
            i += 1;
        }
        lines
    }

    /// The columns that the strip of `labels` takes, or nothing if that
    /// number does not fit in a `usize`.
    pub fn total_width(&self, labels: &Vec<String>) -> (r: Option<usize>)
        ensures
            r == if strip_width(self.numbered(), label_views(labels@)) <= usize::MAX {
                Some(strip_width(self.numbered(), label_views(labels@)) as usize)
            } else {
                None::<usize>
            },
    {
        let lines = self.lines(labels);
        let ghost views = label_views(labels@);
        let mut width: usize = 0;
        let mut fits = true;
        let mut i: usize = 0;
        while i < lines.len()
            invariant
                lines@.len() == labels@.len(),
                forall|j: int|
                    0 <= j < labels@.len() ==> #[trigger] lines@[j]@ == tab_line(
                        self.numbered(),
                        j as nat,
                        labels@[j]@,
                    ),
                views == label_views(labels@),
                i <= lines@.len(),
                fits ==> width == width_prefix(self.numbered(), views, i as nat),
                !fits ==> width_prefix(self.numbered(), views, i as nat) > usize::MAX,
            decreases lines@.len() - i,
        {
            let line = &lines[i];
            let text_len = line.text.as_str().unicode_len();
            let ordinal_len = match &line.ordinal {
                Some(o) => o.as_str().unicode_len(),
                None => 0,
            };
            proof {
                assert(views[i as int] == labels@[i as int]@);
                assert(line_len(line@) == ordinal_len + text_len);
            }
            if fits {
                let room = usize::MAX - width;
                if TAB_OVERHEAD <= room && ordinal_len <= room - TAB_OVERHEAD && text_len <= room
                    - TAB_OVERHEAD - ordinal_len {
                    width = width + ordinal_len + text_len + TAB_OVERHEAD;
                } else {
                    fits = false;
                }
            }
            i += 1;
        }
        if fits {
            Some(width)
        } else {
            None
        }
    }

    /// The layout of one draw of `state`, whose tabs read `labels`, in `area`:
    /// each tab's text, the selected index, the color, and the region, which is
    /// `area` itself or, when centering is on, the strip's width centered in it.
    pub fn layout(&self, area: Area, state: &TabsState<T>, labels: &Vec<String>) -> (r: Strip)
        requires
            area.x + area.width <= u16::MAX,
        ensures
            r.lines@.len() == labels@.len(),
            forall|i: int|
                0 <= i < labels@.len() ==> #[trigger] r.lines@[i]@ == tab_line(
                    self.numbered(),
                    i as nat,
                    labels@[i]@,
                ),
            r.selected == state.index(),
            r.color == self.fg(),
            r.area == if self.centered() {
                centered(area, strip_width(self.numbered(), label_views(labels@)))
            } else {
                area
            },
    {
        let lines = self.lines(labels);
        let region = if self.center {
            match self.total_width(labels) {
                Some(w) => center_area(area, w),
                None => center_area(area, usize::MAX),
            }
        } else {
            area
        };
        Strip { lines, selected: state.current_index(), color: self.color, area: region }
    }
}

} // verus!
