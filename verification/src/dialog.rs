//! What the password dialog looks like.
//!
//! The dialog is computed as plain values: spans of styled text, rectangles, and the place of
//! the cursor. Drawing them is left to the caller. The password is shown as one bullet for each
//! character.
use crate::text::{contains, lines};
use crate::ui::{ActivePrompt, ActivePromptView, App, AppView, PromptState};
use ratatui::layout::{Constraint, Flex, Layout};
use ratatui::widgets::{Block, Borders};
use unicode_width::UnicodeWidthStr;
use vstd::prelude::*;

verus! {

/// What stands before the password.
pub const PASSWORD_LABEL: &'static str = "密码: ";

/// How many columns `PASSWORD_LABEL` takes.
pub const PASSWORD_LABEL_W: u16 = 6;

/// The part of the screen, in percent, that the dialog of the agent's own terminal takes.
pub const DIALOG_PERCENT_X: u16 = 60;

/// See `DIALOG_PERCENT_X`.
pub const DIALOG_PERCENT_Y: u16 = 40;

/// A rectangle of the screen, in columns and rows.
#[derive(Debug, Clone, Copy, PartialEq, Eq, Structural)]
pub struct Rect {
    pub x: u16,
    pub y: u16,
    pub width: u16,
    pub height: u16,
}

/// `a` plus `b`, but at most `u16::MAX`.
pub open spec fn clamped_sum(a: u16, b: u16) -> int {
    if a + b <= u16::MAX {
        a + b
    } else {
        u16::MAX as int
    }
}

/// `a` minus `b`, but at least nothing.
pub open spec fn floored_difference(a: int, b: int) -> int {
    if a >= b {
        a - b
    } else {
        0
    }
}

/// The smaller of two numbers.
pub open spec fn smaller(a: int, b: int) -> int {
    if a <= b {
        a
    } else {
        b
    }
}

impl Rect {
    /// The first column to the right of the rectangle.
    pub open spec fn spec_right(self) -> int {
        clamped_sum(self.x, self.width)
    }

    /// The first column to the right of the rectangle, at most `u16::MAX`.
    pub fn right(&self) -> (right: u16)
        ensures
            right == self.spec_right(),
    {
        self.x.saturating_add(self.width)
    }
}

/// The colors of the dialog.
#[derive(Debug, Clone, Copy, PartialEq, Eq, Structural)]
pub enum Color {
    /// What the terminal uses.
    Plain,
    Cyan,
    DarkGray,
    Gray,
    Red,
    Yellow,
}

/// A piece of text in one style.
#[derive(Debug)]
pub struct Span {
    pub text: String,
    pub color: Color,
    pub bold: bool,
}

/// The text and the style of a `Span`.
#[verifier::ext_equal]
pub struct SpanView {
    pub text: Seq<char>,
    pub color: Color,
    pub bold: bool,
}

impl View for Span {
    type V = SpanView;

    open spec fn view(&self) -> SpanView {
        SpanView { text: self.text@, color: self.color, bold: self.bold }
    }
}

/// Where the cursor of the terminal goes.
#[derive(Debug, Clone, Copy, PartialEq, Eq, Structural)]
pub enum Cursor {
    /// Nowhere: nothing can be typed.
    Hidden,
    /// To this column and row.
    At { x: u16, y: u16 },
    /// To a place that no screen has.
    OutOfRange,
}

/// The dialog as it is drawn.
#[derive(Debug)]
pub struct Dialog {
    /// The title in the border, centered.
    pub title: Vec<Span>,
    /// The lines inside of the border, to be wrapped at its width.
    pub lines: Vec<Vec<Span>>,
    /// The dialog with its border.
    pub area: Rect,
    /// The dialog without its border.
    pub inner: Rect,
    pub cursor: Cursor,
}

/// What a `Dialog` shows.
#[verifier::ext_equal]
pub struct DialogView {
    pub title: Seq<SpanView>,
    pub lines: Seq<Seq<SpanView>>,
    pub area: Rect,
    pub inner: Rect,
    pub cursor: Cursor,
}

/// The views of the spans of a line.
pub open spec fn span_views(spans: Seq<Span>) -> Seq<SpanView> {
    Seq::new(spans.len(), |i: int| spans[i]@)
}

/// The views of some lines.
pub open spec fn line_views(lines: Seq<Vec<Span>>) -> Seq<Seq<SpanView>> {
    Seq::new(lines.len(), |i: int| span_views(lines[i]@))
}

impl View for Dialog {
    type V = DialogView;

    open spec fn view(&self) -> DialogView {
        DialogView {
            title: span_views(self.title@),
            lines: line_views(self.lines@),
            area: self.area,
            inner: self.inner,
            cursor: self.cursor,
        }
    }
}

/// What `UnicodeWidthStr::width` of unicode-width gives for a text.
pub uninterp spec fn str_columns(s: Seq<char>) -> usize;

/// `UnicodeWidthStr::width` of unicode-width: how many columns `s` takes on a screen. It depends
/// on the characters of `s` alone. How wide a given text is stands in tables that are not
/// written out here.
#[verifier::external_body]
fn str_width(s: &str) -> (columns: usize)
    ensures
        columns == str_columns(s@),
{
    UnicodeWidthStr::width(s)
}

/// `percent`, but at most 100.
pub open spec fn share(percent: u16) -> int {
    smaller(percent as int, 100)
}

/// How many hundredths of a row or column stay free on both sides together, when `percent` of the
/// rows or columns from `from` to `to` are taken.
pub open spec fn free_hundredths(percent: u16, from: int, to: int) -> int {
    (100 - share(percent)) * (to - from)
}

/// The row or column nearest to a place given in hundredths; the later one of two that are as near.
pub open spec fn nearest(hundredths: int) -> int {
    (hundredths + 50) / 100
}

/// Whether the `count` rows or columns from `first` on are `percent` of the `len` ones from `start`
/// on, in the middle of them. Half of what is free stands on each side. Where that is no whole
/// number of hundredths, it may be taken up or down.
pub open spec fn in_the_middle(percent: u16, start: u16, len: u16, first: u16, count: u16) -> bool {
    let end = clamped_sum(start, len);
    let free = free_hundredths(percent, start as int, end);
    &&& nearest(100 * start + free / 2) <= first <= nearest(100 * start + (free + 1) / 2)
    &&& nearest(100 * end - (free + 1) / 2) <= first + count <= nearest(100 * end - free / 2)
}

/// `Layout::areas` of ratatui for a vertical layout with one `Constraint::Percentage` and
/// `Flex::Center`: the columns of the area are kept, and of its rows, as far as the screen has
/// them, the given percentage in the middle is left. The solver of ratatui works in hundredths of
/// a row with floating-point numbers; which way it takes half of a hundredth is left open here.
#[verifier::external_body]
fn center_vertically(percent: u16, area: Rect) -> (centered: Rect)
    ensures
        centered.x == area.x,
        centered.width == area.width,
        in_the_middle(percent, area.y, area.height, centered.y, centered.height),
{
    let from = ratatui::layout::Rect { x: area.x, y: area.y, width: area.width, height: area.height };
    let [r] = Layout::vertical([Constraint::Percentage(percent)]).flex(Flex::Center).areas(from);
    Rect { x: r.x, y: r.y, width: r.width, height: r.height }
}

/// `Layout::areas` of ratatui for a horizontal layout with one `Constraint::Percentage` and
/// `Flex::Center`: the rows of the area are kept, and of its columns the given percentage in the
/// middle is left, as in `center_vertically`.
#[verifier::external_body]
fn center_horizontally(percent: u16, area: Rect) -> (centered: Rect)
    ensures
        centered.y == area.y,
        centered.height == area.height,
        in_the_middle(percent, area.x, area.width, centered.x, centered.width),
{
    let from = ratatui::layout::Rect { x: area.x, y: area.y, width: area.width, height: area.height };
    let [r] = Layout::horizontal([Constraint::Percentage(percent)]).flex(Flex::Center).areas(from);
    Rect { x: r.x, y: r.y, width: r.width, height: r.height }
}

/// What a border on all sides leaves of `area`.
pub open spec fn inside_border(area: Rect) -> Rect {
    Rect {
        x: smaller(clamped_sum(area.x, 1), clamped_sum(area.x, area.width)) as u16,
        y: smaller(clamped_sum(area.y, 1), clamped_sum(area.y, area.height)) as u16,
        width: floored_difference(area.width as int, 2) as u16,
        height: floored_difference(area.height as int, 2) as u16,
    }
}

/// `Block::inner` of ratatui for a block with borders on all sides: one column or row less at
/// each side, as far as there are any. A title stands in the upper border and takes nothing more.
#[verifier::external_body]
fn block_inner(area: Rect) -> (inner: Rect)
    ensures
        inner == inside_border(area),
{
    let from = ratatui::layout::Rect { x: area.x, y: area.y, width: area.width, height: area.height };
    let r = Block::default().borders(Borders::ALL).title("").inner(from);
    Rect { x: r.x, y: r.y, width: r.width, height: r.height }
}

/// Where `percent` of the `len` rows or columns from `start` on begin and how many they are, for an
/// even percentage, which leaves a whole number of hundredths on each side.
pub open spec fn middle_of(percent: u16, start: u16, len: u16) -> (u16, u16) {
    let end = clamped_sum(start, len);
    let margin = free_hundredths(percent, start as int, end) / 2;
    let first = nearest(100 * start + margin);
    (first as u16, (nearest(100 * end - margin) - first) as u16)
}

/// The part of `r` in its middle that is `percent_x` wide and `percent_y` high, for even
/// percentages.
pub open spec fn centered(percent_x: u16, percent_y: u16, r: Rect) -> Rect {
    let (y, height) = middle_of(percent_y, r.y, r.height);
    let (x, width) = middle_of(percent_x, r.x, r.width);
    Rect { x, y, width, height }
}

/// An even percentage leaves nothing open.
proof fn lemma_middle_is_exact(percent: u16, start: u16, len: u16, first: u16, count: u16)
    requires
        percent % 2 == 0,
        in_the_middle(percent, start, len, first, count),
    ensures
        (first, count) == middle_of(percent, start, len),
{
    let end = clamped_sum(start, len);
    let half = (100 - share(percent)) / 2;
    let h = end - start;
    assert(share(percent) % 2 == 0);
    assert((2 * half) * h == 2 * (half * h)) by (nonlinear_arith);
    assert(free_hundredths(percent, start as int, end) == 2 * (half * h));
}

/// The part of `r` in its middle that is `percent_x` wide and `percent_y` high.
pub fn centered_rect(percent_x: u16, percent_y: u16, r: Rect) -> (area: Rect)
    ensures
        in_the_middle(percent_x, r.x, r.width, area.x, area.width),
        in_the_middle(percent_y, r.y, r.height, area.y, area.height),
        percent_x % 2 == 0 && percent_y % 2 == 0 ==> area == centered(percent_x, percent_y, r),
{
    let area = center_horizontally(percent_x, center_vertically(percent_y, r));
    proof {
        if percent_x % 2 == 0 && percent_y % 2 == 0 {
            lemma_middle_is_exact(percent_x, r.x, r.width, area.x, area.width);
            lemma_middle_is_exact(percent_y, r.y, r.height, area.y, area.height);
        }
    }
    area
}

/// What `n` typed characters look like.
pub open spec fn masked(n: nat) -> Seq<char> {
    Seq::new(n, |i: int| '•')
}

/// One bullet for each character of `input`.
pub fn mask(input: &[char]) -> (shown: String)
    ensures
        shown@ == masked(input@.len()),
{
    let mut shown = String::new();
    for i in 0..input.len()
        invariant
            shown@ == masked(i as nat),
    {
        shown.push('•');
        assert(shown@ =~= masked((i + 1) as nat));
    }
    shown
}

/// How many rows of `width` columns a line of `columns` columns takes.
pub open spec fn rows_for(columns: nat, width: nat) -> nat {
    columns / width + (if columns % width == 0 {
        0nat
    } else {
        1nat
    })
}

/// How many rows of `width` columns a line of `columns` columns takes.
pub fn rows_for_columns(columns: usize, width: usize) -> (rows: usize)
    requires
        width > 0,
    ensures
        rows == rows_for(columns as nat, width as nat),
        rows <= columns,
{
    if columns % width == 0 {
        assert(columns / width <= columns) by (nonlinear_arith)
            requires
                width > 0,
        ;
        columns / width
    } else {
        assert(columns / width < columns) by (nonlinear_arith)
            requires
                columns % width != 0,
                columns > 0 ==> width > 1 || columns % width == 0,
                width > 0,
        ;
        columns / width + 1
    }
}

/// How many rows of `width` columns some lines take together.
pub open spec fn rows_of_lines(ls: Seq<Seq<char>>, width: nat) -> nat
    decreases ls.len(),
{
    if ls.len() == 0 {
        0
    } else {
        rows_of_lines(ls.drop_last(), width) + rows_for(str_columns(ls.last()) as nat, width)
    }
}

/// How many rows a text takes when it is wrapped at `width` columns: at least one, except where
/// there is no column at all.
pub open spec fn wrapped_rows(text: Seq<char>, width: nat) -> nat {
    if width == 0 {
        0
    } else {
        let rows = rows_of_lines(crate::text::text_lines(text), width);
        if rows == 0 {
            1
        } else {
            rows
        }
    }
}

/// How many rows `text` takes when it is wrapped at `width` columns. The count is wider than a
/// length, so that it holds for every text.
pub fn wrapped_line_count(text: &str, width: usize) -> (rows: u128)
    ensures
        rows == wrapped_rows(text@, width as nat),
{
    if width == 0 {
        return 0;
    }
    let ls = lines(text);
    let ghost all = crate::text::text_lines(text@);
    let n = ls.len();
    let mut total: u128 = 0;
    assert(all.take(0) =~= Seq::<Seq<char>>::empty());
    for i in 0..n
        invariant
            width > 0,
            n == ls@.len(),
            n == all.len(),
            forall|k: int| 0 <= k < n ==> (#[trigger] ls@[k])@ == all[k],
            total == rows_of_lines(all.take(i as int), width as nat),
            total <= i * 0xffff_ffff_ffff_ffff,
    {
        let w = str_width(ls[i].as_str());
        let rows = rows_for_columns(w, width);
        proof {
            assert(all.take(i + 1).drop_last() =~= all.take(i as int));
            assert(all.take(i + 1).last() == all[i as int]);
        }
        total = total + rows as u128;
    }
    assert(all.take(n as int) =~= all);
    if total == 0 {
        1
    } else {
        total
    }
}

/// The row of the password when the message takes `msg_rows` rows: the user, an empty row, the
/// message and another empty row stand above it.
pub fn password_row(inner: Rect, msg_rows: u16) -> (row: u16)
    requires
        inner.y + 3 + msg_rows <= u16::MAX,
    ensures
        row == inner.y + 3 + msg_rows,
{
    inner.y + 3 + msg_rows
}

/// A span without a style.
pub open spec fn plain(text: Seq<char>) -> SpanView {
    SpanView { text, color: Color::Plain, bold: false }
}

/// A span in one color.
pub open spec fn colored(text: Seq<char>, color: Color) -> SpanView {
    SpanView { text, color, bold: false }
}

/// The title: what asks, and for which action.
pub open spec fn title_of(a: ActivePromptView) -> Seq<SpanView> {
    seq![
        SpanView { text: "polkit"@, color: Color::Cyan, bold: true },
        plain("  "@),
        colored(a.action_id, Color::DarkGray),
    ]
}

/// The color of the status line: red for a failure or an error, otherwise yellow.
pub open spec fn status_color(status: Seq<char>) -> Color {
    if crate::text::occurs_in(status, "失败"@) || crate::text::occurs_in(status, "错误"@) {
        Color::Red
    } else {
        Color::Yellow
    }
}

/// The status line, where there is anything to say.
pub open spec fn status_lines(status: Seq<char>) -> Seq<Seq<SpanView>> {
    if status.len() > 0 {
        seq![seq![colored(status, status_color(status))]]
    } else {
        Seq::empty()
    }
}

/// The lines above the password or the note that it is being checked.
pub open spec fn heading_lines(a: ActivePromptView) -> Seq<Seq<SpanView>> {
    seq![
        seq![
            colored("用户: "@, Color::Gray),
            SpanView { text: a.username, color: Color::Plain, bold: true },
        ],
        seq![plain(""@)],
        seq![plain(a.message)],
        seq![plain(""@)],
    ]
}

/// The lines of the dialog when `typed` characters were typed.
pub open spec fn dialog_lines(a: ActivePromptView, typed: nat) -> Seq<Seq<SpanView>> {
    if a.state == PromptState::Verifying {
        heading_lines(a) + seq![seq![colored("正在验证…"@, Color::Yellow)]] + status_lines(a.status)
    } else {
        heading_lines(a) + seq![
            seq![colored(PASSWORD_LABEL@, Color::Gray), plain(masked(typed))],
        ] + status_lines(a.status) + seq![
            seq![
                colored("回车 确认"@, Color::DarkGray),
                plain("   "@),
                colored("Esc 取消"@, Color::DarkGray),
            ],
        ]
    }
}

/// Where the cursor goes: behind the bullets before it, but not out of the dialog. Rows and
/// columns are counted modulo two to the power of 16.
pub open spec fn cursor_place(a: ActivePromptView, cursor: int, inner: Rect) -> Cursor {
    let width = floored_difference(inner.width as int, 2);
    let row = inner.y + 3 + wrapped_rows(a.message, width as nat) % 0x1_0000;
    let column = inner.x + PASSWORD_LABEL_W + cursor % 0x1_0000;
    if a.state != PromptState::Editing {
        Cursor::Hidden
    } else if row > u16::MAX || column > u16::MAX {
        Cursor::OutOfRange
    } else {
        Cursor::At {
            x: smaller(column, floored_difference(inner.spec_right(), 1)) as u16,
            y: row as u16,
        }
    }
}

/// The dialog `a` in `area`, when `typed` characters were typed and `cursor` of them stand
/// before the cursor.
pub open spec fn dialog_view(a: ActivePromptView, typed: nat, cursor: int, area: Rect) -> DialogView {
    DialogView {
        title: title_of(a),
        lines: dialog_lines(a, typed),
        area,
        inner: inside_border(area),
        cursor: cursor_place(a, cursor, inside_border(area)),
    }
}

/// What is drawn of `s` in `area`: nothing without a dialog.
pub open spec fn drawn(s: AppView, area: Rect) -> Option<DialogView> {
    match s.active {
        Some(a) => Some(dialog_view(a, s.input.len(), s.cursor, area)),
        None => None,
    }
}

/// The view of a dialog that may be there.
pub open spec fn shown(d: Option<Dialog>) -> Option<DialogView> {
    match d {
        Some(d) => Some(d@),
        None => None,
    }
}

fn span(text: &str, color: Color, bold: bool) -> (s: Span)
    ensures
        s@ == (SpanView { text: text@, color, bold }),
{
    Span { text: text.to_owned(), color, bold }
}

/// A line of one span.
fn line1(text: &str, color: Color) -> (line: Vec<Span>)
    ensures
        span_views(line@) == seq![colored(text@, color)],
{
    let line = vec![span(text, color, false)];
    assert(span_views(line@) =~= seq![colored(text@, color)]);
    line
}

/// Adds a line at the end.
fn add_line(lines: &mut Vec<Vec<Span>>, line: Vec<Span>)
    ensures
        line_views(final(lines)@) == line_views(old(lines)@).push(span_views(line@)),
{
    lines.push(line);
    assert(line_views(lines@) =~= line_views(old(lines)@).push(span_views(line@)));
}

/// Adds the status line, where there is anything to say.
fn add_status(lines: &mut Vec<Vec<Span>>, status: &String)
    ensures
        line_views(final(lines)@) == line_views(old(lines)@) + status_lines(status@),
{
    if !status.as_str().is_empty() {
        let color = if contains(status.as_str(), "失败") || contains(status.as_str(), "错误") {
            Color::Red
        } else {
            Color::Yellow
        };
        add_line(lines, line1(status.as_str(), color));
    }
    assert(line_views(lines@) =~= line_views(old(lines)@) + status_lines(status@));
}

/// The title of the dialog.
fn dialog_title(a: &ActivePrompt) -> (title: Vec<Span>)
    ensures
        span_views(title@) == title_of(a@),
{
    let title = vec![
        span("polkit", Color::Cyan, true),
        span("  ", Color::Plain, false),
        span(a.action_id.as_str(), Color::DarkGray, false),
    ];
    assert(span_views(title@) =~= title_of(a@));
    title
}

/// The lines of the dialog.
fn dialog_text(a: &ActivePrompt, input: &[char]) -> (text: Vec<Vec<Span>>)
    ensures
        line_views(text@) == dialog_lines(a@, input@.len()),
{
    let mut text: Vec<Vec<Span>> = Vec::new();
    let user = vec![
        span("用户: ", Color::Gray, false),
        span(a.username.as_str(), Color::Plain, true),
    ];
    assert(span_views(user@) =~= heading_lines(a@)[0]);
    assert(line_views(text@) =~= Seq::empty());
    add_line(&mut text, user);
    add_line(&mut text, line1("", Color::Plain));
    add_line(&mut text, line1(a.message.as_str(), Color::Plain));
    add_line(&mut text, line1("", Color::Plain));
    assert(line_views(text@) =~= heading_lines(a@));
    if a.state == PromptState::Verifying {
        add_line(&mut text, line1("正在验证…", Color::Yellow));
        assert(line_views(text@) =~= heading_lines(a@) + seq![
            seq![colored("正在验证…"@, Color::Yellow)],
        ]);
        add_status(&mut text, &a.status);
    } else {
        let shown = mask(input);
        let password = vec![
            span(PASSWORD_LABEL, Color::Gray, false),
            span(shown.as_str(), Color::Plain, false),
        ];
        let ghost password_view = seq![
            colored(PASSWORD_LABEL@, Color::Gray),
            plain(masked(input@.len())),
        ];
        assert(span_views(password@) =~= password_view);
        add_line(&mut text, password);
        assert(line_views(text@) =~= heading_lines(a@) + seq![password_view]);
        add_status(&mut text, &a.status);
        let hints = vec![
            span("回车 确认", Color::DarkGray, false),
            span("   ", Color::Plain, false),
            span("Esc 取消", Color::DarkGray, false),
        ];
        let ghost hints_view = seq![
            colored("回车 确认"@, Color::DarkGray),
            plain("   "@),
            colored("Esc 取消"@, Color::DarkGray),
        ];
        assert(span_views(hints@) =~= hints_view);
        add_line(&mut text, hints);
        assert(line_views(text@) =~= heading_lines(a@) + seq![password_view] + status_lines(
            a@.status,
        ) + seq![hints_view]);
    }
    text
}

/// Where the cursor of the terminal goes.
fn cursor_for(a: &ActivePrompt, cursor: usize, inner: Rect) -> (place: Cursor)
    ensures
        place == cursor_place(a@, cursor as int, inner),
{
    if a.state != PromptState::Editing {
        return Cursor::Hidden;
    }
    let rows: u128 = wrapped_line_count(a.message.as_str(), inner.width.saturating_sub(2) as usize);
    let msg_rows: u16 = (rows % 0x1_0000) as u16;
    let typed: u16 = (cursor % 0x1_0000) as u16;
    let row: u32 = inner.y as u32 + 3 + msg_rows as u32;
    let column: u32 = inner.x as u32 + PASSWORD_LABEL_W as u32 + typed as u32;
    if row > 0xffff || column > 0xffff {
        return Cursor::OutOfRange;
    }
    let last: u16 = inner.right().saturating_sub(1);
    let x: u16 = if column <= last as u32 { column as u16 } else { last };
    Cursor::At { x, y: password_row(inner, msg_rows) }
}

/// The dialog `a` of `app`, drawn in `area`.
pub fn draw_dialog_at(app: &App, a: &ActivePrompt, area: Rect) -> (dialog: Dialog)
    ensures
        dialog@ == dialog_view(a@, app@.input.len(), app@.cursor, area),
{
    let inner = block_inner(area);
    Dialog {
        title: dialog_title(a),
        lines: dialog_text(a, app.input().as_slice()),
        area,
        inner,
        cursor: cursor_for(a, app.cursor(), inner),
    }
}

/// The dialog in the middle of the screen, for the agent's own terminal.
pub fn render(screen: Rect, app: &App) -> (dialog: Option<Dialog>)
    ensures
        shown(dialog) == drawn(app@, centered(DIALOG_PERCENT_X, DIALOG_PERCENT_Y, screen)),
{
    match app.prompt() {
        Some(a) => {
            let area = centered_rect(DIALOG_PERCENT_X, DIALOG_PERCENT_Y, screen);
            Some(draw_dialog_at(app, a, area))
        },
        None => None,
    }
}

/// The dialog on the whole screen, for the popup.
pub fn render_full(screen: Rect, app: &App) -> (dialog: Option<Dialog>)
    ensures
        shown(dialog) == drawn(app@, screen),
{
    match app.prompt() {
        Some(a) => Some(draw_dialog_at(app, a, screen)),
        None => None,
    }
}

/// The screen never shows the password: passwords of the same length look the same.
pub proof fn law_password_is_never_shown(s: AppView, other: Seq<char>, area: Rect)
    requires
        other.len() == s.input.len(),
    ensures
        drawn(AppView { input: other, ..s }, area) == drawn(s, area),
{
}

/// What is free beside and above the dialog of the agent's own terminal.
proof fn lemma_free_around_the_dialog(from: int, to: int)
    ensures
        free_hundredths(DIALOG_PERCENT_X, from, to) == 40 * (to - from),
        free_hundredths(DIALOG_PERCENT_Y, from, to) == 60 * (to - from),
{
    assert(share(DIALOG_PERCENT_X) == 60 && share(DIALOG_PERCENT_Y) == 40);
}

/// The first row of the screen, which takes log lines, stands above the dialog of the agent's own
/// terminal, on every screen of two rows or more.
pub proof fn law_log_row_stands_above_the_dialog(s: AppView, screen: Rect)
    requires
        screen.y == 0,
        screen.height >= 2,
    ensures
        drawn(s, centered(DIALOG_PERCENT_X, DIALOG_PERCENT_Y, screen)) matches Some(d)
            ==> d.area.y >= 1,
{
    lemma_free_around_the_dialog(screen.y as int, clamped_sum(screen.y, screen.height));
}

/// The dialog of the agent's own terminal lies on the screen.
pub proof fn law_dialog_lies_on_the_screen(screen: Rect)
    ensures
        ({
            let area = centered(DIALOG_PERCENT_X, DIALOG_PERCENT_Y, screen);
            &&& screen.x <= area.x
            &&& area.x + area.width <= screen.x + screen.width
            &&& screen.y <= area.y
            &&& area.y + area.height <= screen.y + screen.height
        }),
{
    lemma_free_around_the_dialog(screen.x as int, clamped_sum(screen.x, screen.width));
    lemma_free_around_the_dialog(screen.y as int, clamped_sum(screen.y, screen.height));
}

/// The cursor is shown exactly while the password can be edited.
pub proof fn law_cursor_only_while_editing(a: ActivePromptView, cursor: int, inner: Rect)
    ensures
        cursor_place(a, cursor, inner) == Cursor::Hidden <==> a.state != PromptState::Editing,
{
}

/// A dialog says who asks, for which action, whom it asks, and why, and shows one bullet for each
/// character that was typed; while the password is being checked it says that instead. What there
/// is to say about the state stands right below, and how to go on stands last.
pub proof fn law_what_a_dialog_says(a: ActivePromptView, typed: nat, cursor: int, area: Rect)
    ensures
        ({
            let d = dialog_view(a, typed, cursor, area);
            let checking = a.state == PromptState::Verifying;
            let told = if a.status.len() > 0 {
                1int
            } else {
                0
            };
            &&& d.title.len() == 3 && d.title[0].text == "polkit"@ && d.title[2].text == a.action_id
            &&& d.lines.len() == 5 + told + (if checking {
                0int
            } else {
                1
            })
            &&& d.lines[0].len() == 2 && d.lines[0][0].text == "用户: "@ && d.lines[0][1].text
                == a.username && d.lines[0][1].bold
            &&& d.lines[1] == seq![plain(""@)] && d.lines[3] == seq![plain(""@)]
            &&& d.lines[2] == seq![plain(a.message)]
            &&& checking ==> d.lines[4].len() == 1 && d.lines[4][0].text == "正在验证…"@
            &&& !checking ==> d.lines[4].len() == 2 && d.lines[4][0].text == "密码: "@
                && d.lines[4][1].text.len() == typed && (forall|i: int|
                0 <= i < typed ==> (#[trigger] d.lines[4][1].text[i]) == '•')
            &&& told == 1 ==> d.lines[5].len() == 1 && d.lines[5][0].text == a.status
            &&& !checking ==> d.lines.last().len() == 3 && d.lines.last()[0].text == "回车 确认"@
                && d.lines.last()[2].text == "Esc 取消"@
            &&& d.area == area
            &&& d.inner == inside_border(area)
            &&& d.cursor == cursor_place(a, cursor, d.inner)
        }),
{
}

/// The styles of a dialog: what matters is bold, labels are gray, and what failed is red.
pub proof fn law_styles(a: ActivePromptView, typed: nat, before: Seq<char>, after: Seq<char>)
    ensures
        title_of(a)[0].color == Color::Cyan && title_of(a)[0].bold,
        title_of(a)[2].color == Color::DarkGray && !title_of(a)[2].bold,
        title_of(a)[1] == (SpanView { text: "  "@, color: Color::Plain, bold: false }),
        dialog_lines(a, typed)[0][0].color == Color::Gray && !dialog_lines(a, typed)[0][0].bold,
        dialog_lines(a, typed)[0][1].color == Color::Plain,
        dialog_lines(a, typed)[2][0].color == Color::Plain && !dialog_lines(a, typed)[2][0].bold,
        a.state == PromptState::Editing ==> dialog_lines(a, typed)[4][1].color == Color::Plain
            && !dialog_lines(a, typed)[4][1].bold && !dialog_lines(a, typed)[4][0].bold,
        a.state == PromptState::Verifying ==> !dialog_lines(a, typed)[4][0].bold,
        a.status.len() > 0 ==> !dialog_lines(a, typed)[5][0].bold,
        a.state == PromptState::Editing ==> dialog_lines(a, typed).last() == seq![
            SpanView { text: "回车 确认"@, color: Color::DarkGray, bold: false },
            SpanView { text: "   "@, color: Color::Plain, bold: false },
            SpanView { text: "Esc 取消"@, color: Color::DarkGray, bold: false },
        ],
        a.state == PromptState::Editing ==> dialog_lines(a, typed)[4][0].color == Color::Gray,
        a.state == PromptState::Verifying ==> dialog_lines(a, typed)[4][0].color == Color::Yellow,
        a.status.len() > 0 ==> dialog_lines(a, typed)[5][0].color == status_color(a.status),
        status_color(before + "失败"@ + after) == Color::Red,
        status_color(before + "错误"@ + after) == Color::Red,
        (!crate::text::occurs_in(a.status, "失败"@) && !crate::text::occurs_in(a.status, "错误"@))
            ==> status_color(a.status) == Color::Yellow,
{
    crate::text::law_occurrences(before, "失败"@, after, Seq::empty());
    crate::text::law_occurrences(before, "错误"@, after, Seq::empty());
}

/// Without a dialog nothing is drawn, and with one it is drawn with as many bullets as characters
/// were typed and with its own cursor.
pub proof fn law_what_is_drawn(s: AppView, area: Rect)
    ensures
        drawn(s, area) is Some <==> s.active is Some,
        s.active is Some ==> drawn(s, area) == Some(
            dialog_view(s.active->Some_0, s.input.len(), s.cursor, area),
        ),
{
}

/// A line takes as many rows as are needed for its columns, and not one more.
pub proof fn law_rows_are_filled(columns: nat, width: nat)
    requires
        width > 0,
    ensures
        rows_for(columns, width) * width >= columns,
        columns > 0 ==> (rows_for(columns, width) - 1) * width < columns,
        columns == 0 ==> rows_for(columns, width) == 0,
{
    let q = columns / width;
    let r = columns % width;
    assert(columns == q * width + r && 0 <= r < width) by (nonlinear_arith)
        requires
            width > 0,
            q == columns / width,
            r == columns % width,
    ;
    assert((q + 1) * width == q * width + width) by (nonlinear_arith);
    assert((q - 1) * width == q * width - width) by (nonlinear_arith);
    assert(columns == 0 ==> q == 0 && r == 0) by (nonlinear_arith)
        requires
            width > 0,
            q == columns / width,
            r == columns % width,
    ;
}

/// A text takes the rows of its lines together, and one row at least, except where there is no
/// column.
pub proof fn law_rows_of_a_text(a: Seq<Seq<char>>, b: Seq<Seq<char>>, line: Seq<char>, width: nat)
    ensures
        rows_of_lines(a + b, width) == rows_of_lines(a, width) + rows_of_lines(b, width),
        rows_of_lines(seq![line], width) == rows_for(str_columns(line) as nat, width),
        wrapped_rows(line, 0) == 0,
        width > 0 ==> wrapped_rows(line, width) >= 1,
        (width > 0 && rows_of_lines(crate::text::text_lines(line), width) > 0) ==> wrapped_rows(
            line,
            width,
        ) == rows_of_lines(crate::text::text_lines(line), width),
        (width > 0 && rows_of_lines(crate::text::text_lines(line), width) == 0) ==> wrapped_rows(
            line,
            width,
        ) == 1,
    decreases b.len(),
{
    reveal_with_fuel(rows_of_lines, 2);
    assert(seq![line].drop_last() =~= Seq::<Seq<char>>::empty());
    if b.len() == 0 {
        assert(a + b =~= a);
    } else {
        law_rows_of_a_text(a, b.drop_last(), line, width);
        assert((a + b).drop_last() =~= a + b.drop_last());
    }
}

/// A border takes one row or column on each side, where there are that many.
pub proof fn law_border(area: Rect)
    requires
        area.x + area.width <= u16::MAX,
        area.y + area.height <= u16::MAX,
    ensures
        area.width >= 2 ==> inside_border(area).x == area.x + 1 && inside_border(area).width
            == area.width - 2,
        area.height >= 2 ==> inside_border(area).y == area.y + 1 && inside_border(area).height
            == area.height - 2,
        area.width < 2 ==> inside_border(area).width == 0,
        area.height < 2 ==> inside_border(area).height == 0,
{
}

/// The cursor of a dialog that is edited stands behind the label and the bullets before it, in the
/// row of the password: below the user, an empty row, the rows of the message and another empty
/// row. It never leaves the dialog to the right.
pub proof fn law_where_the_cursor_stands(a: ActivePromptView, cursor: int, inner: Rect)
    requires
        a.state == PromptState::Editing,
        0 <= cursor < 0x1_0000,
        2 <= inner.width,
        inner.x + inner.width <= u16::MAX,
        inner.x + 6 + cursor <= u16::MAX,
        inner.y + 3 + wrapped_rows(a.message, (inner.width - 2) as nat) <= u16::MAX,
    ensures
        cursor_place(a, cursor, inner) matches Cursor::At { x, y } && {
            &&& y == inner.y + 3 + wrapped_rows(a.message, (inner.width - 2) as nat)
            &&& inner.x + 6 + cursor < inner.x + inner.width ==> x == inner.x + 6 + cursor
            &&& inner.x + 6 + cursor >= inner.x + inner.width ==> x == inner.x + inner.width - 1
        },
{
}

/// The dialog of the agent's own terminal takes three fifths of the columns and two fifths of the
/// rows, to the nearest one, and as much is free on both sides.
pub proof fn law_dialog_is_in_the_middle(screen: Rect)
    requires
        screen.x + screen.width <= u16::MAX,
        screen.y + screen.height <= u16::MAX,
    ensures
        ({
            let a = centered(DIALOG_PERCENT_X, DIALOG_PERCENT_Y, screen);
            let left = a.x - screen.x;
            let right = screen.x + screen.width - (a.x + a.width);
            let above = a.y - screen.y;
            let below = screen.y + screen.height - (a.y + a.height);
            &&& -1 <= left - right <= 1
            &&& -1 <= above - below <= 1
            &&& -100 <= 100 * a.width - 60 * screen.width <= 100
            &&& -100 <= 100 * a.height - 40 * screen.height <= 100
        }),
{
    lemma_free_around_the_dialog(screen.x as int, clamped_sum(screen.x, screen.width));
    lemma_free_around_the_dialog(screen.y as int, clamped_sum(screen.y, screen.height));
}

/// Nothing of a span is lost in its view, and the label is as wide as it is taken to be.
pub proof fn law_views_hold_everything(s: Span, d: Dialog)
    ensures
        s@.text == s.text@,
        s@.color == s.color,
        s@.bold == s.bold,
        d@.area == d.area,
        d@.inner == d.inner,
        d@.cursor == d.cursor,
        d@.title.len() == d.title@.len(),
        d@.lines.len() == d.lines@.len(),
        forall|i: int| 0 <= i < d.title@.len() ==> (#[trigger] d@.title[i]) == d.title@[i]@,
        forall|i: int, j: int|
            0 <= i < d.lines@.len() && 0 <= j < d.lines@[i]@.len() ==> (#[trigger] d@.lines[i][j])
                == d.lines@[i]@[j]@,
        PASSWORD_LABEL@ == "密码: "@,
        PASSWORD_LABEL_W == 6,
{
}

/// What the calls that draw give.
pub proof fn law_calls_that_draw()
    ensures
        forall|px: u16, py: u16, r: Rect, area: Rect| #[trigger]
            call_ensures(centered_rect, (px, py, r), area) ==> {
                &&& in_the_middle(px, r.x, r.width, area.x, area.width)
                &&& in_the_middle(py, r.y, r.height, area.y, area.height)
                &&& px % 2 == 0 && py % 2 == 0 ==> area == centered(px, py, r)
            },
        forall|input: &[char], shown: String| #[trigger]
            call_ensures(mask, (input,), shown) ==> shown@.len() == input@.len() && (forall|i: int|
                0 <= i < shown@.len() ==> (#[trigger] shown@[i]) == '•'),
        forall|columns: usize, width: usize, rows: usize| #[trigger]
            call_ensures(rows_for_columns, (columns, width), rows) ==> rows == rows_for(
                columns as nat,
                width as nat,
            ),
        forall|text: &str, width: usize, rows: u128| #[trigger]
            call_ensures(wrapped_line_count, (text, width), rows) ==> rows == wrapped_rows(
                text@,
                width as nat,
            ),
        forall|inner: Rect, rows: u16, row: u16| #[trigger]
            call_ensures(password_row, (inner, rows), row) ==> row == inner.y + 3 + rows,
        forall|app: &App, a: &ActivePrompt, area: Rect, d: Dialog| #[trigger]
            call_ensures(draw_dialog_at, (app, a, area), d) ==> d@ == dialog_view(
                a@,
                app@.input.len(),
                app@.cursor,
                area,
            ),
        forall|screen: Rect, app: &App, d: Option<Dialog>| #[trigger]
            call_ensures(render, (screen, app), d) ==> shown(d) == drawn(
                app@,
                centered(60, 40, screen),
            ),
        forall|screen: Rect, app: &App, d: Option<Dialog>| #[trigger]
            call_ensures(render_full, (screen, app), d) ==> shown(d) == drawn(app@, screen),
        forall|d: Dialog| #[trigger] shown(Some(d)) == Some(d@),
        shown(None) is None,
{
}

/// The cursor has no place exactly where a dialog is edited and its row or its column is beyond
/// what a screen can have.
pub proof fn law_where_the_cursor_has_no_place(a: ActivePromptView, cursor: int, inner: Rect)
    requires
        a.state == PromptState::Editing,
        0 <= cursor < 0x1_0000,
        2 <= inner.width,
        wrapped_rows(a.message, (inner.width - 2) as nat) < 0x1_0000,
    ensures
        cursor_place(a, cursor, inner) == Cursor::OutOfRange <==> inner.x + 6 + cursor > u16::MAX
            || inner.y + 3 + wrapped_rows(a.message, (inner.width - 2) as nat) > u16::MAX,
        cursor_place(a, cursor, inner) != Cursor::Hidden,
{
}

/// An even percentage leaves one place and no other, and a whole one is everything.
pub proof fn law_one_place_in_the_middle(percent: u16, start: u16, len: u16, first: u16, count: u16)
    requires
        percent % 2 == 0,
        start + len <= u16::MAX,
    ensures
        in_the_middle(percent, start, len, first, count) ==> (first, count) == middle_of(
            percent,
            start,
            len,
        ),
        percent == 40 && (first, count) == middle_of(percent, start, len) ==> in_the_middle(
            percent,
            start,
            len,
            first,
            count,
        ),
        percent >= 100 ==> in_the_middle(percent, start, len, start, len),
{
    if in_the_middle(percent, start, len, first, count) {
        lemma_middle_is_exact(percent, start, len, first, count);
    }
    lemma_free_around_the_dialog(start as int, start + len);
    if percent >= 100 {
        assert(share(percent) == 100);
        assert(free_hundredths(percent, start as int, start + len) == 0);
    }
}

/// Where there is no column for the message, it takes no row; the password stands three rows below
/// the border all the same.
pub proof fn law_cursor_in_a_narrow_dialog(a: ActivePromptView, cursor: int, inner: Rect)
    requires
        a.state == PromptState::Editing,
        0 <= cursor < 0x1_0000,
        inner.width <= 2,
        inner.x + 6 + cursor <= u16::MAX,
        inner.y + 3 <= u16::MAX,
    ensures
        cursor_place(a, cursor, inner) matches Cursor::At { x, y } && y == inner.y + 3 && x == (
        if inner.x + inner.width == 0 {
            0
        } else {
            inner.x + inner.width - 1
        }),
{
}

} // verus!
