//! Screen geometry: rectangles, hit testing and the placement of centred boxes.

use vstd::prelude::*;
use ratatui::layout as rl;
use ratatui::widgets::{Block, Borders};

verus! {

/// A rectangle of terminal cells.
#[derive(Debug, Clone, Copy, PartialEq, Eq, Structural)]
pub struct Rect {
    pub x: u16,
    pub y: u16,
    pub width: u16,
    pub height: u16,
}

/// The rectangle at `(x, y)` of the given size, with the size cut back so that the right
/// and bottom edges stay within the `u16` range (as `ratatui`'s `Rect::new` does).
pub open spec fn clamped_rect(x: u16, y: u16, width: u16, height: u16) -> Rect {
    Rect {
        x,
        y,
        width: if width > u16::MAX - x { (u16::MAX - x) as u16 } else { width },
        height: if height > u16::MAX - y { (u16::MAX - y) as u16 } else { height },
    }
}

/// Whether the right and bottom edges of `r` are within the `u16` range.
pub open spec fn fits(r: Rect) -> bool {
    r.x + r.width <= u16::MAX && r.y + r.height <= u16::MAX
}

/// Whether the cell `(x, y)` lies inside `r` (edges computed with saturation).
pub open spec fn contains_cell(r: Rect, x: u16, y: u16) -> bool {
    &&& x >= r.x && x < r.x.saturating_add(r.width)
    &&& y >= r.y && y < r.y.saturating_add(r.height)
}

impl Rect {
    /// The rectangle with every coordinate and size zero.
    pub fn zero() -> (r: Rect)
        ensures
            r == (Rect { x: 0, y: 0, width: 0, height: 0 }),
    {
        Rect { x: 0, y: 0, width: 0, height: 0 }
    }

    /// The rectangle at `(x, y)`, clamped to the `u16` range.
    pub fn new(x: u16, y: u16, width: u16, height: u16) -> (r: Rect)
        ensures
            r == clamped_rect(x, y, width, height),
            fits(r),
    {
        let max_width = u16::MAX - x;
        let max_height = u16::MAX - y;
        let width = if width > max_width { max_width } else { width };
        let height = if height > max_height { max_height } else { height };
        Rect { x, y, width, height }
    }
}

/// Whether the cell `(x, y)` lies inside `rect`.
pub fn in_rect(rect: Rect, x: u16, y: u16) -> (b: bool)
    ensures
        b == contains_cell(rect, x, y),
{
    let within_x = x >= rect.x && x < rect.x.saturating_add(rect.width);
    let within_y = y >= rect.y && y < rect.y.saturating_add(rect.height);
    within_x && within_y
}

/// Whether the corner of a box of at most `width` by `height` cells centred in `area`
/// stays within the `u16` range.
pub open spec fn centered_fits(area: Rect, width: u16, height: u16) -> bool {
    &&& area.x + area.width.saturating_sub(width) / 2 <= u16::MAX
    &&& area.y + area.height.saturating_sub(height) / 2 <= u16::MAX
}

/// A box of at most `width` by `height` cells centred in `area`.
pub open spec fn centered(area: Rect, width: u16, height: u16) -> Rect {
    clamped_rect(
        (area.x + area.width.saturating_sub(width) / 2) as u16,
        (area.y + area.height.saturating_sub(height) / 2) as u16,
        if width < area.width { width } else { area.width },
        if height < area.height { height } else { area.height },
    )
}

/// A box of at most `width` by `height` cells centred in `area`.
pub fn centered_rect(area: Rect, width: u16, height: u16) -> (r: Rect)
    requires
        centered_fits(area, width, height),
    ensures
        r == centered(area, width, height),
        fits(r),
{
    let x = area.x + area.width.saturating_sub(width) / 2;
    let y = area.y + area.height.saturating_sub(height) / 2;
    let w = if width < area.width { width } else { area.width };
    let h = if height < area.height { height } else { area.height };
    Rect::new(x, y, w, h)
}

/// A mouse button.
#[derive(Debug, Clone, Copy, PartialEq, Eq, Structural)]
pub enum MouseButton {
    Left,
    Right,
    Middle,
}

/// What the mouse did.
#[derive(Debug, Clone, Copy, PartialEq, Eq, Structural)]
pub enum MouseAction {
    Down(MouseButton),
    Up(MouseButton),
    Other,
}

/// Whether the mouse action is a press or release of the left button.
pub fn is_left_click(kind: MouseAction) -> (b: bool)
    ensures
        b == (kind == MouseAction::Down(MouseButton::Left) || kind == MouseAction::Up(
            MouseButton::Left,
        )),
{
    match kind {
        MouseAction::Down(MouseButton::Left) => true,
        MouseAction::Up(MouseButton::Left) => true,
        _ => false,
    }
}

/// Whether the blinking input cursor is shown `elapsed_ms` after start: on for the first
/// half-second, off for the next, and so on.
pub fn cursor_visible(elapsed_ms: u64) -> (b: bool)
    ensures
        b == ((elapsed_ms / 500) % 2 == 0),
{
    (elapsed_ms / 500) % 2 == 0
}

/// A size rule for one part of a layout.
#[derive(Debug, Clone, Copy, PartialEq, Eq, Structural)]
pub enum Size {
    /// Exactly this many cells.
    Length(u16),
    /// At least this many cells.
    Min(u16),
}

/// Whether `part` lies in the column of `area`: at its left edge, of its width, and
/// vertically between its top and its bottom edge (computed with saturation).
pub open spec fn in_column(area: Rect, part: Rect) -> bool {
    &&& part.x == area.x && part.width == area.width
    &&& area.y <= part.y && part.y + part.height <= area.y.saturating_add(area.height)
}

/// Whether `a` ends (at `y + height`) no lower than `b` starts.
pub open spec fn above(a: Rect, b: Rect) -> bool {
    a.y + a.height <= b.y
}

/// Whether `parts` are `n` rectangles in the column of `area`, each above the next.
pub open spec fn column_parts(area: Rect, parts: Seq<Rect>, n: nat) -> bool {
    &&& parts.len() == n
    &&& forall|i: int| 0 <= i < n ==> #[trigger] in_column(area, parts[i])
    &&& forall|i: int, j: int| #![trigger parts[i], parts[j]] 0 <= i < j < n ==> above(parts[i], parts[j])
}

/// The cells that a size rule asks for.
pub open spec fn rule_size(c: Size) -> nat {
    match c {
        Size::Length(n) => n as nat,
        Size::Min(n) => n as nat,
    }
}

/// The number of `Min` rules in `cs`.
pub open spec fn min_count(cs: Seq<Size>) -> nat
    decreases cs.len(),
{
    if cs.len() == 0 {
        0
    } else {
        min_count(cs.drop_last()) + if cs.last() is Min { 1nat } else { 0nat }
    }
}

/// The cells given to a part under rule `c` when `extra` cells are left over: a `Length`
/// gets its size, a `Min` its size and the cells left over.
pub open spec fn share(c: Size, extra: nat) -> nat {
    match c {
        Size::Length(n) => n as nat,
        Size::Min(n) => (n + extra) as nat,
    }
}

/// The cells given to the first `i` parts under `cs` when `extra` cells are left over.
pub open spec fn shares_before(cs: Seq<Size>, i: int, extra: nat) -> nat
    decreases i,
{
    if i <= 0 {
        0
    } else {
        shares_before(cs, i - 1, extra) + share(cs[i - 1], extra)
    }
}

/// Whether the rules `cs` can all be met in `area` with no choice left: the area ends
/// within the `u16` range, at most one rule is a `Min`, and the sizes asked for add up to
/// at most the area's height.
pub open spec fn rules_fit(area: Rect, cs: Seq<Size>) -> bool {
    &&& area.y + area.height <= u16::MAX
    &&& min_count(cs) <= 1
    &&& shares_before(cs, cs.len() as int, 0) <= area.height
}

/// Whether `parts` are stacked from the top of `area` without gaps, each `Length` part of
/// its size and the `Min` part (if any) of its size plus the cells left over.
pub open spec fn stacked_exactly(area: Rect, cs: Seq<Size>, parts: Seq<Rect>) -> bool {
    let extra = (area.height - shares_before(cs, cs.len() as int, 0)) as nat;
    forall|i: int|
        0 <= i < cs.len() ==> (#[trigger] parts[i]).y == area.y + shares_before(cs, i, extra)
            && parts[i].height == share(cs[i], extra)
}

/// Calls `ratatui::layout::Layout::vertical(..).split(area)`, which divides `area` from top
/// to bottom under `constraints` (default flex `Start`, no spacing, no margin). The
/// contract states what holds of every outcome: one part per constraint, each in the
/// column of `area` and above the parts after it. Where the rules can all be met with
/// at most one `Min`, the solver's weights leave a single best placement, which is stated
/// exactly: parts stacked from the top, each `Length` of its size, the `Min` taking the
/// rest. Where the sizes asked for exceed the area, rules of equal weight can share the
/// shortfall in more than one way, and the placement is left unsaid.
#[verifier::external_body]
fn split_vertical(area: Rect, constraints: &Vec<Size>) -> (parts: Vec<Rect>)
    ensures
        column_parts(area, parts@, constraints@.len()),
        rules_fit(area, constraints@) ==> stacked_exactly(area, constraints@, parts@),
{
    let cs: Vec<rl::Constraint> = constraints.iter().map(|c| match c {
        Size::Length(n) => rl::Constraint::Length(*n),
        Size::Min(n) => rl::Constraint::Min(*n),
    }).collect();
    let a = rl::Rect { x: area.x, y: area.y, width: area.width, height: area.height };
    let parts = rl::Layout::vertical(cs).split(a);
    parts.iter().map(|r| Rect { x: r.x, y: r.y, width: r.width, height: r.height }).collect()
}

/// The inside of a block drawn with a border on every side: one cell less on each side,
/// never moving the left or top edge past the right or bottom edge.
pub open spec fn bordered_inner_of(a: Rect) -> Rect {
    let right = a.x.saturating_add(a.width);
    let bottom = a.y.saturating_add(a.height);
    Rect {
        x: if a.x.saturating_add(1) < right { a.x.saturating_add(1) } else { right },
        y: if a.y.saturating_add(1) < bottom { a.y.saturating_add(1) } else { bottom },
        width: a.width.saturating_sub(1).saturating_sub(1),
        height: a.height.saturating_sub(1).saturating_sub(1),
    }
}

/// Calls `ratatui::widgets::Block::inner` for a block with borders on all sides (a title
/// on the top border does not change it); the contract restates that method's computation.
#[verifier::external_body]
fn bordered_inner(area: Rect) -> (r: Rect)
    ensures
        r == bordered_inner_of(area),
{
    let a = rl::Rect { x: area.x, y: area.y, width: area.width, height: area.height };
    let r = Block::default().borders(Borders::ALL).inner(a);
    Rect { x: r.x, y: r.y, width: r.width, height: r.height }
}

/// `area` shrunk by a margin on each side, or the empty rectangle at the origin when the
/// margins do not fit.
pub open spec fn margin_inner_of(a: Rect, horizontal: u16, vertical: u16) -> Rect {
    let dh: u16 = if 2 * horizontal > u16::MAX { u16::MAX } else { (2 * horizontal) as u16 };
    let dv: u16 = if 2 * vertical > u16::MAX { u16::MAX } else { (2 * vertical) as u16 };
    if a.width < dh || a.height < dv {
        Rect { x: 0, y: 0, width: 0, height: 0 }
    } else {
        Rect {
            x: a.x.saturating_add(horizontal),
            y: a.y.saturating_add(vertical),
            width: a.width.saturating_sub(dh),
            height: a.height.saturating_sub(dv),
        }
    }
}

/// Calls `ratatui::layout::Rect::inner` with the given margin; the contract restates that
/// method's computation.
#[verifier::external_body]
fn margin_inner(area: Rect, horizontal: u16, vertical: u16) -> (r: Rect)
    ensures
        r == margin_inner_of(area, horizontal, vertical),
{
    let a = rl::Rect { x: area.x, y: area.y, width: area.width, height: area.height };
    let r = a.inner(rl::Margin::new(horizontal, vertical));
    Rect { x: r.x, y: r.y, width: r.width, height: r.height }
}

/// The smaller of two sizes.
pub open spec fn min16(a: u16, b: u16) -> u16 {
    if a < b { a } else { b }
}

/// The three tab buttons in the header's tab row: four cells wide, one high, one cell
/// apart, cut short (down to nothing) at the row's right edge.
pub open spec fn tab_buttons(row: Rect) -> (Rect, Rect, Rect) {
    let h = min16(1, row.height);
    let end = row.x.saturating_add(row.width);
    let task_x = row.x.saturating_add(4).saturating_add(1);
    let task_w: u16 = if task_x < end { min16(4, (row.x + row.width - task_x) as u16) } else { 0 };
    let settings_x = task_x.saturating_add(4).saturating_add(1);
    let settings_w: u16 = if settings_x < end { min16(4, (row.x + row.width - settings_x) as u16) } else { 0 };
    (
        clamped_rect(row.x, row.y, min16(4, row.width), h),
        clamped_rect(task_x, row.y, task_w, h),
        clamped_rect(settings_x, row.y, settings_w, h),
    )
}

/// The whole screen: header, page body and status footer, and the tab buttons.
#[derive(Debug)]
pub struct ScreenLayout {
    pub header: Rect,
    pub body: Rect,
    pub footer: Rect,
    pub home_tab: Rect,
    pub task_tab: Rect,
    pub settings_tab: Rect,
}

/// Lays out the screen `size` from top to bottom under the rules: a three-line header, a
/// body of at least ten lines and a three-line footer.
pub fn screen_layout(size: Rect) -> (l: ScreenLayout)
    requires
        fits(size),
    ensures
        in_column(size, l.header),
        in_column(size, l.body),
        in_column(size, l.footer),
        above(l.header, l.body) && above(l.body, l.footer),
        size.height >= 16 ==> l.header.y == size.y && l.header.height == 3 && l.body.y == size.y
            + 3 && l.body.height == size.height - 6 && l.footer.y == size.y + size.height - 3
            && l.footer.height == 3,
        fits(l.body),
        (l.home_tab, l.task_tab, l.settings_tab) == tab_buttons(
            margin_inner_of(bordered_inner_of(l.header), 1, 0),
        ),
{
    let mut rules: Vec<Size> = Vec::new();
    rules.push(Size::Length(3));
    rules.push(Size::Min(10));
    rules.push(Size::Length(3));
    let chunks = split_vertical(size, &rules);
    assert(in_column(size, chunks@[0]) && in_column(size, chunks@[1]) && in_column(size, chunks@[2]));
    assert(above(chunks@[0], chunks@[1]) && above(chunks@[1], chunks@[2]));
    proof {
        reveal_with_fuel(shares_before, 4);
        reveal_with_fuel(min_count, 4);
        if size.height >= 16 {
            assert(rules_fit(size, rules@));
            assert(chunks@[0].y == size.y && chunks@[1].y == size.y + 3 && chunks@[2].y == size.y + size.height - 3);
        }
    }
    let header = chunks[0];
    let (home_tab, task_tab, settings_tab) = tab_buttons_in(header);
    ScreenLayout { header, body: chunks[1], footer: chunks[2], home_tab, task_tab, settings_tab }
}

/// The tab buttons drawn in a header: in its framed inside, one cell in from the left
/// and right.
pub fn tab_buttons_in(header: Rect) -> (r: (Rect, Rect, Rect))
    requires
        header.x + header.width <= u16::MAX,
    ensures
        r == tab_buttons(margin_inner_of(bordered_inner_of(header), 1, 0)),
{
    let row = margin_inner(bordered_inner(header), 1, 0);
    assert(row.x + row.width <= u16::MAX);
    let h: u16 = if 1 < row.height { 1 } else { row.height };
    let end = row.x.saturating_add(row.width);
    let task_x = row.x.saturating_add(4).saturating_add(1);
    let task_w: u16 = if task_x < end {
        let room = row.x + row.width - task_x;
        if 4 < room { 4 } else { room }
    } else {
        0
    };
    let settings_x = task_x.saturating_add(4).saturating_add(1);
    let settings_w: u16 = if settings_x < end {
        let room = row.x + row.width - settings_x;
        if 4 < room { 4 } else { room }
    } else {
        0
    };
    let home_w: u16 = if 4 < row.width { 4 } else { row.width };
    (
        Rect::new(row.x, row.y, home_w, h),
        Rect::new(task_x, row.y, task_w, h),
        Rect::new(settings_x, row.y, settings_w, h),
    )
}

/// The home page: the logo, the input box, the row of the start button and the button.
#[derive(Debug)]
pub struct HomeLayout {
    pub logo: Rect,
    pub input: Rect,
    pub button_row: Rect,
    pub start_button: Rect,
}

/// Whether the home page's start button can be centred in `body`.
pub open spec fn home_fits(body: Rect) -> bool {
    body.x + body.width.saturating_sub(22) / 2 <= u16::MAX
}

/// Whether `home_layout(body)` can place the start button.
pub fn home_layout_fits(body: Rect) -> (b: bool)
    ensures
        b == home_fits(body),
{
    (body.width.saturating_sub(22) / 2) <= u16::MAX - body.x
}

/// Lays out the home page in `body` from top to bottom under the rules: six lines of logo,
/// four of input, three for the button row and the rest; the start button is a 22 by 3 box
/// centred in the button row.
pub fn home_layout(body: Rect) -> (l: HomeLayout)
    requires
        home_fits(body),
    ensures
        in_column(body, l.logo),
        in_column(body, l.input),
        in_column(body, l.button_row),
        above(l.logo, l.input) && above(l.input, l.button_row),
        body.y + body.height <= u16::MAX && body.height >= 13 ==> l.logo.y == body.y
            && l.logo.height == 6 && l.input.y == body.y + 6 && l.input.height == 4
            && l.button_row.y == body.y + 10 && l.button_row.height == 3,
        l.start_button == centered(l.button_row, 22, 3),
{
    let mut rules: Vec<Size> = Vec::new();
    rules.push(Size::Length(6));
    rules.push(Size::Length(4));
    rules.push(Size::Length(3));
    rules.push(Size::Min(0));
    let chunks = split_vertical(body, &rules);
    assert(in_column(body, chunks@[0]) && in_column(body, chunks@[1]) && in_column(body, chunks@[2]));
    assert(above(chunks@[0], chunks@[1]) && above(chunks@[1], chunks@[2]));
    proof {
        reveal_with_fuel(shares_before, 5);
        reveal_with_fuel(min_count, 5);
        if body.y + body.height <= u16::MAX && body.height >= 13 {
            assert(rules_fit(body, rules@));
            assert(chunks@[0].y == body.y && chunks@[1].y == body.y + 6 && chunks@[2].y == body.y + 10);
        }
    }
    let button_row = chunks[2];
    HomeLayout {
        logo: chunks[0],
        input: chunks[1],
        button_row,
        start_button: centered_rect(button_row, 22, 3),
    }
}

/// The task page: the inside of its frame, the text area, the lower part and the cancel
/// button in it.
#[derive(Debug)]
pub struct TaskLayout {
    pub inner: Rect,
    pub content: Rect,
    pub lower: Rect,
    pub cancel_button: Rect,
}

/// Lays out the task page in `body`: the inside of its frame is divided from top to bottom
/// into the text area (at least one line) and a three-line lower part; the cancel button
/// takes at most 18 by 3 cells at the top left of the lower part.
pub fn task_layout(body: Rect) -> (l: TaskLayout)
    ensures
        l.inner == bordered_inner_of(body),
        in_column(l.inner, l.content),
        in_column(l.inner, l.lower),
        above(l.content, l.lower),
        l.inner.y + l.inner.height <= u16::MAX && l.inner.height >= 4 ==> l.content.y == l.inner.y
            && l.content.height == l.inner.height - 3 && l.lower.y == l.inner.y + l.inner.height - 3
            && l.lower.height == 3,
        l.cancel_button == clamped_rect(
            l.lower.x,
            l.lower.y,
            min16(18, l.lower.width),
            min16(l.lower.height, 3),
        ),
        l.cancel_button.height == min16(l.lower.height, 3),
        fits(body) ==> l.cancel_button.width == min16(18, l.lower.width),
{
    let inner = bordered_inner(body);
    let mut rules: Vec<Size> = Vec::new();
    rules.push(Size::Min(1));
    rules.push(Size::Length(3));
    let sections = split_vertical(inner, &rules);
    assert(in_column(inner, sections@[0]) && in_column(inner, sections@[1]));
    assert(above(sections@[0], sections@[1]));
    proof {
        reveal_with_fuel(shares_before, 3);
        reveal_with_fuel(min_count, 3);
        if inner.y + inner.height <= u16::MAX && inner.height >= 4 {
            assert(rules_fit(inner, rules@));
            assert(sections@[0].y == inner.y && sections@[1].y == inner.y + inner.height - 3);
        }
    }
    let lower = sections[1];
    TaskLayout { inner, content: sections[0], lower, cancel_button: cancel_button_in(lower) }
}

/// The cancel button in the lower part of the task page: at most 18 by 3 cells at its
/// top left.
pub fn cancel_button_in(section: Rect) -> (r: Rect)
    ensures
        r == clamped_rect(section.x, section.y, min16(18, section.width), min16(section.height, 3)),
{
    let w: u16 = if 18 < section.width { 18 } else { section.width };
    let h: u16 = if section.height < 3 { section.height } else { 3 };
    Rect::new(section.x, section.y, w, h)
}

/// The settings page: the inside of its frame and one clickable row per entry.
#[derive(Debug)]
pub struct SettingsLayout {
    pub inner: Rect,
    pub rows: Vec<Rect>,
}

/// Whether the rows of `count` entries can be placed one cell right of the frame's inside
/// and one per line without leaving the `u16` range.
pub open spec fn rows_fit(inner: Rect, count: nat) -> bool {
    inner.x < u16::MAX && (count == 0 || inner.y + count - 1 <= u16::MAX)
}

/// The row of entry `i`: one line, starting one cell right of the inside's left edge and
/// two cells narrower.
pub open spec fn settings_row(inner: Rect, i: int) -> Rect {
    clamped_rect((inner.x + 1) as u16, (inner.y + i) as u16, inner.width.saturating_sub(2), 1)
}

/// Whether `settings_layout(body, count)` can place its rows.
pub fn settings_rows_fit(body: Rect, count: usize) -> (b: bool)
    ensures
        b == rows_fit(bordered_inner_of(body), count as nat),
{
    let inner = bordered_inner(body);
    inner.x < u16::MAX && (count == 0 || count - 1 <= (u16::MAX - inner.y) as usize)
}

/// Lays out the settings page in `body`, with `count` entry rows.
pub fn settings_layout(body: Rect, count: usize) -> (l: SettingsLayout)
    requires
        rows_fit(bordered_inner_of(body), count as nat),
    ensures
        l.inner == bordered_inner_of(body),
        l.rows@.len() == count,
        forall|i: int| 0 <= i < count ==> #[trigger] l.rows@[i] == settings_row(l.inner, i),
{
    let inner = bordered_inner(body);
    let row_width = inner.width.saturating_sub(2);
    let mut rows: Vec<Rect> = Vec::new();
    let mut idx: usize = 0;
    while idx < count
        invariant
            rows_fit(inner, count as nat),
            idx <= count,
            row_width == inner.width.saturating_sub(2),
            rows@.len() == idx,
            forall|i: int| 0 <= i < idx ==> #[trigger] rows@[i] == settings_row(inner, i),
        decreases count - idx,
    {
        rows.push(Rect::new(inner.x + 1, inner.y + idx as u16, row_width, 1));
        idx += 1;
    }
    SettingsLayout { inner, rows }
}

/// The width and height asked for a dialog box: six cells narrower and four lines lower
/// than the page, but at least 40 by 10, and at most `max_height` lines.
pub open spec fn popup_size(content: Rect, max_height: u16) -> (u16, u16) {
    let w = if content.width.saturating_sub(6) > 40 { content.width.saturating_sub(6) } else { 40 };
    let h = if content.height.saturating_sub(4) > 10 { content.height.saturating_sub(4) } else { 10 };
    (w, min16(h, max_height))
}

/// Whether a dialog box can be centred over `content`.
pub open spec fn popup_fits(content: Rect, max_height: u16) -> bool {
    centered_fits(content, popup_size(content, max_height).0, popup_size(content, max_height).1)
}

/// The size of a dialog box: six cells narrower and four lines lower than the page, but at
/// least 40 by 10, and at most `max_height` lines.
pub open spec fn popup_box(content: Rect, max_height: u16) -> Rect {
    let w = if content.width.saturating_sub(6) > 40 { content.width.saturating_sub(6) } else { 40 };
    let h = if content.height.saturating_sub(4) > 10 { content.height.saturating_sub(4) } else { 10 };
    centered(content, w, min16(h, max_height))
}

/// A provider-list dialog: its box, the inside of its frame and the hint line.
#[derive(Debug)]
pub struct ListPopupLayout {
    pub area: Rect,
    pub inner: Rect,
    pub hint: Rect,
}

/// Lays out a provider-list dialog over the page `content`: a box of at most 18 lines,
/// with the hint on its second-to-last line, two cells in from either side.
pub fn list_popup_layout(content: Rect) -> (l: ListPopupLayout)
    requires
        popup_fits(content, 18),
        popup_box(content, 18).x + 2 <= u16::MAX,
    ensures
        l.area == popup_box(content, 18),
        l.inner == bordered_inner_of(l.area),
        l.hint == clamped_rect(
            (l.area.x + 2) as u16,
            (l.area.y + l.area.height.saturating_sub(2)) as u16,
            l.area.width.saturating_sub(4),
            1,
        ),
{
    let area = popup_area(content, 18);
    let inner = bordered_inner(area);
    let hint = Rect::new(area.x + 2, area.y + area.height.saturating_sub(2), area.width.saturating_sub(4), 1);
    ListPopupLayout { area, inner, hint }
}

/// Whether `list_popup_layout(content)` can place its hint line.
pub fn list_popup_fits(content: Rect) -> (b: bool)
    ensures
        b == (popup_fits(content, 18) && popup_box(content, 18).x + 2 <= u16::MAX),
{
    if !popup_area_fits(content, 18) {
        return false;
    }
    let area = popup_area(content, 18);
    (area.x as u64) + 2 <= (u16::MAX as u64)
}

fn popup_area_fits(content: Rect, max_height: u16) -> (b: bool)
    ensures
        b == popup_fits(content, max_height),
{
    let sw = content.width.saturating_sub(6);
    let w: u16 = if sw > 40 { sw } else { 40 };
    let sh = content.height.saturating_sub(4);
    let h: u16 = if sh > 10 { sh } else { 10 };
    let h: u16 = if h < max_height { h } else { max_height };
    content.width.saturating_sub(w) / 2 <= u16::MAX - content.x && content.height.saturating_sub(h) / 2
        <= u16::MAX - content.y
}

/// Whether `form_popup_layout(content)` can place its box.
pub fn form_popup_fits(content: Rect) -> (b: bool)
    ensures
        b == popup_fits(content, 16),
{
    popup_area_fits(content, 16)
}

fn popup_area(content: Rect, max_height: u16) -> (r: Rect)
    requires
        popup_fits(content, max_height),
    ensures
        r == popup_box(content, max_height),
        fits(r),
{
    let sw = content.width.saturating_sub(6);
    let w: u16 = if sw > 40 { sw } else { 40 };
    let sh = content.height.saturating_sub(4);
    let h: u16 = if sh > 10 { sh } else { 10 };
    let h: u16 = if h < max_height { h } else { max_height };
    centered_rect(content, w, h)
}

/// The add-provider dialog: its box, the inside of its frame, one line per field and the hint.
#[derive(Debug)]
pub struct FormPopupLayout {
    pub area: Rect,
    pub inner: Rect,
    pub fields: Vec<Rect>,
    pub hint: Rect,
}

/// Lays out the add-provider dialog over the page `content` in a box of at most 16 lines;
/// the inside of its frame is divided from top to bottom into four field lines, a spacer
/// line and the hint.
pub fn form_popup_layout(content: Rect) -> (l: FormPopupLayout)
    requires
        popup_fits(content, 16),
    ensures
        l.area == popup_box(content, 16),
        l.inner == bordered_inner_of(l.area),
        column_parts(l.inner, l.fields@, 4),
        in_column(l.inner, l.hint),
        above(l.fields@[3], l.hint),
        l.inner.y + l.inner.height <= u16::MAX && l.inner.height >= 6 ==> (forall|i: int|
            0 <= i < 4 ==> (#[trigger] l.fields@[i]).y == l.inner.y + i && l.fields@[i].height == 1)
            && l.hint.y == l.inner.y + 5 && l.hint.height == l.inner.height - 5,
{
    let area = popup_area(content, 16);
    let inner = bordered_inner(area);
    let mut rules: Vec<Size> = Vec::new();
    rules.push(Size::Length(1));
    rules.push(Size::Length(1));
    rules.push(Size::Length(1));
    rules.push(Size::Length(1));
    rules.push(Size::Length(1));
    rules.push(Size::Min(1));
    let chunks = split_vertical(inner, &rules);
    assert(above(chunks@[3], chunks@[5]));
    proof {
        reveal_with_fuel(shares_before, 7);
        reveal_with_fuel(min_count, 7);
        if inner.y + inner.height <= u16::MAX && inner.height >= 6 {
            assert(rules_fit(inner, rules@));
            assert(chunks@[0].y == inner.y && chunks@[1].y == inner.y + 1 && chunks@[2].y == inner.y + 2
                && chunks@[3].y == inner.y + 3 && chunks@[5].y == inner.y + 5);
        }
    }
    let mut fields: Vec<Rect> = Vec::new();
    fields.push(chunks[0]);
    fields.push(chunks[1]);
    fields.push(chunks[2]);
    fields.push(chunks[3]);
    FormPopupLayout { area, inner, fields, hint: chunks[5] }
}

} // verus!
