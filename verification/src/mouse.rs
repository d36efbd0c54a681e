//! What a mouse event asks of the application: tabs, seeking, volume, and
//! selecting or activating list items with single and double clicks.
use vstd::prelude::*;
use crate::command;
use crate::command::{AppCommand, PlaylistMode};
use crate::clock::{instant_now, millis_since};
use crate::layout::{Rect, calculate_tab_index, tab_at, title_widths};

verus! {

/// Rows of the header.
pub const HEADER_HEIGHT: u16 = 3;

/// Rows of the footer.
pub const FOOTER_HEIGHT: u16 = 3;

/// Rows of the toast line above the footer.
pub const TOAST_HEIGHT: u16 = 3;

/// Columns of the left panel.
pub const LEFT_WIDTH: u16 = 24;

/// Columns of the center panel.
pub const CENTER_WIDTH: u16 = 58;

/// Two clicks on one item at most this far apart are a double click.
pub const DOUBLE_CLICK_WINDOW_MS: u64 = 500;

/// The body panel a click landed in.
#[derive(Debug, Clone, Copy, PartialEq, Eq, Structural)]
pub enum Panel {
    Left,
    Center,
    Right,
}

/// The last click: where it was, and when, in milliseconds on the detector's clock.
pub struct LastClick {
    pub panel: Panel,
    pub item_index: usize,
    pub at_ms: u128,
}

/// Remembers the last click on a list item, to tell double clicks from single
/// ones. Click times are milliseconds since the detector was made.
pub struct DoubleClickDetector {
    origin: std::time::Instant,
    last_click: Option<LastClick>,
}

/// The milliseconds from a click at `last` to `now_ms` (zero where there was
/// no click, or where `now_ms` is not later).
pub open spec fn since(last: Option<u128>, now_ms: u128) -> u128 {
    match last {
        Some(t) => if now_ms >= t {
            (now_ms - t) as u128
        } else {
            0
        },
        None => 0,
    }
}

/// Whether a click on `(panel, index)` is the second of a double click, given
/// where the last click was and how many milliseconds ago.
pub open spec fn double_click(last: Option<(Panel, usize)>, panel: Panel, index: usize, elapsed_ms: u128) -> bool {
    last == Some((panel, index)) && elapsed_ms <= DOUBLE_CLICK_WINDOW_MS
}

/// Decides whether a click is a double click: on the same item of the same
/// panel as the last click, at most the double-click window after it.
pub fn is_double_click(last: Option<(Panel, usize)>, panel: Panel, index: usize, elapsed_ms: u128) -> (r: bool)
    ensures
        r == double_click(last, panel, index, elapsed_ms),
{
    match last {
        Some((p, i)) => p == panel && i == index && elapsed_ms <= DOUBLE_CLICK_WINDOW_MS as u128,
        None => false,
    }
}

impl DoubleClickDetector {
    /// Where the last remembered click was.
    pub closed spec fn last_view(&self) -> Option<(Panel, usize)> {
        match self.last_click {
            Some(lc) => Some((lc.panel, lc.item_index)),
            None => None,
        }
    }

    /// When the last remembered click was, on the detector's clock.
    pub closed spec fn last_time(&self) -> Option<u128> {
        match self.last_click {
            Some(lc) => Some(lc.at_ms),
            None => None,
        }
    }

    /// A detector that remembers no click; its clock starts now.
    pub fn new() -> (r: Self)
        ensures
            r.last_view() is None,
            r.last_time() is None,
    {
        DoubleClickDetector { origin: instant_now(), last_click: None }
    }

    /// The detector's clock: milliseconds since it was made.
    pub fn now_ms(&self) -> u128 {
        millis_since(&self.origin)
    }

    /// Records a click on `(panel, item_index)` at `now_ms` on the detector's
    /// clock and says whether it completes a double click: the last click was
    /// on the same item of the same panel, at most the double-click window before.
    pub fn check_and_update_at(&mut self, panel: Panel, item_index: usize, now_ms: u128) -> (r: bool)
        ensures
            final(self).last_view() == Some((panel, item_index)),
            final(self).last_time() == Some(now_ms),
            r == double_click(old(self).last_view(), panel, item_index, since(old(self).last_time(), now_ms)),
    {
        let is_double = match &self.last_click {
            Some(lc) => {
                let elapsed = if now_ms >= lc.at_ms {
                    now_ms - lc.at_ms
                } else {
                    0
                };
                is_double_click(Some((lc.panel, lc.item_index)), panel, item_index, elapsed)
            },
            None => false,
        };
        self.last_click = Some(LastClick { panel, item_index, at_ms: now_ms });
        is_double
    }

    /// Records a click on `(panel, item_index)` now and says whether it
    /// completes a double click (see `check_and_update_at`); the time is read
    /// from the clock, so what holds is stated for whatever time it reads.
    pub fn check_and_update(&mut self, panel: Panel, item_index: usize) -> (r: bool)
        ensures
            final(self).last_view() == Some((panel, item_index)),
            exists|t: u128|
                final(self).last_time() == Some(t) && r == double_click(
                    old(self).last_view(),
                    panel,
                    item_index,
                    since(old(self).last_time(), t),
                ),
    {
        let now = self.now_ms();
        self.check_and_update_at(panel, item_index, now)
    }

    /// Forgets the last click.
    pub fn invalidate(&mut self)
        ensures
            final(self).last_view() is None,
            final(self).last_time() is None,
    {
        self.last_click = None;
    }
}

impl Default for DoubleClickDetector {
    fn default() -> (r: Self)
        ensures
            r.last_view() is None,
            r.last_time() is None,
    {
        DoubleClickDetector::new()
    }
}

/// A mouse button.
#[derive(Debug, Clone, Copy, PartialEq, Eq, Structural)]
pub enum MouseButton {
    Left,
    Right,
    Middle,
}

/// What the mouse did.
#[derive(Debug, Clone, Copy, PartialEq, Eq, Structural)]
pub enum MouseEventKind {
    Down(MouseButton),
    Up(MouseButton),
    Drag(MouseButton),
    Moved,
    ScrollDown,
    ScrollUp,
    ScrollLeft,
    ScrollRight,
}

/// One mouse event, at a terminal cell.
#[derive(Debug, Clone, Copy, PartialEq, Eq, Structural)]
pub struct MouseEvent {
    pub kind: MouseEventKind,
    pub column: u16,
    pub row: u16,
}

/// What the mouse handler reads of the application state.
pub struct MouseContext {
    pub help_visible: bool,
    pub view: command::View,
    pub playlist_mode: PlaylistMode,
    /// The titles of the tabs in the header, in order.
    pub tab_titles: Vec<String>,
    pub playlists_count: usize,
    pub playlist_tracks_count: usize,
    pub search_results_count: usize,
    /// The length of the song playing, if one is.
    pub play_total_ms: Option<u64>,
}

/// The list item under a row of a panel: the first row is the border.
pub open spec fn item_at_row(row_in_panel: u16, item_count: usize) -> Option<usize> {
    if row_in_panel == 0 || row_in_panel - 1 >= item_count {
        None
    } else {
        Some((row_in_panel - 1) as usize)
    }
}

/// The list item under a row of a panel, if the row shows one.
pub fn row_to_item_index(row_in_panel: u16, item_count: usize) -> (r: Option<usize>)
    ensures
        r == item_at_row(row_in_panel, item_count),
        r matches Some(i) ==> i < item_count,
{
    let content_row = row_in_panel as usize;
    if content_row == 0 {
        return None;
    }
    let index = content_row - 1;
    if index < item_count {
        Some(index)
    } else {
        None
    }
}

/// The position to seek to for a click at column `col` of a footer `width`
/// wide, in a song `total_ms` long: `col / width` of the song, rounded to the
/// nearest millisecond, halves up.
pub open spec fn seek_target_ms(col: u16, width: u16, total_ms: u64) -> int {
    (2 * (col * total_ms) + width) / (2 * width as int)
}

/// Where a click with the left button lands, and what it asks.
#[derive(Debug, Clone, Copy, PartialEq, Eq, Structural)]
pub enum ClickTarget {
    /// Not on a list item: the last click is forgotten and the command, if any, is sent.
    Plain(Option<AppCommand>),
    /// On a list item: a single click sends the first command, a double click the second.
    Item(Panel, usize, AppCommand, AppCommand),
}

/// What a click on a row of the left panel hits.
pub open spec fn left_target(ctx: MouseContext, row: u16) -> ClickTarget {
    if ctx.view == command::View::Playlists {
        match item_at_row(row, ctx.playlists_count) {
            Some(i) => ClickTarget::Item(
                Panel::Left,
                i,
                AppCommand::PlaylistsMoveTo { index: i },
                AppCommand::PlaylistsOpenSelected,
            ),
            None => ClickTarget::Plain(None),
        }
    } else {
        ClickTarget::Plain(None)
    }
}

/// What a click on a row of the center panel hits.
pub open spec fn center_target(ctx: MouseContext, row: u16) -> ClickTarget {
    if ctx.view == command::View::Playlists && ctx.playlist_mode == PlaylistMode::Tracks {
        match item_at_row(row, ctx.playlist_tracks_count) {
            Some(i) => ClickTarget::Item(
                Panel::Center,
                i,
                AppCommand::PlaylistTracksMoveTo { index: i },
                AppCommand::PlaylistTracksPlaySelected,
            ),
            None => ClickTarget::Plain(None),
        }
    } else if ctx.view == command::View::Search {
        match item_at_row(row, ctx.search_results_count) {
            Some(i) => ClickTarget::Item(
                Panel::Center,
                i,
                AppCommand::SearchMoveTo { index: i },
                AppCommand::SearchPlaySelected,
            ),
            None => ClickTarget::Plain(None),
        }
    } else {
        ClickTarget::Plain(None)
    }
}

/// `a - b`, or 0 where `b` is larger.
pub open spec fn sat_sub(a: int, b: int) -> int {
    if a >= b {
        a - b
    } else {
        0
    }
}

/// What a left click at canvas cell `(col, row)` hits: the tab strip in the
/// first row, the progress bar in the footer, a list in the body.
pub open spec fn click_target(ctx: MouseContext, canvas: Rect, col: u16, row: u16) -> ClickTarget {
    if row == 0 {
        ClickTarget::Plain(
            match tab_at(title_widths(ctx.tab_titles@), col) {
                Some(i) => Some(AppCommand::TabTo { index: i }),
                None => None,
            },
        )
    } else if row >= sat_sub(canvas.height as int, FOOTER_HEIGHT as int) {
        ClickTarget::Plain(
            match ctx.play_total_ms {
                Some(t) => Some(
                    AppCommand::PlayerSeekAbsoluteMs {
                        ms: seek_target_ms(col, canvas.width, t) as u64,
                    },
                ),
                None => None,
            },
        )
    } else if row < HEADER_HEIGHT || row >= sat_sub(
        canvas.height as int,
        (FOOTER_HEIGHT + TOAST_HEIGHT) as int,
    ) {
        ClickTarget::Plain(None)
    } else if col < LEFT_WIDTH {
        left_target(ctx, (row - HEADER_HEIGHT) as u16)
    } else if col < LEFT_WIDTH + CENTER_WIDTH {
        center_target(ctx, (row - HEADER_HEIGHT) as u16)
    } else {
        ClickTarget::Plain(None)
    }
}

/// Whether a cell lies inside the canvas.
pub open spec fn in_canvas(canvas: Rect, column: u16, row: u16) -> bool {
    canvas.x <= column < canvas.x + canvas.width && canvas.y <= row < canvas.y + canvas.height
}

/// The commands of mouse events that leave the double-click memory alone:
/// everything while help shows or outside the canvas, the wheel, and all but
/// the left button going down. `None` for a left click in the canvas.
pub open spec fn passive_response(ctx: MouseContext, canvas: Rect, ev: MouseEvent) -> Option<Seq<AppCommand>> {
    if ctx.help_visible || !in_canvas(canvas, ev.column, ev.row) {
        Some(seq![])
    } else {
        match ev.kind {
            MouseEventKind::ScrollUp => Some(seq![AppCommand::PlayerVolumeUp]),
            MouseEventKind::ScrollDown => Some(seq![AppCommand::PlayerVolumeDown]),
            MouseEventKind::Down(MouseButton::Left) => None,
            _ => Some(seq![]),
        }
    }
}

fn one(c: AppCommand) -> (r: Vec<AppCommand>)
    ensures
        r@ == seq![c],
{
    let mut v = Vec::new();
    v.push(c);
    v
}

fn left_click(ctx: &MouseContext, row: u16) -> (r: ClickTarget)
    ensures
        r == left_target(*ctx, row),
{
    if ctx.view == command::View::Playlists {
        match row_to_item_index(row, ctx.playlists_count) {
            Some(i) => ClickTarget::Item(
                Panel::Left,
                i,
                AppCommand::PlaylistsMoveTo { index: i },
                AppCommand::PlaylistsOpenSelected,
            ),
            None => ClickTarget::Plain(None),
        }
    } else {
        ClickTarget::Plain(None)
    }
}

fn center_click(ctx: &MouseContext, row: u16) -> (r: ClickTarget)
    ensures
        r == center_target(*ctx, row),
{
    if ctx.view == command::View::Playlists && ctx.playlist_mode == PlaylistMode::Tracks {
        match row_to_item_index(row, ctx.playlist_tracks_count) {
            Some(i) => ClickTarget::Item(
                Panel::Center,
                i,
                AppCommand::PlaylistTracksMoveTo { index: i },
                AppCommand::PlaylistTracksPlaySelected,
            ),
            None => ClickTarget::Plain(None),
        }
    } else if ctx.view == command::View::Search {
        match row_to_item_index(row, ctx.search_results_count) {
            Some(i) => ClickTarget::Item(
                Panel::Center,
                i,
                AppCommand::SearchMoveTo { index: i },
                AppCommand::SearchPlaySelected,
            ),
            None => ClickTarget::Plain(None),
        }
    } else {
        ClickTarget::Plain(None)
    }
}

/// The seek position for a click at `col` of a footer `width` wide.
pub fn seek_position_ms(col: u16, width: u16, total_ms: u64) -> (r: u64)
    requires
        col < width,
    ensures
        r == seek_target_ms(col, width, total_ms),
        r <= total_ms,
{
    let c: u128 = col as u128;
    let t: u128 = total_ms as u128;
    assert(c * t <= 0xffffu128 * 0xffff_ffff_ffff_ffffu128) by (nonlinear_arith)
        requires
            c <= 0xffff,
            t <= 0xffff_ffff_ffff_ffff,
    ;
    let p: u128 = c * t;
    let num: u128 = 2 * p + (width as u128);
    let den: u128 = 2 * (width as u128);
    proof {
        assert(p <= (width as int) * (t as int) - (t as int)) by (nonlinear_arith)
            requires
                p == (c as int) * (t as int),
                c < width,
        ;
        assert(num < den * (t as int) + den) by (nonlinear_arith)
            requires
                num == 2 * p + (width as int),
                den == 2 * (width as int),
                p <= (width as int) * (t as int) - (t as int),
                width >= 1,
        ;
        assert(num / den <= t) by (nonlinear_arith)
            requires
                num < den * (t as int) + den,
                den > 0,
        ;
    }
    (num / den) as u64
}

/// What a left click at canvas cell `(col, row)` hits.
pub fn locate_click(ctx: &MouseContext, canvas: &Rect, col: u16, row: u16) -> (r: ClickTarget)
    requires
        col < canvas.width,
        row < canvas.height,
    ensures
        r == click_target(*ctx, *canvas, col, row),
{
    if row == 0 {
        return ClickTarget::Plain(
            match calculate_tab_index(&ctx.tab_titles, col) {
                Some(i) => Some(AppCommand::TabTo { index: i }),
                None => None,
            },
        );
    }
    let footer_start = canvas.height.saturating_sub(FOOTER_HEIGHT);
    if row >= footer_start {
        return ClickTarget::Plain(
            match ctx.play_total_ms {
                Some(t) => Some(
                    AppCommand::PlayerSeekAbsoluteMs { ms: seek_position_ms(col, canvas.width, t) },
                ),
                None => None,
            },
        );
    }
    let body_end = canvas.height.saturating_sub(FOOTER_HEIGHT + TOAST_HEIGHT);
    if row < HEADER_HEIGHT || row >= body_end {
        return ClickTarget::Plain(None);
    }
    if col < LEFT_WIDTH {
        left_click(ctx, row - HEADER_HEIGHT)
    } else if col < LEFT_WIDTH + CENTER_WIDTH {
        center_click(ctx, row - HEADER_HEIGHT)
    } else {
        ClickTarget::Plain(None)
    }
}

/// Where a left click of the event lands in the canvas.
pub open spec fn event_target(ctx: MouseContext, canvas: Rect, ev: MouseEvent) -> ClickTarget {
    click_target(ctx, canvas, (ev.column - canvas.x) as u16, (ev.row - canvas.y) as u16)
}

/// What a mouse event at `now_ms` on the detector's clock does: events that
/// are not left clicks in the canvas leave the detector alone; a click on a
/// list item is remembered, and selects the item, or activates it where it
/// completes a double click on it; any other click forgets the last click.
pub open spec fn mouse_step(
    ctx: MouseContext,
    canvas: Rect,
    ev: MouseEvent,
    before: DoubleClickDetector,
    after: DoubleClickDetector,
    r: Seq<AppCommand>,
    now_ms: u128,
) -> bool {
    match passive_response(ctx, canvas, ev) {
        Some(cmds) => r == cmds && after == before,
        None => match event_target(ctx, canvas, ev) {
            ClickTarget::Plain(c) => after.last_view() is None && after.last_time() is None && r
                == match c {
                Some(cmd) => seq![cmd],
                None => Seq::<AppCommand>::empty(),
            },
            ClickTarget::Item(panel, index, select, activate) => {
                &&& after.last_view() == Some((panel, index))
                &&& after.last_time() == Some(now_ms)
                &&& r == if double_click(
                    before.last_view(),
                    panel,
                    index,
                    since(before.last_time(), now_ms),
                ) {
                    seq![activate]
                } else {
                    seq![select]
                }
            },
        },
    }
}

/// Two left clicks on the same list item, the second at most the
/// double-click window after the first and no mouse event between them: the
/// second activates the item. Where the second lands on another item, it
/// only selects that item.
pub proof fn lemma_double_click_activates(
    ctx: MouseContext,
    canvas: Rect,
    ev1: MouseEvent,
    ev2: MouseEvent,
    d0: DoubleClickDetector,
    d1: DoubleClickDetector,
    d2: DoubleClickDetector,
    r1: Seq<AppCommand>,
    r2: Seq<AppCommand>,
    t1: u128,
    t2: u128,
)
    requires
        mouse_step(ctx, canvas, ev1, d0, d1, r1, t1),
        mouse_step(ctx, canvas, ev2, d1, d2, r2, t2),
        passive_response(ctx, canvas, ev1) is None,
        passive_response(ctx, canvas, ev2) is None,
        event_target(ctx, canvas, ev1) is Item,
        event_target(ctx, canvas, ev2) is Item,
    ensures
        event_target(ctx, canvas, ev1) matches ClickTarget::Item(p1, i1, _, _) && event_target(
            ctx,
            canvas,
            ev2,
        ) matches ClickTarget::Item(p2, i2, s2, a2) && ((p1, i1) == (p2, i2) && t1 <= t2 && t2 - t1
            <= DOUBLE_CLICK_WINDOW_MS ==> r2 == seq![a2]) && ((p1, i1) != (p2, i2) ==> r2 == seq![s2]),
{
}

/// Decides what a mouse event asks at `now_ms` on the detector's clock, with
/// the canvas already placed (see `mouse_step`).
pub fn handle_mouse_at(
    ctx: &MouseContext,
    ev: MouseEvent,
    canvas: &Rect,
    dc: &mut DoubleClickDetector,
    now_ms: u128,
) -> (r: Vec<AppCommand>)
    requires
        canvas.x + canvas.width <= u16::MAX,
        canvas.y + canvas.height <= u16::MAX,
    ensures
        mouse_step(*ctx, *canvas, ev, *old(dc), *final(dc), r@, now_ms),
{
    if ctx.help_visible {
        return Vec::new();
    }
    if ev.column < canvas.x || ev.row < canvas.y || ev.column >= canvas.x + canvas.width || ev.row
        >= canvas.y + canvas.height {
        return Vec::new();
    }
    let column = ev.column - canvas.x;
    let row = ev.row - canvas.y;
    match ev.kind {
        MouseEventKind::ScrollUp => {
            return one(AppCommand::PlayerVolumeUp);
        },
        MouseEventKind::ScrollDown => {
            return one(AppCommand::PlayerVolumeDown);
        },
        MouseEventKind::Down(MouseButton::Left) => {},
        _ => {
            return Vec::new();
        },
    }
    match locate_click(ctx, canvas, column, row) {
        ClickTarget::Plain(c) => {
            dc.invalidate();
            match c {
                Some(cmd) => one(cmd),
                None => Vec::new(),
            }
        },
        ClickTarget::Item(panel, index, select, activate) => {
            if dc.check_and_update_at(panel, index, now_ms) {
                one(activate)
            } else {
                one(select)
            }
        },
    }
}

/// Decides what a mouse event asks, with the canvas already placed, reading
/// the detector's clock for the time of the event (see `handle_mouse_at`):
/// what holds is stated for whatever time the clock reads.
pub fn handle_mouse_with_canvas(
    ctx: &MouseContext,
    ev: MouseEvent,
    canvas: &Rect,
    dc: &mut DoubleClickDetector,
) -> (r: Vec<AppCommand>)
    requires
        canvas.x + canvas.width <= u16::MAX,
        canvas.y + canvas.height <= u16::MAX,
    ensures
        exists|t: u128| mouse_step(*ctx, *canvas, ev, *old(dc), *final(dc), r@, t),
{
    let now = dc.now_ms();
    handle_mouse_at(ctx, ev, canvas, dc, now)
}

} // verus!
