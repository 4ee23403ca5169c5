//! A single symbol of a stream: where it is, how it moves, what it shows.
use crate::ansi::ansi_rgb;
use crate::ansi::colored_text;
use crate::colors::RGBColor;
use crate::config::Config;
use crate::direction::Direction;
use crate::draw::ops;
use crate::draw::DrawCommand;
use crate::draw::DrawOp;
use crate::random::random_between;
use crate::symbols::Symbols;
use vstd::prelude::*;

verus! {

/// The number of position units in one cell of the terminal. Positions and
/// speeds are whole numbers of such units, so that an entity can move by a
/// part of a cell in a frame.
pub const CELL: i64 = 1024;

/// A position or a sum of positions held to the range of `i64`.
pub open spec fn clamped(v: int) -> i64 {
    if v > i64::MAX {
        i64::MAX
    } else if v < i64::MIN {
        i64::MIN
    } else {
        v as i64
    }
}

/// The sum of two positions, held to the range of `i64`.
pub fn add_clamped(a: i64, b: i64) -> (r: i64)
    ensures
        r == clamped(a + b),
{
    match a.checked_add(b) {
        Some(v) => v,
        None => if b > 0 {
            i64::MAX
        } else {
            i64::MIN
        },
    }
}

/// The cell that a position lies in: the whole cells of the position,
/// 0 for a position before the first cell, and the last cell that a
/// terminal can address for one beyond it.
pub open spec fn cell_at(position: i64) -> u16 {
    if position < 0 {
        0u16
    } else if position / CELL > u16::MAX {
        u16::MAX
    } else {
        (position / CELL) as u16
    }
}

/// The cell that a position lies in.
pub fn cell_of(position: i64) -> (c: u16)
    ensures
        c == cell_at(position),
{
    if position < 0 {
        0
    } else {
        let whole: i64 = position / CELL;
        if whole > u16::MAX as i64 {
            u16::MAX
        } else {
            whole as u16
        }
    }
}

/// A position of a whole number of cells.
pub open spec fn cells(n: int) -> int {
    n * CELL
}

/// A single entity of a stream.
#[derive(Debug)]
pub struct Entity {
    /// The position along the columns.
    pub x: i64,
    /// The position along the rows.
    pub y: i64,
    /// The speed along the columns, in units per frame.
    pub speed_x: i64,
    /// The speed along the rows, in units per frame.
    pub speed_y: i64,
    /// The symbol that the entity shows.
    pub symbol: char,
    /// The color of the symbol.
    pub color: RGBColor,
    /// The set that the symbols are drawn from.
    pub mode: Symbols,
    /// The number of frames at which the entity was drawn.
    pub frame_count: u64,
    /// The number of drawn frames from one switch of the symbol to the
    /// next, or 0 for an entity that never switches.
    pub switch_interval: u32,
}

impl Entity {
    /// Whether the entity lies in the visible rectangle of `rows` rows and
    /// `columns` columns.
    pub open spec fn on_screen(self, rows: i32, columns: i32) -> bool {
        0 <= self.x < cells(columns as int) && 0 <= self.y < cells(rows as int)
    }

    /// Whether the entity takes a new symbol at the frame it is drawn next:
    /// it has a switch interval, and its frame count is a multiple of it.
    pub open spec fn switches(self) -> bool {
        self.switch_interval != 0 && self.frame_count as int % self.switch_interval as int == 0
    }

    /// The frame count after the entity has been drawn once more: one
    /// more, whatever the switch interval, up to the largest count that
    /// the counter holds.
    pub open spec fn next_frame_count(self) -> u64 {
        if self.frame_count < u64::MAX {
            (self.frame_count + 1) as u64
        } else {
            u64::MAX
        }
    }

    /// The commands that draw the entity: a move to its cell, then its
    /// symbol in its color.
    pub open spec fn drawn(self) -> Seq<DrawOp> {
        seq![
            DrawOp::MoveTo(cell_at(self.x), cell_at(self.y)),
            DrawOp::Print(colored_text(self.symbol, self.color)),
        ]
    }

    /// The entity after it has moved by its speed.
    pub open spec fn moved(self) -> Entity {
        Entity {
            x: clamped(self.x + self.speed_x),
            y: clamped(self.y + self.speed_y),
            ..self
        }
    }

    /// Whether `after` is this entity after one draw: unchanged where it
    /// lies off the screen; else with one frame more counted, and with a new
    /// symbol of its set where a switch was due.
    pub open spec fn drawn_to(self, after: Entity, rows: i32, columns: i32) -> bool {
        if self.on_screen(rows, columns) {
            &&& after == (Entity {
                symbol: after.symbol,
                frame_count: self.next_frame_count(),
                ..self
            })
            &&& self.switches() ==> self.mode.offers(after.symbol)
            &&& !self.switches() ==> after.symbol == self.symbol
        } else {
            after == self
        }
    }

    /// The commands of one draw: those that draw the entity where it lies
    /// on the screen, none where it lies off it.
    pub open spec fn draw_ops(self, rows: i32, columns: i32) -> Seq<DrawOp> {
        if self.on_screen(rows, columns) {
            self.drawn()
        } else {
            Seq::empty()
        }
    }

    /// Whether the entity has left the screen in the direction of travel:
    /// past the last column or before the first for travel along the
    /// columns, past the last row or before the first for travel along the
    /// rows, and both for diagonal travel.
    pub open spec fn left_screen(self, rows: i32, columns: i32, direction: Direction) -> bool {
        &&& direction.dx() > 0 ==> self.x >= cells(columns as int)
        &&& direction.dx() < 0 ==> self.x < 0
        &&& direction.dy() > 0 ==> self.y >= cells(rows as int)
        &&& direction.dy() < 0 ==> self.y < 0
    }

    /// Whether the entity has left the screen in the direction of travel.
    pub fn has_left(&self, rows: i32, columns: i32, direction: Direction) -> (left: bool)
        ensures
            left == self.left_screen(rows, columns, direction),
    {
        let (dx, dy) = direction.step();
        let past_x = if dx > 0 {
            self.x >= columns as i64 * CELL
        } else if dx < 0 {
            self.x < 0
        } else {
            true
        };
        let past_y = if dy > 0 {
            self.y >= rows as i64 * CELL
        } else if dy < 0 {
            self.y < 0
        } else {
            true
        };
        past_x && past_y
    }

    /// The switch interval for a bound of frames and a draw: the draw where
    /// the bound leaves room for one, else 0.
    pub open spec fn valid_interval(bound: int, interval: u32) -> bool {
        if bound >= 2 {
            1 <= interval < bound
        } else {
            interval == 0
        }
    }

    /// A new entity with a blank symbol. Its switch interval is drawn from
    /// 1 up to, not including, the configured number of frames; where that
    /// number leaves no room for a draw, the entity never switches.
    pub fn new(
        x: i64,
        y: i64,
        speed_x: i64,
        speed_y: i64,
        color: RGBColor,
        config: &Config,
    ) -> (e: Entity)
        ensures
            e.x == x,
            e.y == y,
            e.speed_x == speed_x,
            e.speed_y == speed_y,
            e.color == color,
            e.symbol == ' ',
            e.mode == config.mode,
            e.frame_count == 0,
            Entity::valid_interval(config.switch_bound(), e.switch_interval),
    {
        let bound = config.switch_interval_bound();
        let switch_interval = if bound >= 2 {
            random_between::<u32>(1, bound)
        } else {
            0
        };
        Entity {
            x,
            y,
            speed_x,
            speed_y,
            color,
            symbol: ' ',
            mode: config.mode.clone(),
            frame_count: 0,
            switch_interval,
        }
    }

    /// Moves the entity by its speed.
    pub fn rain(&mut self)
        ensures
            *final(self) == old(self).moved(),
    {
        self.x = add_clamped(self.x, self.speed_x);
        self.y = add_clamped(self.y, self.speed_y);
    }

    /// Gives the entity a random symbol of its set.
    pub fn set_symbol(&mut self)
        ensures
            old(self).mode.offers(final(self).symbol),
            *final(self) == (Entity { symbol: final(self).symbol, ..*old(self) }),
    {
        self.symbol = self.mode.get_random();
    }

    /// Takes a new symbol where a switch is due, then counts the drawn
    /// frame.
    fn switch_symbol(&mut self)
        ensures
            old(self).switches() ==> old(self).mode.offers(final(self).symbol),
            !old(self).switches() ==> final(self).symbol == old(self).symbol,
            *final(self) == (Entity {
                symbol: final(self).symbol,
                frame_count: old(self).next_frame_count(),
                ..*old(self)
            }),
    {
        if self.switch_interval != 0 && self.frame_count % self.switch_interval as u64 == 0 {
            self.set_symbol();
        }
        self.frame_count = self.frame_count.saturating_add(1);
    }

    /// Draws the entity where it lies on the screen, and only there: off the
    /// screen nothing is drawn and nothing changes. After the draw a new
    /// symbol is taken where a switch is due, and the frame is counted in
    /// any case, also for an entity that never switches.
    pub fn render(&mut self, rows: i32, columns: i32) -> (commands: Vec<DrawCommand>)
        ensures
            ops(commands@) == old(self).draw_ops(rows, columns),
            old(self).drawn_to(*final(self), rows, columns),
            !old(self).on_screen(rows, columns) ==> commands@.len() == 0,
    {
        let mut commands: Vec<DrawCommand> = Vec::new();
        if self.x < 0 || self.x >= columns as i64 * CELL || self.y < 0 || self.y >= rows as i64
            * CELL {
            return commands;
        }
        commands.push(DrawCommand::MoveTo(cell_of(self.x), cell_of(self.y)));
        commands.push(DrawCommand::Print(ansi_rgb(&self.symbol, self.color)));
        self.switch_symbol();
        commands
    }
}

impl Entity {
    /// The frame count after the entity has been drawn `n` times more.
    pub open spec fn frame_count_after(self, n: nat) -> u64
        decreases n,
    {
        if n == 0 {
            self.frame_count
        } else {
            (Entity {
                frame_count: self.frame_count_after((n - 1) as nat),
                ..self
            }).next_frame_count()
        }
    }

    /// The entity as it is after `n` more draws, but for its symbol.
    pub open spec fn after_draws(self, n: nat) -> Entity {
        Entity { frame_count: self.frame_count_after(n), ..self }
    }

    /// The number of the next `n` draws at which the entity takes a new
    /// symbol.
    pub open spec fn switches_within(self, n: nat) -> nat
        decreases n,
    {
        if n == 0 {
            0
        } else if self.after_draws((n - 1) as nat).switches() {
            self.switches_within((n - 1) as nat) + 1
        } else {
            self.switches_within((n - 1) as nat)
        }
    }
}

/// Every draw counts one frame: after `n` more draws the frame count is
/// `n` more, for every switch interval, as long as the counter holds it.
pub proof fn lemma_frames_are_counted(e: Entity, n: nat)
    requires
        e.frame_count + n <= u64::MAX,
    ensures
        e.frame_count_after(n) == e.frame_count + n,
    decreases n,
{
    if n > 0 {
        lemma_frames_are_counted(e, (n - 1) as nat);
    }
}

/// An entity with a switch interval of `k` frames takes a new symbol at
/// the draws at which its frame count is a multiple of `k`, and at no
/// others, however many times it is drawn; an entity without a switch
/// interval never takes one.
pub proof fn lemma_switch_periodicity(e: Entity, n: nat)
    requires
        e.frame_count + n <= u64::MAX,
    ensures
        e.frame_count_after(n) == e.frame_count + n,
        e.after_draws(n).switches() <==> e.switch_interval != 0 && (e.frame_count + n) % (
        e.switch_interval as int) == 0,
{
    lemma_frames_are_counted(e, n);
}

/// A fresh entity with a switch interval of `k` frames, drawn `n` times,
/// has a frame count of `n` and has taken a new symbol at the draws 0, `k`,
/// `2k` and so on: `(n + k - 1) / k` times in all.
pub proof fn lemma_fresh_entity_switches(e: Entity, n: nat)
    requires
        e.frame_count == 0,
        e.switch_interval > 0,
        n <= u64::MAX,
    ensures
        e.frame_count_after(n) == n,
        e.switches_within(n) == (n + e.switch_interval - 1) / (e.switch_interval as int),
    decreases n,
{
    let k = e.switch_interval as int;
    lemma_frames_are_counted(e, n);
    if n > 0 {
        let m = n - 1;
        lemma_fresh_entity_switches(e, m as nat);
        lemma_switch_periodicity(e, m as nat);
        assert((m + 1 + k - 1) / k == (m + k - 1) / k + (if m % k == 0 {
            1int
        } else {
            0int
        })) by (nonlinear_arith)
            requires
                k > 0,
                m >= 0,
        ;
    } else {
        assert((0 + k - 1) / k == 0) by (nonlinear_arith)
            requires
                k > 0,
        ;
    }
}

} // verus!
