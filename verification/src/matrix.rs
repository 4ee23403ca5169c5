//! The field of streams that covers the terminal.
use crate::config::Config;
use crate::direction::Direction;
use crate::draw::append_commands;
use crate::draw::ops;
use crate::draw::DrawCommand;
use crate::draw::DrawOp;
use crate::entity::CELL;
use crate::random::random_between;
use crate::stream::generated;
use crate::stream::Stream;
use vstd::prelude::*;
use vstd::string::StringExecFns;

verus! {

/// The number of cells, off the screen, within which a stream starts, so
/// that the streams do not enter the screen together.
pub const START_DEPTH: i64 = 50;

/// The field of streams.
#[derive(Debug)]
pub struct Matrix {
    /// The number of rows of the terminal.
    pub rows: u16,
    /// The number of columns of the terminal.
    pub columns: u16,
    /// The streams, in the order of their lanes.
    pub streams: Vec<Stream>,
}

/// The number of lanes: one for each column for vertical travel, one for
/// each row for horizontal travel, and two for each column for diagonal
/// travel.
pub open spec fn lane_count(rows: u16, columns: u16, direction: Direction) -> int {
    match direction {
        Direction::Up | Direction::Down => columns as int,
        Direction::Left | Direction::Right => rows as int,
        _ => 2 * columns,
    }
}

/// The number of lanes of a terminal of `rows` rows and `columns` columns.
pub fn lanes(rows: u16, columns: u16, direction: Direction) -> (n: u32)
    ensures
        n == lane_count(rows, columns, direction),
{
    match direction {
        Direction::Up | Direction::Down => columns as u32,
        Direction::Right | Direction::Left => rows as u32,
        _ => columns as u32 * 2,
    }
}

/// Whether `offset` is a start before the screen: a whole number of cells,
/// from `START_DEPTH` cells before the first cell up to, not including, it.
pub open spec fn starts_before(offset: i64) -> bool {
    exists|n: int| -START_DEPTH <= n < 0 && offset == #[trigger] (n * CELL)
}

/// Whether `offset` is a start past the screen of `extent` cells: a whole
/// number of cells, from the first cell past the screen up to, not
/// including, `START_DEPTH` cells further.
pub open spec fn starts_past(offset: i64, extent: u16) -> bool {
    exists|n: int| extent <= n < extent + START_DEPTH && offset == #[trigger] (n * CELL)
}

/// Whether `(x, y)` may anchor the stream of lane `lane`. Across the
/// travel the anchor is that of the lane; for diagonal travel the lanes
/// are centred on the screen, half of them starting beside it. Along the
/// travel the anchor lies off the screen, on the side the stream comes
/// from.
pub open spec fn anchors_lane(
    rows: u16,
    columns: u16,
    direction: Direction,
    lane: int,
    x: i64,
    y: i64,
) -> bool {
    match direction {
        Direction::Down => x == lane * CELL && starts_before(y),
        Direction::Up => x == lane * CELL && starts_past(y, rows),
        Direction::Right => y == lane * CELL && starts_before(x),
        Direction::Left => y == lane * CELL && starts_past(x, columns),
        Direction::DiagonalLeft | Direction::DiagonalRight => x == lane * CELL - columns * CELL / 2
            && starts_before(y),
        Direction::DiagonalLeftReverse | Direction::DiagonalRightReverse => x == lane * CELL
            - columns * CELL / 2 && starts_past(y, rows),
    }
}

/// A random start before the screen.
fn start_before() -> (offset: i64)
    ensures
        starts_before(offset),
{
    let n = random_between::<i64>(-START_DEPTH, 0);
    n * CELL
}

/// A random start past a screen of `extent` cells.
fn start_past(extent: u16) -> (offset: i64)
    ensures
        starts_past(offset, extent),
{
    let n = random_between::<i64>(extent as i64, extent as i64 + START_DEPTH);
    n * CELL
}

/// A random anchor for the stream of lane `lane`.
pub fn lane_anchor(rows: u16, columns: u16, direction: Direction, lane: u32) -> (anchor: (
    i64,
    i64,
))
    ensures
        anchors_lane(rows, columns, direction, lane as int, anchor.0, anchor.1),
{
    let across: i64 = lane as i64 * CELL;
    let centred: i64 = across - columns as i64 * CELL / 2;
    match direction {
        Direction::Down => (across, start_before()),
        Direction::Up => (across, start_past(rows)),
        Direction::Right => (start_before(), across),
        Direction::Left => (start_past(columns), across),
        Direction::DiagonalLeft | Direction::DiagonalRight => (centred, start_before()),
        Direction::DiagonalLeftReverse | Direction::DiagonalRightReverse => (
            centred,
            start_past(rows),
        ),
    }
}

/// The commands of the first `n` of `parts`, one part after the other.
pub open spec fn joined(parts: Seq<Seq<DrawOp>>, n: int) -> Seq<DrawOp>
    decreases n,
{
    if n <= 0 {
        Seq::empty()
    } else {
        joined(parts, n - 1) + parts[n - 1]
    }
}

impl Matrix {
    /// Whether the streams are those of a field that was just built: the
    /// stream of rank `k` stands in lane `k * stream_spacing`, these are
    /// all the lanes below the lane count, and each stream was just
    /// generated at an anchor of its lane.
    pub open spec fn built(self, config: Config) -> bool {
        let lanes = lane_count(self.rows, self.columns, config.direction);
        let spacing = config.stream_spacing as int;
        let n = self.streams@.len() as int;
        &&& n * spacing >= lanes
        &&& n > 0 ==> (n - 1) * spacing < lanes
        &&& forall|k: int|
            0 <= k < n ==> {
                let s = #[trigger] self.streams@[k];
                &&& anchors_lane(self.rows, self.columns, config.direction, k * spacing, s.x, s.y)
                &&& generated(config, s.x, s.y, s.speed, s.count, s.entities@)
                &&& s.follows(config)
            }
    }

    /// Whether every stream is as it stays when rendered with `config`.
    pub open spec fn follows(self, config: Config) -> bool {
        forall|k: int|
            0 <= k < self.streams@.len() ==> (#[trigger] self.streams@[k]).follows(config)
    }

    /// Builds the field for a terminal of `rows` rows and `columns`
    /// columns: one stream in every lane whose number is a multiple of the
    /// configured spacing, anchored at random off the screen.
    pub fn new(rows: u16, columns: u16, config: &Config) -> (m: Matrix)
        requires
            config.stream_spacing > 0 || lane_count(rows, columns, config.direction) == 0,
        ensures
            m.rows == rows,
            m.columns == columns,
            m.built(*config),
            m.follows(*config),
    {
        let mut ret = Matrix { rows, columns, streams: Vec::new() };
        let count: u32 = lanes(rows, columns, config.direction);
        let spacing: u32 = config.stream_spacing as u32;
        let mut c: u32 = 0;
        while c < count
            invariant
                ret.rows == rows,
                ret.columns == columns,
                count == lane_count(rows, columns, config.direction),
                count <= 2 * 0xFFFF,
                spacing == config.stream_spacing,
                spacing > 0 || count == 0,
                c == ret.streams@.len() * spacing,
                ret.streams@.len() > 0 ==> (ret.streams@.len() - 1) * spacing < count,
                forall|k: int|
                    0 <= k < ret.streams@.len() ==> {
                        let s = #[trigger] ret.streams@[k];
                        &&& anchors_lane(rows, columns, config.direction, k * spacing, s.x, s.y)
                        &&& generated(*config, s.x, s.y, s.speed, s.count, s.entities@)
                        &&& s.follows(*config)
                    },
            decreases count + spacing - c,
        {
            let (x, y) = lane_anchor(rows, columns, config.direction, c);
            let stream = Stream::new(x, y, config);
            let ghost k = ret.streams@.len() as int;
            ret.streams.push(stream);
            assert((k + 1) * spacing == k * spacing + spacing) by (nonlinear_arith);
            c = c + spacing;
        }
        ret
    }

    /// Prepares the terminal before the first frame: where the streams
    /// leave a trail, the background is filled; else nothing is drawn.
    pub fn setup(&self, config: &Config) -> (commands: Vec<DrawCommand>)
        ensures
            config.leave_trail ==> self.background(*config, ops(commands@)),
            !config.leave_trail ==> commands@.len() == 0,
    {
        if config.leave_trail {
            self.populate_background(config)
        } else {
            Vec::new()
        }
    }

    /// Whether `drawn` fills the background: a move to the first cell, the
    /// faded stream color, then for each row a text of one symbol of the
    /// configured set for each column and a move to the next line, and a
    /// reset of the color at the end.
    pub open spec fn background(self, config: Config, drawn: Seq<DrawOp>) -> bool {
        &&& drawn.len() == 2 * self.rows + 3
        &&& drawn[0] == DrawOp::MoveTo(0, 0)
        &&& drawn[1] == DrawOp::Print(config.gradient_end().ansi_text())
        &&& forall|r: int|
            0 <= r < self.rows ==> {
                &&& #[trigger] drawn[2 * r + 2] matches DrawOp::Print(text)
                &&& text.len() == self.columns
                &&& forall|i: int| 0 <= i < text.len() ==> config.mode.offers(#[trigger] text[i])
            }
        &&& forall|r: int|
            0 <= r < self.rows ==> #[trigger] drawn[2 * r + 3] == DrawOp::MoveToNextLine(1)
        &&& drawn[2 * self.rows + 2] == DrawOp::Print("\x1b[0m"@)
    }

    /// Fills the whole screen with random symbols in the faded stream color.
    pub fn populate_background(&self, config: &Config) -> (commands: Vec<DrawCommand>)
        ensures
            self.background(*config, ops(commands@)),
    {
        let color = config.stream_color.multiply(config.stream_color_gradient_factor);
        let mut commands: Vec<DrawCommand> = Vec::new();
        commands.push(DrawCommand::MoveTo(0, 0));
        commands.push(DrawCommand::Print(color.ansi()));
        let mut row: u16 = 0;
        while row < self.rows
            invariant
                row <= self.rows,
                color == config.gradient_end(),
                commands@.len() == 2 * row + 2,
                commands@[0]@ == DrawOp::MoveTo(0, 0),
                commands@[1]@ == DrawOp::Print(color.ansi_text()),
                forall|r: int|
                    0 <= r < row ==> {
                        &&& (#[trigger] commands@[2 * r + 2])@ matches DrawOp::Print(text)
                        &&& text.len() == self.columns
                        &&& forall|i: int|
                            0 <= i < text.len() ==> config.mode.offers(#[trigger] text[i])
                    },
                forall|r: int|
                    0 <= r < row ==> (#[trigger] commands@[2 * r + 3])@ == DrawOp::MoveToNextLine(1),
            decreases self.rows - row,
        {
            let mut line = String::new();
            let mut column: u16 = 0;
            while column < self.columns
                invariant
                    column <= self.columns,
                    line@.len() == column,
                    forall|i: int|
                        0 <= i < line@.len() ==> config.mode.offers(#[trigger] line@[i]),
                decreases self.columns - column,
            {
                line.push(config.mode.get_random());
                column += 1;
            }
            commands.push(DrawCommand::Print(line));
            commands.push(DrawCommand::MoveToNextLine(1));
            row += 1;
        }
        commands.push(DrawCommand::Print(String::from_str("\x1b[0m")));
        commands
    }

    /// Whether `after` and `drawn` are this field and its commands after
    /// one frame: every stream was rendered in turn, and `drawn` holds the
    /// commands of the streams one after the other.
    pub open spec fn rendered(self, after: Matrix, config: Config, drawn: Seq<DrawOp>) -> bool {
        &&& after.rows == self.rows
        &&& after.columns == self.columns
        &&& after.streams@.len() == self.streams@.len()
        &&& exists|parts: Seq<Seq<DrawOp>>|
            {
                &&& parts.len() == self.streams@.len()
                &&& forall|k: int|
                    0 <= k < parts.len() ==> (#[trigger] self.streams@[k]).rendered(
                        after.streams@[k],
                        self.rows as i32,
                        self.columns as i32,
                        config,
                        parts[k],
                    )
                &&& drawn == #[trigger] joined(parts, parts.len() as int)
            }
    }

    /// Renders one frame: every stream in turn. The commands are to be
    /// carried out in order and flushed once.
    pub fn render(&mut self, config: &Config) -> (commands: Vec<DrawCommand>)
        ensures
            old(self).rendered(*final(self), *config, ops(commands@)),
            old(self).follows(*config) ==> final(self).follows(*config),
    {
        let mut commands: Vec<DrawCommand> = Vec::new();
        let ghost mut parts: Seq<Seq<DrawOp>> = Seq::empty();
        let n = self.streams.len();
        let rows = self.rows as i32;
        let columns = self.columns as i32;
        let mut i: usize = 0;
        while i < n
            invariant
                i <= n,
                n == old(self).streams@.len(),
                self.streams@.len() == n,
                self.rows == old(self).rows,
                self.columns == old(self).columns,
                rows == self.rows,
                columns == self.columns,
                parts.len() == i,
                forall|k: int|
                    0 <= k < i ==> (#[trigger] old(self).streams@[k]).rendered(
                        self.streams@[k],
                        rows,
                        columns,
                        *config,
                        parts[k],
                    ),
                forall|k: int|
                    0 <= k < i ==> ((#[trigger] old(self).streams@[k]).follows(*config)
                        ==> self.streams@[k].follows(*config)),
                forall|k: int| i <= k < n ==> self.streams@[k] == #[trigger] old(self).streams@[k],
                ops(commands@) == joined(parts, i as int),
            decreases n - i,
        {
            let stream = &mut self.streams[i];
            let drawn = stream.render(rows, columns, config);
            proof {
                let ghost longer = parts.push(ops(drawn@));
                lemma_joined_prefix(parts, longer, i as int);
                parts = longer;
            }
            append_commands(&mut commands, drawn);
            i += 1;
        }
        proof {
            if old(self).follows(*config) {
                assert forall|k: int| 0 <= k < self.streams@.len() implies (
                #[trigger] self.streams@[k]).follows(*config) by {
                    assert(old(self).streams@[k].follows(*config));
                }
            }
        }
        commands
    }
}

/// Joining the first `n` parts does not depend on the parts that follow.
proof fn lemma_joined_prefix(a: Seq<Seq<DrawOp>>, b: Seq<Seq<DrawOp>>, n: int)
    requires
        n <= a.len(),
        n <= b.len(),
        forall|k: int| 0 <= k < n ==> a[k] == b[k],
    ensures
        joined(a, n) == joined(b, n),
    decreases n,
{
    if n > 0 {
        lemma_joined_prefix(a, b, n - 1);
    }
}

} // verus!
