//! A stream: a leading entity and the entities that trail behind it.
use crate::colors::blended;
use crate::colors::Fraction;
use crate::colors::LinearGradient;
use crate::colors::RGBColor;
use crate::config::Config;
use crate::direction::along;
use crate::direction::directed;
use crate::draw::append_commands;
use crate::draw::ops;
use crate::draw::DrawCommand;
use crate::draw::DrawOp;
use crate::entity::add_clamped;
use crate::entity::cell_at;
use crate::entity::cell_of;
use crate::entity::clamped;
use crate::entity::Entity;
use crate::entity::CELL;
use crate::random::random_between;
use vstd::prelude::*;
use vstd::string::StringExecFns;

verus! {

/// The least speed of a stream, in position units per frame: an eighth of
/// a cell.
pub const MIN_SPEED: i64 = 128;

/// The speed that every stream stays below: one cell per frame.
pub const MAX_SPEED: i64 = 1024;

/// A single stream of the rain.
#[derive(Debug)]
pub struct Stream {
    /// The entities of the stream, the leader first.
    pub entities: Vec<Entity>,
    /// The position along the columns at which the leader starts.
    pub x: i64,
    /// The position along the rows at which the leader starts.
    pub y: i64,
    /// The speed of the current run, in position units per frame.
    pub speed: i64,
    /// The number of entities drawn for the current run.
    pub count: u16,
}

/// Whether `count` may be drawn for a stream: from the least count up to,
/// not including, the greatest; or the least count itself where the two
/// leave no room for a draw.
pub open spec fn valid_count(config: Config, count: u16) -> bool {
    if config.stream_min_count < config.stream_max_count {
        config.stream_min_count <= count < config.stream_max_count
    } else {
        count == config.stream_min_count
    }
}

/// The color of the entity of rank `rank` in a stream of `count` entities:
/// the leading color for the leader, and for the others the color of the
/// stream's gradient at `rank / count`.
pub open spec fn rank_color(config: Config, rank: int, count: int) -> RGBColor {
    if rank == 0 {
        config.leading_entity_color
    } else {
        blended(config.stream_color, config.gradient_end(), rank, count)
    }
}

/// What stays true of the entity of rank `rank` for as long as its stream
/// runs: its speed, its color, its set of symbols and its switch interval.
pub open spec fn entity_follows(
    config: Config,
    speed: i64,
    count: u16,
    rank: int,
    e: Entity,
) -> bool {
    &&& e.speed_x == along(config.direction.dx(), speed as int)
    &&& e.speed_y == along(config.direction.dy(), speed as int)
    &&& e.color == rank_color(config, rank, count as int)
    &&& e.mode == config.mode
    &&& Entity::valid_interval(config.switch_bound(), e.switch_interval)
}

/// Whether `e` is the entity of rank `rank` of a stream that was just
/// generated at the anchor `(x, y)`: it lies `rank` cells behind the
/// anchor, against the direction of travel; the leader is blank and any
/// other entity shows a symbol of the configured set; no frame is counted.
pub open spec fn entity_generated(
    config: Config,
    x: i64,
    y: i64,
    speed: i64,
    count: u16,
    rank: int,
    e: Entity,
) -> bool {
    &&& entity_follows(config, speed, count, rank, e)
    &&& e.x == clamped(x - along(config.direction.dx(), rank * CELL))
    &&& e.y == clamped(y - along(config.direction.dy(), rank * CELL))
    &&& e.frame_count == 0
    &&& rank == 0 ==> e.symbol == ' '
    &&& rank > 0 ==> config.mode.offers(e.symbol)
}

/// Whether the speed, the count and the entities are those of a stream
/// that was just generated at the anchor `(x, y)`.
pub open spec fn generated(
    config: Config,
    x: i64,
    y: i64,
    speed: i64,
    count: u16,
    entities: Seq<Entity>,
) -> bool {
    &&& MIN_SPEED <= speed < MAX_SPEED
    &&& valid_count(config, count)
    &&& entities.len() == (if count == 0 {
        1
    } else {
        count as int
    })
    &&& forall|i: int|
        0 <= i < entities.len() ==> entity_generated(
            config,
            x,
            y,
            speed,
            count,
            i,
            #[trigger] entities[i],
        )
}

/// The commands of one frame for the first `n` entities: each entity is
/// moved and then drawn, the leader first.
pub open spec fn frame_ops(entities: Seq<Entity>, n: int, rows: i32, columns: i32) -> Seq<DrawOp>
    decreases n,
{
    if n <= 0 {
        Seq::empty()
    } else {
        frame_ops(entities, n - 1, rows, columns) + entities[n - 1].moved().draw_ops(rows, columns)
    }
}

/// Whether `after` holds the entities of `before` after one frame: each
/// was moved and then drawn.
pub open spec fn advanced(
    before: Seq<Entity>,
    after: Seq<Entity>,
    rows: i32,
    columns: i32,
) -> bool {
    &&& after.len() == before.len()
    &&& forall|i: int|
        0 <= i < before.len() ==> (#[trigger] before[i]).moved().drawn_to(after[i], rows, columns)
}

impl Stream {
    /// What stays true of a stream from one frame to the next, as long as
    /// it is rendered with the configuration it was generated with: the
    /// count lies in the configured range, there is one entity for each
    /// count (and a leader in any case), and each entity keeps its speed,
    /// its color, its set of symbols and its switch interval.
    pub open spec fn follows(self, config: Config) -> bool {
        &&& MIN_SPEED <= self.speed < MAX_SPEED
        &&& valid_count(config, self.count)
        &&& self.entities@.len() == (if self.count == 0 {
            1
        } else {
            self.count as int
        })
        &&& forall|i: int|
            0 <= i < self.entities@.len() ==> entity_follows(
                config,
                self.speed,
                self.count,
                i,
                #[trigger] self.entities@[i],
            )
    }

    /// The commands that wipe the cell of the trailing entity, where the
    /// stream has one and leaves no trail.
    pub open spec fn erasure(self, config: Config) -> Seq<DrawOp> {
        if self.entities@.len() > 0 && !config.leave_trail {
            seq![
                DrawOp::MoveTo(cell_at(self.entities@.last().x), cell_at(self.entities@.last().y)),
                DrawOp::Print(" "@),
            ]
        } else {
            Seq::empty()
        }
    }

    /// Whether the stream starts a new run at the next frame: its trailing
    /// entity has left the screen in the direction of travel.
    pub open spec fn exhausted(self, rows: i32, columns: i32, config: Config) -> bool {
        self.entities@.len() > 0 && self.entities@.last().left_screen(
            rows,
            columns,
            config.direction,
        )
    }

    /// Whether `after` and `drawn` are this stream and its commands after
    /// one frame. The anchor stays. The entities that the frame starts from
    /// are those of the stream, or those of a new run where the stream was
    /// exhausted; `after` holds them moved and drawn, and `drawn` holds
    /// the erasure followed by their commands.
    pub open spec fn rendered(
        self,
        after: Stream,
        rows: i32,
        columns: i32,
        config: Config,
        drawn: Seq<DrawOp>,
    ) -> bool {
        &&& after.x == self.x
        &&& after.y == self.y
        &&& exists|before: Seq<Entity>|
            {
                &&& if self.exhausted(rows, columns, config) {
                    generated(config, self.x, self.y, after.speed, after.count, before)
                } else {
                    &&& before == self.entities@
                    &&& after.speed == self.speed
                    &&& after.count == self.count
                }
                &&& #[trigger] advanced(before, after.entities@, rows, columns)
                &&& drawn == self.erasure(config) + frame_ops(
                    before,
                    before.len() as int,
                    rows,
                    columns,
                )
            }
    }

    /// A stream anchored at `(x, y)`, with the entities of its first run.
    pub fn new(x: i64, y: i64, config: &Config) -> (s: Stream)
        ensures
            s.x == x,
            s.y == y,
            generated(*config, x, y, s.speed, s.count, s.entities@),
            s.follows(*config),
    {
        let mut stream = Stream { entities: Vec::new(), x, y, speed: CELL, count: 10 };
        stream.generate_entities(config);
        stream
    }

    /// Starts a new run: draws a speed and a count, and replaces the
    /// entities by a blank leader at the anchor and, behind it, one entity
    /// for each further count, each a cell further back, with a color of
    /// the gradient and a first symbol.
    pub fn generate_entities(&mut self, config: &Config)
        ensures
            final(self).x == old(self).x,
            final(self).y == old(self).y,
            generated(
                *config,
                final(self).x,
                final(self).y,
                final(self).speed,
                final(self).count,
                final(self).entities@,
            ),
            final(self).follows(*config),
    {
        self.entities.clear();
        self.speed = random_between::<i64>(MIN_SPEED, MAX_SPEED);
        self.count = if config.stream_min_count < config.stream_max_count {
            random_between::<u16>(config.stream_min_count, config.stream_max_count)
        } else {
            config.stream_min_count
        };
        let (dx, dy) = config.direction.step();
        let speed_x = directed(dx, self.speed);
        let speed_y = directed(dy, self.speed);
        self.entities.push(
            Entity::new(self.x, self.y, speed_x, speed_y, config.leading_entity_color, config),
        );
        let gradient = LinearGradient::new(
            config.stream_color,
            config.stream_color.multiply(config.stream_color_gradient_factor),
        );
        let mut i: u16 = 1;
        while i < self.count
            invariant
                1 <= i,
                i <= self.count || i == 1,
                self.x == old(self).x,
                self.y == old(self).y,
                MIN_SPEED <= self.speed < MAX_SPEED,
                valid_count(*config, self.count),
                dx == config.direction.dx(),
                dy == config.direction.dy(),
                speed_x == along(dx as int, self.speed as int),
                speed_y == along(dy as int, self.speed as int),
                gradient.start() == config.stream_color,
                gradient.end() == config.gradient_end(),
                self.entities@.len() == i,
                forall|j: int|
                    0 <= j < i ==> entity_generated(
                        *config,
                        self.x,
                        self.y,
                        self.speed,
                        self.count,
                        j,
                        #[trigger] self.entities@[j],
                    ),
            decreases self.count - i,
        {
            let color = gradient.interpolate(Fraction::of_count(i, self.count));
            let back: i64 = i as i64 * CELL;
            let x = add_clamped(self.x, -directed(dx, back));
            let y = add_clamped(self.y, -directed(dy, back));
            let mut e = Entity::new(x, y, speed_x, speed_y, color, config);
            e.set_symbol();
            self.entities.push(e);
            i += 1;
        }
    }

    /// Renders one frame of the stream. First the cell of the trailing
    /// entity is wiped, unless the stream leaves a trail. Then, where the
    /// trailing entity has left the screen in the direction of travel, the
    /// stream starts a new run at its anchor. Last, every entity is moved
    /// and drawn, the leader first. The exit is judged before the move.
    pub fn render(&mut self, rows: i32, columns: i32, config: &Config) -> (commands: Vec<
        DrawCommand,
    >)
        ensures
            old(self).rendered(*final(self), rows, columns, *config, ops(commands@)),
            old(self).follows(*config) ==> final(self).follows(*config),
    {
        let mut commands: Vec<DrawCommand> = Vec::new();
        let n0 = self.entities.len();
        let mut regenerate = false;
        if n0 > 0 {
            let last = &self.entities[n0 - 1];
            if !config.leave_trail {
                commands.push(DrawCommand::MoveTo(cell_of(last.x), cell_of(last.y)));
                commands.push(DrawCommand::Print(String::from_str(" ")));
            }
            regenerate = last.has_left(rows, columns, config.direction);
        }
        assert(ops(commands@) =~= old(self).erasure(*config));
        if regenerate {
            self.generate_entities(config);
        }
        let ghost before = self.entities@;
        let ghost erased = ops(commands@);
        let ghost speed = self.speed;
        let ghost count = self.count;
        let n = self.entities.len();
        let mut i: usize = 0;
        while i < n
            invariant
                i <= n,
                n == before.len(),
                self.entities@.len() == n,
                self.x == old(self).x,
                self.y == old(self).y,
                self.speed == speed,
                self.count == count,
                forall|j: int|
                    0 <= j < i ==> (#[trigger] before[j]).moved().drawn_to(
                        self.entities@[j],
                        rows,
                        columns,
                    ),
                forall|j: int| i <= j < n ==> self.entities@[j] == #[trigger] before[j],
                ops(commands@) == erased + frame_ops(before, i as int, rows, columns),
            decreases n - i,
        {
            let entity = &mut self.entities[i];
            entity.rain();
            let drawn = entity.render(rows, columns);
            append_commands(&mut commands, drawn);
            i += 1;
        }
        assert(advanced(before, self.entities@, rows, columns));
        proof {
            if old(self).follows(*config) {
                assert forall|j: int| 0 <= j < self.entities@.len() implies entity_follows(
                    *config,
                    self.speed,
                    self.count,
                    j,
                    #[trigger] self.entities@[j],
                ) by {
                    assert(entity_follows(*config, self.speed, self.count, j, before[j]));
                }
            }
        }
        commands
    }
}

/// A stream that was just generated has its leader at the anchor, in the
/// leading color and with a blank symbol; and where the least count lies
/// below the greatest, its count lies from the least up to, not
/// including, the greatest, with one entity for each count.
pub proof fn lemma_generated_resets(
    config: Config,
    x: i64,
    y: i64,
    speed: i64,
    count: u16,
    entities: Seq<Entity>,
)
    requires
        generated(config, x, y, speed, count, entities),
    ensures
        entities.len() >= 1,
        entities[0].x == x,
        entities[0].y == y,
        entities[0].color == config.leading_entity_color,
        entities[0].symbol == ' ',
        entities[0].frame_count == 0,
        config.stream_min_count < config.stream_max_count ==> config.stream_min_count <= count
            < config.stream_max_count,
        config.stream_min_count >= config.stream_max_count ==> count == config.stream_min_count,
        count > 0 ==> entities.len() == count,
{
}

/// After a frame at which a stream was exhausted, the stream is a newly
/// generated one that has moved once: its count lies in the configured
/// range, and its leader lies one move from the anchor.
pub proof fn lemma_exhausted_stream_restarts(
    before: Stream,
    after: Stream,
    rows: i32,
    columns: i32,
    config: Config,
    drawn: Seq<DrawOp>,
)
    requires
        before.exhausted(rows, columns, config),
        before.rendered(after, rows, columns, config, drawn),
    ensures
        valid_count(config, after.count),
        after.entities@.len() >= 1,
        after.entities@[0].x == clamped(
            before.x + along(config.direction.dx(), after.speed as int),
        ),
        after.entities@[0].y == clamped(
            before.y + along(config.direction.dy(), after.speed as int),
        ),
        after.entities@[0].color == config.leading_entity_color,
{
    let fresh = choose|fresh: Seq<Entity>|
        {
            &&& generated(config, before.x, before.y, after.speed, after.count, fresh)
            &&& #[trigger] advanced(fresh, after.entities@, rows, columns)
        };
    lemma_generated_resets(config, before.x, before.y, after.speed, after.count, fresh);
}

/// A stream that follows its configuration keeps its shape, however many
/// frames it has run: its count lies in the configured range, it has one
/// entity for each count and a leader in any case, the leader has the
/// leading color, and every other entity has the color of the gradient at
/// its rank over the count.
pub proof fn lemma_following_stream_keeps_shape(stream: Stream, config: Config)
    requires
        stream.follows(config),
    ensures
        valid_count(config, stream.count),
        stream.entities@.len() >= 1,
        stream.count > 0 ==> stream.entities@.len() == stream.count,
        stream.entities@[0].color == config.leading_entity_color,
        forall|i: int|
            0 < i < stream.entities@.len() ==> (#[trigger] stream.entities@[i]).color == blended(
                config.stream_color,
                config.gradient_end(),
                i,
                stream.count as int,
            ),
{
    assert(entity_follows(config, stream.speed, stream.count, 0, stream.entities@[0]));
    assert forall|i: int| 0 < i < stream.entities@.len() implies (
    #[trigger] stream.entities@[i]).color == blended(
        config.stream_color,
        config.gradient_end(),
        i,
        stream.count as int,
    ) by {
        assert(entity_follows(config, stream.speed, stream.count, i, stream.entities@[i]));
    }
}

} // verus!
