use matrix_rain::colors::Fraction;
use matrix_rain::colors::LinearGradient;
use matrix_rain::colors::RGBColor;
use matrix_rain::config::Config;
use matrix_rain::direction::Direction;
use matrix_rain::draw::DrawCommand;
use matrix_rain::entity::CELL;
use matrix_rain::matrix::lane_anchor;
use matrix_rain::matrix::lanes;
use matrix_rain::matrix::Matrix;
use matrix_rain::symbols::Symbols;

fn config(direction: Direction, spacing: u16) -> Config {
    Config {
        mode: Symbols::Original,
        stream_color: RGBColor(0, 255, 70),
        stream_color_gradient_factor: Fraction::new(33, 100).unwrap(),
        leading_entity_color: RGBColor(200, 255, 200),
        leave_trail: false,
        fps: 60,
        stream_min_count: 5,
        stream_max_count: 5,
        stream_spacing: spacing,
        switch_interval: 1,
        direction,
    }
}

#[test]
fn thirty_frames_of_rain() {
    let config = config(Direction::Down, 1);
    let mut matrix = Matrix::new(24, 80, &config);
    assert_eq!(matrix.streams.len(), 80);
    assert!(matrix.setup(&config).is_empty());
    let gradient = LinearGradient::new(RGBColor(0, 255, 70), RGBColor(0, 84, 23));
    let mut restarts = 0;
    for _ in 0..30 {
        let tails: Vec<i64> = matrix
            .streams
            .iter()
            .map(|s| s.entities[4].y)
            .collect();
        let commands = matrix.render(&config);
        assert!(!commands.is_empty());
        for (stream, tail) in matrix.streams.iter().zip(tails) {
            if tail >= 24 * CELL {
                restarts += 1;
                assert_eq!(stream.entities[0].y, stream.y + stream.speed);
            }
            assert_eq!(stream.count, 5);
            assert_eq!(stream.entities.len(), 5);
            assert_eq!(stream.entities[0].color, RGBColor(200, 255, 200));
            let factor = Fraction::of_count(4, 5);
            assert_eq!(stream.entities[4].color, gradient.interpolate(factor));
            assert_eq!(stream.entities[4].color, RGBColor(0, 118, 32));
        }
    }
    assert_eq!(restarts, 0);
    for _ in 0..600 {
        let tails: Vec<i64> = matrix
            .streams
            .iter()
            .map(|s| s.entities[4].y)
            .collect();
        matrix.render(&config);
        for (stream, tail) in matrix.streams.iter().zip(tails) {
            if tail >= 24 * CELL {
                restarts += 1;
                assert_eq!(stream.entities[0].y, stream.y + stream.speed);
                assert_eq!(stream.entities[0].x, stream.x);
            }
            assert_eq!(stream.entities.len(), 5);
            assert_eq!(stream.entities[0].color, RGBColor(200, 255, 200));
            assert_eq!(stream.entities[4].color, RGBColor(0, 118, 32));
        }
    }
    assert!(restarts >= 80);
}

#[test]
fn every_lane_of_the_spacing_gets_a_stream() {
    let cases = [
        (Direction::Down, 1, 80),
        (Direction::Down, 2, 40),
        (Direction::Up, 3, 27),
        (Direction::Down, 80, 1),
        (Direction::Up, 81, 1),
        (Direction::Up, u16::MAX, 1),
        (Direction::Left, 1, 24),
        (Direction::Right, 5, 5),
        (Direction::DiagonalLeft, 1, 160),
        (Direction::DiagonalRight, 2, 80),
        (Direction::DiagonalLeftReverse, 7, 23),
        (Direction::DiagonalRightReverse, 160, 1),
    ];
    for (direction, spacing, streams) in cases {
        let config = config(direction, spacing);
        let matrix = Matrix::new(24, 80, &config);
        assert_eq!((matrix.rows, matrix.columns), (24, 80));
        assert_eq!(matrix.streams.len(), streams);
    }
    let config = config(Direction::Down, 1);
    assert!(Matrix::new(24, 0, &config).streams.is_empty());
    let config = self::config(Direction::Left, 1);
    assert!(Matrix::new(0, 80, &config).streams.is_empty());
    let config = self::config(Direction::DiagonalLeft, 3);
    assert_eq!(Matrix::new(24, u16::MAX, &config).streams.len(), 43690);
}

#[test]
fn streams_start_off_the_screen_in_their_lanes() {
    let rows: i64 = 24;
    let columns: i64 = 81;
    let before = |v: i64| v % CELL == 0 && -50 * CELL <= v && v < 0;
    let past = |v: i64, extent: i64| v % CELL == 0 && extent * CELL <= v && v < (extent + 50) * CELL;
    for spacing in [1u16, 3] {
        let stride = i64::from(spacing);
        for direction in [Direction::Down, Direction::Up, Direction::Left, Direction::Right] {
            let config = config(direction, spacing);
            let matrix = Matrix::new(24, 81, &config);
            for (k, s) in matrix.streams.iter().enumerate() {
                let lane = k as i64 * stride * CELL;
                match direction {
                    Direction::Down => assert!(s.x == lane && before(s.y)),
                    Direction::Up => assert!(s.x == lane && past(s.y, rows)),
                    Direction::Right => assert!(s.y == lane && before(s.x)),
                    _ => assert!(s.y == lane && past(s.x, columns)),
                }
                assert_eq!((s.entities[0].x, s.entities[0].y), (s.x, s.y));
            }
        }
        for direction in [
            Direction::DiagonalLeft,
            Direction::DiagonalRight,
            Direction::DiagonalLeftReverse,
            Direction::DiagonalRightReverse,
        ] {
            let config = config(direction, spacing);
            let matrix = Matrix::new(24, 81, &config);
            for (k, s) in matrix.streams.iter().enumerate() {
                let lane = k as i64 * stride * CELL - 81 * CELL / 2;
                assert_eq!(s.x, lane);
                match direction {
                    Direction::DiagonalLeft | Direction::DiagonalRight => assert!(before(s.y)),
                    _ => assert!(past(s.y, rows)),
                }
            }
        }
    }
    let (x, y) = lane_anchor(24, 80, Direction::DiagonalLeft, 159);
    assert_eq!(x, 119 * CELL);
    assert!(before(y));
}

#[test]
fn the_starts_are_staggered() {
    let config = config(Direction::Down, 1);
    let matrix = Matrix::new(24, 80, &config);
    let first = matrix.streams[0].y;
    assert!(matrix.streams.iter().any(|s| s.y != first));
}

#[test]
fn the_background_is_filled_where_a_trail_is_left() {
    let mut config = config(Direction::Down, 2);
    config.leave_trail = true;
    let matrix = Matrix::new(3, 4, &config);
    let commands = matrix.setup(&config);
    assert_eq!(commands.len(), 2 * 3 + 3);
    assert_eq!(commands[0], DrawCommand::MoveTo(0, 0));
    assert_eq!(
        commands[1],
        DrawCommand::Print("\x1b[38;2;0;84;23m".to_string())
    );
    for row in 0..3 {
        match &commands[2 + 2 * row] {
            DrawCommand::Print(text) => {
                assert_eq!(text.chars().count(), 4);
                assert!(text
                    .chars()
                    .all(|c| (0x30a0..0x30a0 + 96).contains(&u32::from(c))));
            }
            other => panic!("{other:?} is no text"),
        }
        assert_eq!(commands[3 + 2 * row], DrawCommand::MoveToNextLine(1));
    }
    assert_eq!(commands[8], DrawCommand::Print("\x1b[0m".to_string()));
    assert_eq!(matrix.populate_background(&config).len(), 9);
    let empty = Matrix::new(0, 0, &config);
    assert_eq!(
        empty.populate_background(&config),
        vec![
            DrawCommand::MoveTo(0, 0),
            DrawCommand::Print("\x1b[38;2;0;84;23m".to_string()),
            DrawCommand::Print("\x1b[0m".to_string()),
        ]
    );
}

#[test]
fn a_frame_holds_the_commands_of_every_stream_in_turn() {
    let mut config = config(Direction::Down, 1);
    config.leave_trail = true;
    let mut matrix = Matrix::new(24, 6, &config);
    for stream in matrix.streams.iter_mut() {
        for (i, e) in stream.entities.iter_mut().enumerate() {
            e.y = (10 - i as i64) * CELL;
        }
    }
    let commands = matrix.render(&config);
    assert_eq!(commands.len(), 6 * 5 * 2);
    for (k, chunk) in commands.chunks(10).enumerate() {
        for (i, pair) in chunk.chunks(2).enumerate() {
            assert_eq!(pair[0], DrawCommand::MoveTo(k as u16, 10 - i as u16));
            assert!(matches!(pair[1], DrawCommand::Print(_)));
        }
    }
    config.leave_trail = false;
    let commands = matrix.render(&config);
    assert_eq!(commands.len(), 6 * (2 + 5 * 2));
    assert_eq!(commands[1], DrawCommand::Print(" ".to_string()));
    assert_eq!(commands[13], DrawCommand::Print(" ".to_string()));
}

#[test]
fn lanes_follow_the_direction() {
    assert_eq!(lanes(24, 80, Direction::Down), 80);
    assert_eq!(lanes(24, 80, Direction::Up), 80);
    assert_eq!(lanes(24, 80, Direction::Left), 24);
    assert_eq!(lanes(24, 80, Direction::Right), 24);
    assert_eq!(lanes(24, 80, Direction::DiagonalLeft), 160);
    assert_eq!(lanes(24, 80, Direction::DiagonalRightReverse), 160);
    assert_eq!(lanes(u16::MAX, u16::MAX, Direction::DiagonalRight), 131070);
}

#[test]
fn a_field_without_lanes_needs_no_spacing() {
    let config = config(Direction::Down, 0);
    let matrix = Matrix::new(24, 0, &config);
    assert!(matrix.streams.is_empty());
}
