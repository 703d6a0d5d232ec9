use rumatrix::colors::Color;
use rumatrix::colors::Colors;
use rumatrix::config::Config;
use rumatrix::faller_adder::retire;
use rumatrix::faller_adder::FallerAdder;
use rumatrix::faller_adder::Probability;
use rumatrix::falling_char::FallingChar;
use rumatrix::position::Position;
use rumatrix::random::RandomSource;
use rumatrix::random::Stepping;
use rumatrix::random_vec_bag::RandomVecBag;

fn config(no_fallers: usize) -> Config {
    let mut config = Config::new_with_defaults(Position::new(80, 24));
    config.no_fallers = no_fallers;
    config
}

fn adder(target: usize, numerator: u32, denominator: u32, columns: Vec<u16>) -> FallerAdder {
    FallerAdder {
        rng: RandomSource::thread(),
        falling_chars: Vec::new(),
        probability_to_add: Probability::new(numerator, denominator),
        positions: RandomVecBag::new(columns),
        config: config(target),
    }
}

fn stream_at(column: u16, row: u16) -> FallingChar {
    let colors = Colors {
        trail: Color::Palette(2),
        head: Color::Palette(10),
        left_behind: Color::Palette(2),
    };
    FallingChar::with_glyphs(
        Position::new(column, row),
        Position::new(80, 24),
        &colors,
        vec!['a', 'b'],
        None,
    )
}

#[test]
fn one_call_admits_one_stream_at_the_top_of_column_five() {
    let mut adder = adder(1, 1, 1, vec![5]);
    assert!(adder.add_and_retire().is_ok());
    assert_eq!(adder.falling_chars.len(), 1);
    assert_eq!(adder.falling_chars[0].position(), Position::new(5, 1));
    assert!(adder.falling_chars[0].previous_positions().is_empty());
    assert_eq!(adder.falling_chars[0].max_position(), Position::new(80, 24));

    let size = adder.falling_chars[0].size();
    assert!(8 <= size && size <= 24);
    for _ in 0..size {
        adder.falling_chars[0].advance();
        assert!(adder.falling_chars[0].previous_positions().len() <= size as usize);
    }
    assert_eq!(adder.falling_chars[0].previous_positions().len(), size as usize);
    while adder.falling_chars[0].position().y <= 24 + size {
        assert!(adder.falling_chars[0].should_be_retained());
        assert!(adder.add_and_retire().is_ok());
        assert_eq!(adder.falling_chars.len(), 1);
        adder.falling_chars[0].advance();
        assert!(adder.falling_chars[0].previous_positions().len() <= size as usize);
    }
    assert!(!adder.falling_chars[0].should_be_retained());
    assert!(adder.add_and_retire().is_ok());
    assert_eq!(adder.falling_chars.len(), 1);
    assert_eq!(adder.falling_chars[0].position(), Position::new(5, 1));
}

#[test]
fn probability_out_of_bounds_is_an_error_and_changes_nothing() {
    for (numerator, denominator) in [(3u32, 2u32), (1, 0), (0, 0), (4294967295, 4294967294)] {
        let mut adder = adder(5, numerator, denominator, vec![5, 6]);
        adder.falling_chars.push(stream_at(3, 30));
        adder.falling_chars.push(stream_at(4, 2));
        assert!(adder.add_and_retire().is_err());
        assert_eq!(adder.falling_chars.len(), 2);
        assert_eq!(adder.falling_chars[0].position(), Position::new(3, 30));
        assert_eq!(adder.falling_chars[1].position(), Position::new(4, 2));
        assert_eq!(adder.positions.pointer(), 0);
    }
}

#[test]
fn probability_out_of_bounds_is_an_error_even_with_an_empty_bag() {
    let mut adder = adder(5, 2, 1, Vec::new());
    assert!(adder.add_and_retire().is_err());
    assert!(adder.falling_chars.is_empty());
}

#[test]
fn probability_bounds() {
    assert!(Probability::new(0, 1).is_in_bounds());
    assert!(Probability::new(1, 1).is_in_bounds());
    assert!(Probability::new(22, 100).is_in_bounds());
    assert!(!Probability::new(2, 1).is_in_bounds());
    assert!(!Probability::new(0, 0).is_in_bounds());
    assert_eq!(Probability::new(1, 2), Probability { numerator: 1, denominator: 2 });
}

#[test]
fn certain_admission_fills_every_free_place() {
    let mut adder = adder(12, 7, 7, (1u16..=80).collect());
    assert!(adder.add_and_retire().is_ok());
    assert_eq!(adder.falling_chars.len(), 12);
    let mut columns: Vec<u16> = adder.falling_chars.iter().map(|f| f.position().x).collect();
    assert!(adder.falling_chars.iter().all(|f| f.position().y == 1));
    columns.sort();
    columns.dedup();
    assert_eq!(columns.len(), 12);
    assert!(columns.iter().all(|c| (1..=80).contains(c)));
    assert!(adder.add_and_retire().is_ok());
    assert_eq!(adder.falling_chars.len(), 12);
}

#[test]
fn impossible_admission_admits_nothing() {
    let mut adder = adder(12, 0, 7, vec![1, 2, 3]);
    adder.falling_chars.push(stream_at(4, 2));
    assert!(adder.add_and_retire().is_ok());
    assert_eq!(adder.falling_chars.len(), 1);
    assert_eq!(adder.positions.pointer(), 0);
}

#[test]
fn admission_never_exceeds_the_target() {
    let mut adder = adder(10, 1, 2, (1u16..=80).collect());
    for _ in 0..80 {
        let before = adder.falling_chars.len();
        assert!(adder.add_and_retire().is_ok());
        assert!(adder.falling_chars.len() >= before);
        assert!(adder.falling_chars.len() <= 10);
    }
    assert_eq!(adder.falling_chars.len(), 10);
}

#[test]
fn admission_with_a_stepping_generator() {
    let mut adder = adder(3, 1, 1, vec![9, 9, 9]);
    adder.rng = RandomSource::Step(Stepping::new(12, 7).unwrap());
    assert!(adder.add_and_retire().is_ok());
    assert_eq!(adder.falling_chars.len(), 3);
    assert!(adder.falling_chars.iter().all(|f| f.position() == Position::new(9, 1)));
}

#[test]
fn retirement_keeps_the_order_of_those_that_stay() {
    let mut adder = adder(0, 1, 2, vec![1]);
    for (column, row) in [(1u16, 2u16), (2, 40), (3, 5), (81, 1), (4, 24), (5, 25), (6, 1)] {
        adder.falling_chars.push(stream_at(column, row));
    }
    assert!(adder.add_and_retire().is_ok());
    let columns: Vec<u16> = adder.falling_chars.iter().map(|f| f.position().x).collect();
    assert_eq!(columns, vec![1, 3, 4, 6]);
}

#[test]
fn retire_removes_what_has_left_the_screen() {
    let mut streams = vec![stream_at(1, 30), stream_at(2, 3), stream_at(3, 30)];
    retire(&mut streams);
    assert_eq!(streams.len(), 1);
    assert_eq!(streams[0].position(), Position::new(2, 3));
    retire(&mut streams);
    assert_eq!(streams.len(), 1);
    let mut none: Vec<FallingChar> = Vec::new();
    retire(&mut none);
    assert!(none.is_empty());
    let mut gone = vec![stream_at(1, 30), stream_at(90, 3)];
    retire(&mut gone);
    assert!(gone.is_empty());
}

#[test]
fn more_streams_than_the_target_are_all_kept() {
    let mut adder = adder(1, 1, 1, vec![1]);
    adder.falling_chars.push(stream_at(4, 2));
    adder.falling_chars.push(stream_at(5, 2));
    assert!(adder.add_and_retire().is_ok());
    assert_eq!(adder.falling_chars.len(), 2);
}

#[test]
fn default_config() {
    let config = Config::new_with_defaults(Position::new(80, 24));
    assert_eq!(*config.screen_size(), Position::new(80, 24));
    assert_eq!(config.colors().trail, Color::Palette(2));
    assert_eq!(config.colors().head, Color::Palette(10));
    assert_eq!(config.colors().left_behind, Color::Palette(2));
    assert_eq!(*config.no_fallers(), 50);
    assert_eq!(config.chars_to_use().chars().count(), 89);
    assert!(config.chars_to_use().starts_with("abcdefghijklmnopqrstuwvxyzABC"));
    assert!(config.chars_to_use().ends_with("~\\/.,:;"));
    assert!(config.message().is_none());
}

#[test]
fn chance_of_nothing_needs_no_bag_and_leaves_it_alone() {
    let mut empty = adder(5, 0, 1, Vec::new());
    empty.config.chars_to_use = String::new();
    empty.config.screen_size = Position::new(0, 0);
    empty.falling_chars.push(stream_at(4, 2));
    empty.falling_chars.push(stream_at(4, 30));
    assert!(empty.add_and_retire().is_ok());
    assert_eq!(empty.falling_chars.len(), 1);
    assert!(empty.positions.items().is_empty());

    let mut adder = adder(5, 0, 3, vec![7, 8]);
    let order = adder.positions.items().clone();
    assert!(adder.positions.get().is_some());
    assert!(adder.add_and_retire().is_ok());
    assert!(adder.falling_chars.is_empty());
    assert_eq!(*adder.positions.items(), order);
    assert_eq!(adder.positions.pointer(), 1);
}

#[test]
fn full_manager_needs_no_bag() {
    let mut adder = adder(1, 1, 1, Vec::new());
    adder.falling_chars.push(stream_at(4, 2));
    assert!(adder.add_and_retire().is_ok());
    assert_eq!(adder.falling_chars.len(), 1);
    assert_eq!(adder.falling_chars[0].position(), Position::new(4, 2));
    let mut none_wanted = self::adder(0, 1, 1, Vec::new());
    assert!(none_wanted.add_and_retire().is_ok());
    assert!(none_wanted.falling_chars.is_empty());
}

#[test]
fn new_streams_start_in_the_columns_that_the_bag_deals() {
    let columns: Vec<u16> = (1u16..=9).collect();
    let mut adder = adder(6, 1, 1, Vec::new());
    adder.positions = RandomVecBag::with_custom_rng(
        columns.clone(),
        RandomSource::Step(Stepping::new(12, 7).unwrap()),
    );
    let mut twin = RandomVecBag::with_custom_rng(
        columns,
        RandomSource::Step(Stepping::new(12, 7).unwrap()),
    );
    adder.falling_chars.push(stream_at(4, 2));
    assert!(adder.add_and_retire().is_ok());
    assert_eq!(adder.falling_chars.len(), 6);
    assert_eq!(adder.falling_chars[0].position(), Position::new(4, 2));
    for stream in adder.falling_chars.iter().skip(1) {
        assert_eq!(stream.position(), Position::new(*twin.get().unwrap(), 1));
    }
    assert_eq!(adder.positions.pointer(), 5);
    assert_eq!(adder.positions.pointer(), twin.pointer());
    assert_eq!(adder.positions.items(), twin.items());
}
