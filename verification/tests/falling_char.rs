use rumatrix::colors::Color;
use rumatrix::colors::Colors;
use rumatrix::falling_char::chars_of;
use rumatrix::falling_char::Cell;
use rumatrix::falling_char::FallingChar;
use rumatrix::message::Message;
use rumatrix::message::TextType;
use rumatrix::position::Position;
use rumatrix::position::PositionTrait;
use rumatrix::random::RandomSource;
use rumatrix::random::Stepping;

fn colors() -> Colors {
    Colors { trail: Color::Palette(2), head: Color::Palette(10), left_behind: Color::Palette(4) }
}

fn stream_of(glyphs: &str, column: u16) -> FallingChar {
    FallingChar::with_glyphs(
        Position::new(column, 1),
        Position::new(80, 24),
        &colors(),
        glyphs.chars().collect(),
        None,
    )
}

fn lorem() -> Message {
    Message::new_centered_or_none(
        Position::new(20, 6),
        TextType::StaticString("Lorem".to_owned()),
        Color::Palette(1),
    )
    .unwrap()
}

#[test]
fn fresh_stream_has_a_head_and_no_trail() {
    let stream = stream_of("abc", 5);
    assert_eq!(stream.position(), Position::new(5, 1));
    assert!(stream.previous_positions().is_empty());
    assert_eq!(stream.size(), 3);
    assert_eq!(*stream.chars_to_render(), vec!['a', 'b', 'c']);
    assert_eq!(stream.max_position(), Position::new(80, 24));
    assert!(stream.should_be_retained());
}

#[test]
fn four_advances_cap_a_trail_of_three() {
    let mut stream = stream_of("abc", 5);
    stream.advance();
    assert_eq!(*stream.previous_positions(), vec![Position::new(5, 1)]);
    stream.advance();
    stream.advance();
    assert_eq!(
        *stream.previous_positions(),
        vec![Position::new(5, 3), Position::new(5, 2), Position::new(5, 1)]
    );
    stream.advance();
    assert_eq!(stream.previous_positions().len(), 3);
    assert_eq!(
        *stream.previous_positions(),
        vec![Position::new(5, 4), Position::new(5, 3), Position::new(5, 2)]
    );
    assert_eq!(stream.position(), Position::new(5, 5));
}

#[test]
fn stream_of_size_one_keeps_one_cell() {
    let mut stream = stream_of("a", 2);
    for row in 1u16..10 {
        stream.advance();
        assert_eq!(*stream.previous_positions(), vec![Position::new(2, row)]);
        assert_eq!(stream.position(), Position::new(2, row + 1));
    }
}

#[test]
fn stream_is_retained_until_its_trail_has_left_the_screen() {
    let mut stream = FallingChar::with_glyphs(
        Position::new(5, 1),
        Position::new(80, 24),
        &colors(),
        vec!['a', 'b', 'c'],
        None,
    );
    while stream.position().y <= 24 + 3 {
        assert!(stream.should_be_retained());
        assert!(stream.previous_positions().len() <= 3);
        stream.advance();
    }
    assert_eq!(stream.position().y, 28);
    assert!(!stream.should_be_retained());
    stream.advance();
    assert!(!stream.should_be_retained());
}

#[test]
fn stream_beyond_the_last_column_is_not_retained() {
    let mut stream = stream_of("abc", 81);
    assert!(!stream.should_be_retained());
    stream.advance();
    assert!(!stream.should_be_retained());
    let mut inside = stream_of("abc", 80);
    assert!(inside.should_be_retained());
    inside.advance();
    assert!(inside.should_be_retained());
}

#[test]
fn stream_without_a_trail_and_with_its_head_off_the_screen_is_not_retained() {
    let stream = FallingChar::with_glyphs(
        Position::new(5, 25),
        Position::new(80, 24),
        &colors(),
        vec!['a'],
        None,
    );
    assert!(!stream.should_be_retained());
}

#[test]
fn new_stream_draws_its_size_and_its_characters() {
    let sources = vec![
        RandomSource::thread(),
        RandomSource::Step(Stepping::new(12, 7).unwrap()),
        RandomSource::Step(Stepping::new(1 << 40, 0x9E37_79B9_7F4A_7C15).unwrap()),
    ];
    for mut rng in sources {
        for rows in [1u16, 2, 3, 5, 24, 100] {
            let stream = FallingChar::new(
                &mut rng,
                Position::new(7, 1),
                Position::new(80, rows),
                &colors(),
                "xyz",
                None,
            );
            let least = std::cmp::max(1, rows / 3);
            assert!(least <= stream.size() && stream.size() <= rows);
            assert_eq!(stream.chars_to_render().len(), stream.size() as usize);
            assert!(stream.chars_to_render().iter().all(|c| "xyz".contains(*c)));
            assert_eq!(stream.position(), Position::new(7, 1));
            assert!(stream.previous_positions().is_empty());
            assert_eq!(stream.max_position(), Position::new(80, rows));
        }
    }
}

#[test]
fn random_chars_come_from_the_alphabet() {
    let mut rng = RandomSource::thread();
    let chars = FallingChar::get_random_chars(&mut rng, 200, "01");
    assert_eq!(chars.len(), 200);
    assert!(chars.iter().all(|c| *c == '0' || *c == '1'));
    assert!(chars.contains(&'0') && chars.contains(&'1'));
    assert!(FallingChar::get_random_chars(&mut rng, 0, "").is_empty());
    assert_eq!(FallingChar::get_random_chars(&mut rng, 3, "ä"), vec!['ä', 'ä', 'ä']);
}

#[test]
fn chars_of_lists_the_characters() {
    assert_eq!(chars_of("aäb"), vec!['a', 'ä', 'b']);
    assert!(chars_of("").is_empty());
}

#[test]
fn cells_of_a_fresh_stream_are_its_head() {
    let stream = stream_of("abc", 5);
    assert_eq!(
        stream.cells('z', None),
        vec![Cell {
            position: Position::new(5, 1),
            glyph: 'a',
            color: Color::Palette(10),
            bold: true
        }]
    );
}

#[test]
fn cells_of_a_full_trail() {
    let mut stream = stream_of("abc", 5);
    for _ in 0..3 {
        stream.advance();
    }
    let trail = Color::Palette(2);
    assert_eq!(
        stream.cells('z', None),
        vec![
            Cell { position: Position::new(5, 4), glyph: 'a', color: Color::Palette(10), bold: true },
            Cell { position: Position::new(5, 3), glyph: 'a', color: trail, bold: false },
            Cell { position: Position::new(5, 2), glyph: 'b', color: trail, bold: false },
            Cell { position: Position::new(5, 1), glyph: 'z', color: Color::Palette(4), bold: false },
        ]
    );
}

#[test]
fn cells_of_a_trail_that_is_not_full_use_the_trail_color() {
    let mut stream = stream_of("abc", 5);
    stream.advance();
    stream.advance();
    let trail = Color::Palette(2);
    assert_eq!(
        stream.cells('z', Some('q')),
        vec![
            Cell { position: Position::new(5, 3), glyph: 'a', color: Color::Palette(10), bold: true },
            Cell { position: Position::new(5, 2), glyph: 'a', color: trail, bold: false },
            Cell { position: Position::new(5, 1), glyph: 'z', color: trail, bold: false },
        ]
    );
}

#[test]
fn cells_off_the_screen_are_not_drawn() {
    let mut stream = FallingChar::with_glyphs(
        Position::new(5, 1),
        Position::new(80, 3),
        &colors(),
        vec!['a', 'b', 'c'],
        None,
    );
    for _ in 0..4 {
        stream.advance();
    }
    assert_eq!(stream.position(), Position::new(5, 5));
    assert_eq!(
        stream.cells('z', None),
        vec![
            Cell { position: Position::new(5, 3), glyph: 'b', color: Color::Palette(2), bold: false },
            Cell { position: Position::new(5, 2), glyph: 'z', color: Color::Palette(4), bold: false },
        ]
    );
    for _ in 0..3 {
        stream.advance();
    }
    assert!(stream.cells('z', None).is_empty());
    assert!(stream.render(&mut RandomSource::thread()).is_empty());
}

#[test]
fn message_covers_the_last_cell_of_the_trail() {
    let mut stream = FallingChar::with_glyphs(
        Position::new(8, 1),
        Position::new(20, 6),
        &colors(),
        vec!['a', 'b'],
        Some(lorem()),
    );
    for _ in 0..4 {
        stream.advance();
    }
    assert_eq!(
        *stream.previous_positions(),
        vec![Position::new(8, 4), Position::new(8, 3)]
    );
    let expected = vec![
        Cell { position: Position::new(8, 5), glyph: 'a', color: Color::Palette(10), bold: true },
        Cell { position: Position::new(8, 4), glyph: 'a', color: Color::Palette(2), bold: false },
        Cell { position: Position::new(8, 3), glyph: 'o', color: Color::Palette(1), bold: false },
    ];
    assert_eq!(stream.cells('z', Some('o')), expected);
    for _ in 0..5 {
        assert_eq!(stream.render(&mut RandomSource::thread()), expected);
    }
}

#[test]
fn render_flickers_with_the_stream_s_own_characters() {
    let mut stream = stream_of("abc", 5);
    for _ in 0..3 {
        stream.advance();
    }
    let mut seen = Vec::new();
    let mut rng = RandomSource::thread();
    for _ in 0..200 {
        let cells = stream.render(&mut rng);
        assert_eq!(cells.len(), 4);
        assert_eq!(cells[..3], stream.cells('a', None)[..3]);
        assert_eq!(cells[3].position, Position::new(5, 1));
        assert_eq!(cells[3].color, Color::Palette(4));
        assert!(!cells[3].bold);
        assert!("abc".contains(cells[3].glyph));
        assert_eq!(cells, stream.cells(cells[3].glyph, None));
        if !seen.contains(&cells[3].glyph) {
            seen.push(cells[3].glyph);
        }
    }
    seen.sort();
    assert_eq!(seen, vec!['a', 'b', 'c']);
}

#[test]
fn render_does_not_change_the_stream() {
    let mut stream = stream_of("abc", 5);
    stream.advance();
    let mut rng = RandomSource::Step(Stepping::new(3, 11).unwrap());
    stream.render(&mut rng);
    assert_eq!(stream.position(), Position::new(5, 2));
    assert_eq!(*stream.previous_positions(), vec![Position::new(5, 1)]);
    assert_eq!(*stream.chars_to_render(), vec!['a', 'b', 'c']);
}

#[test]
fn escape_sequence_of_a_bold_cell() {
    let cell = Cell {
        position: Position::new(12, 3),
        glyph: 'x',
        color: Color::Palette(10),
        bold: true,
    };
    assert_eq!(cell.escape_sequence(), "\u{1b}[3;12H\u{1b}[1m\u{1b}[38;5;10mx\u{1b}[m");
}

#[test]
fn escape_sequence_of_a_plain_cell() {
    let cell = Cell {
        position: Position::new(65535, 100),
        glyph: 'ß',
        color: Color::RGB { r: 1, g: 20, b: 255 },
        bold: false,
    };
    assert_eq!(cell.escape_sequence(), "\u{1b}[100;65535H\u{1b}[38;2;1;20;255mß\u{1b}[m");
    let origin = Cell { position: Position::new(0, 0), glyph: ' ', color: Color::Palette(0), bold: false };
    assert_eq!(origin.escape_sequence(), "\u{1b}[0;0H\u{1b}[38;5;0m \u{1b}[m");
}

#[test]
fn advance_drops_a_message_that_no_longer_fits() {
    let mut message = lorem();
    message.bounds = Position::new(3, 6);
    let mut stream = FallingChar::with_glyphs(
        Position::new(8, 3),
        Position::new(20, 6),
        &colors(),
        vec!['a'],
        Some(message),
    );
    stream.advance();
    let plain = Cell { position: Position::new(8, 3), glyph: 'z', color: Color::Palette(4), bold: false };
    assert_eq!(stream.cells('z', Some('o'))[1], plain);
}

#[test]
fn date_and_time_message_covers_the_last_cell_of_the_trail() {
    let noon = Message::new_centered_or_none(
        Position::new(20, 6),
        TextType::CurrentDateTime("noon".to_owned()),
        Color::Palette(1),
    )
    .unwrap();
    let mut covered = FallingChar::with_glyphs(
        Position::new(9, 3),
        Position::new(20, 6),
        &colors(),
        vec!['a'],
        Some(noon.clone()),
    );
    covered.advance();
    let cells = covered.render(&mut RandomSource::thread());
    assert_eq!(
        cells[1],
        Cell { position: Position::new(9, 3), glyph: 'o', color: Color::Palette(1), bold: false }
    );
    for (column, row) in [(7u16, 3u16), (12, 3), (9, 2), (9, 4)] {
        let mut beside = FallingChar::with_glyphs(
            Position::new(column, row),
            Position::new(20, 6),
            &colors(),
            vec!['a'],
            Some(noon.clone()),
        );
        beside.advance();
        let cells = beside.render(&mut RandomSource::thread());
        assert_eq!(
            cells[1],
            Cell { position: Position::new(column, row), glyph: 'a', color: Color::Palette(4), bold: false }
        );
    }
}

#[test]
fn advance_centers_a_message_that_was_not_up_to_date() {
    let mut message = lorem();
    message.bounds = Position::new(9, 8);
    let mut stream = FallingChar::with_glyphs(
        Position::new(3, 4),
        Position::new(20, 6),
        &colors(),
        vec!['a'],
        Some(message),
    );
    stream.advance();
    let message = stream.message().clone().unwrap();
    assert_eq!((message.position.x(), message.position.y()), (2, 4));
    assert_eq!(message.bounds, Position::new(9, 8));
    assert_eq!(
        stream.cells('z', Some('o'))[1],
        Cell { position: Position::new(3, 4), glyph: 'o', color: Color::Palette(1), bold: false }
    );
    assert_eq!(
        stream.render(&mut RandomSource::thread())[1],
        Cell { position: Position::new(3, 4), glyph: 'o', color: Color::Palette(1), bold: false }
    );

    let mut narrow = lorem();
    narrow.bounds = Position::new(4, 8);
    let mut stream = FallingChar::with_glyphs(
        Position::new(3, 4),
        Position::new(20, 6),
        &colors(),
        vec!['a'],
        Some(narrow),
    );
    stream.advance();
    assert!(stream.message().is_none());
}
