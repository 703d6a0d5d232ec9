//! One falling stream: its head, its trail and what it draws.

use vstd::prelude::*;
use vstd::string::StrSliceExecFns;
use vstd::string::StringExecFns;
use crate::ansi;
use crate::ansi::bold_code;
use crate::ansi::goto_code;
use crate::ansi::reset_code;
use crate::colors::ansi_code;
use crate::colors::Color;
use crate::colors::Colors;
use crate::message::char_in_span;
use crate::message::Message;
use crate::position::centered;
use crate::position::fits;
use crate::position::is_centered_in;
use crate::position::out_of_bounds;
use crate::position::Position;
use crate::position::PositionTrait;
use crate::random::RandomSource;

verus! {

/// One character to draw: where, which, in which color, and whether bold.
#[derive(Clone, Copy, Debug, PartialEq, Eq, Structural)]
pub struct Cell {
    /// The cell of the grid.
    pub position: Position,
    /// The character.
    pub glyph: char,
    /// The color.
    pub color: Color,
    /// Whether the character is drawn bold.
    pub bold: bool,
}

/// What is written to the terminal to draw `cell`: the cursor moves to the
/// cell, bold is switched on for a bold cell, the color is set, the
/// character is written, and color and style are reset.
pub open spec fn cell_code(cell: Cell) -> Seq<char> {
    goto_code(cell.position.x, cell.position.y) + (if cell.bold {
        bold_code()
    } else {
        Seq::empty()
    }) + ansi_code(cell.color).push(cell.glyph) + reset_code()
}

impl Cell {
    /// What is written to the terminal to draw this cell.
    pub fn escape_sequence(&self) -> (code: String)
        ensures
            code@ == cell_code(*self),
    {
        let mut code = ansi::goto(self.position.x, self.position.y);
        if self.bold {
            code.append(ansi::bold());
        }
        let color = self.color.get_ansi_string();
        code.append(color.as_str());
        code.push(self.glyph);
        code.append(ansi::reset());
        assert(code@ =~= cell_code(*self));
        code
    }
}

/// A stream that falls down one column and draws a trail behind it.
pub struct FallingChar {
    position: Position,
    previous_positions: Vec<Position>,
    max_position: Position,
    chars_to_render: Vec<char>,
    colors: Colors,
    size: u16,
    message: Option<Message>,
}

/// The smallest length that a trail is given on a screen of `rows` rows: a
/// third of the rows, and at least 1.
pub open spec fn least_size(rows: u16) -> int {
    if rows / 3 >= 1 {
        rows as int / 3
    } else {
        1
    }
}

/// The characters of `text`, in their order.
pub fn chars_of(text: &str) -> (chars: Vec<char>)
    ensures
        chars@ == text@,
{
    let len = text.unicode_len();
    let mut chars: Vec<char> = Vec::new();
    let mut i: usize = 0;
    while i < len
        invariant
            len == text@.len(),
            i <= len,
            chars@ == text@.take(i as int),
        decreases len - i,
    {
        chars.push(text.get_char(i));
        i += 1;
        assert(text@.take(i as int) == text@.take(i - 1).push(text@[i - 1]));
    }
    assert(text@.take(len as int) == text@);
    chars
}

impl FallingChar {
    /// Where the head is.
    pub closed spec fn head(&self) -> Position {
        self.position
    }

    /// The cells that the head has left, the latest first.
    pub closed spec fn trail(&self) -> Seq<Position> {
        self.previous_positions@
    }

    /// The lower right corner of the screen.
    pub closed spec fn bounds(&self) -> Position {
        self.max_position
    }

    /// The characters of the stream, chosen once when it is made.
    pub closed spec fn glyphs(&self) -> Seq<char> {
        self.chars_to_render@
    }

    /// The colors that the stream is drawn with.
    pub closed spec fn palette(&self) -> Colors {
        self.colors
    }

    /// The greatest length of the trail.
    pub closed spec fn capacity(&self) -> int {
        self.size as int
    }

    /// The message that the stream uncovers, if any.
    pub closed spec fn overlay(&self) -> Option<Message> {
        self.message
    }

    /// What holds of every stream: the trail may hold at least one cell, it
    /// holds no more than it may, and there is one character for each cell
    /// that it may hold.
    pub open spec fn wf(&self) -> bool {
        &&& self.capacity() >= 1
        &&& self.glyphs().len() == self.capacity()
        &&& self.trail().len() <= self.capacity()
    }

    /// Whether the trail is the run of cells right above the head, as it is
    /// for a stream that has only ever moved down.
    pub open spec fn is_falling(&self) -> bool {
        &&& self.wf()
        &&& forall|i: int|
            0 <= i < self.trail().len() ==> {
                &&& (#[trigger] self.trail()[i]).x == self.head().x
                &&& self.trail()[i].y == self.head().y - 1 - i
            }
    }

    /// Whether a part of the stream is still on the screen: the head or a
    /// cell of the trail.
    pub open spec fn is_retained(&self) -> bool {
        !(out_of_bounds(self.head(), self.bounds()) && forall|i: int|
            0 <= i < self.trail().len() ==> out_of_bounds(#[trigger] self.trail()[i], self.bounds()))
    }

    /// A new stream with its head at `position` on a screen that ends at
    /// `max_position`. The length of its trail is drawn from a third of the
    /// screen's rows (at least 1) up to all of them, and each of its
    /// characters is drawn from `chars_to_use`.
    pub fn new(
        rng: &mut RandomSource,
        position: Position,
        max_position: Position,
        colors: &Colors,
        chars_to_use: &str,
        message: Option<Message>,
    ) -> (stream: Self)
        requires
            max_position.y >= 1,
            chars_to_use@.len() > 0,
        ensures
            stream.wf(),
            stream.is_falling(),
            stream.head() == position,
            stream.trail() == Seq::<Position>::empty(),
            stream.bounds() == max_position,
            stream.palette() == *colors,
            stream.overlay() == message,
            least_size(max_position.y) <= stream.capacity() <= max_position.y,
            forall|i: int|
                0 <= i < stream.glyphs().len() ==> chars_to_use@.contains(
                    #[trigger] stream.glyphs()[i],
                ),
    {
        let third: u16 = max_position.y / 3;
        let least: u16 = if third >= 1 {
            third
        } else {
            1
        };
        let size = rng.value_between(least, max_position.y);
        let glyphs = Self::get_random_chars(rng, size, chars_to_use);
        Self::with_glyphs(position, max_position, colors, glyphs, message)
    }

    /// A new stream with its head at `position` whose characters are
    /// `glyphs`; its trail may hold as many cells as there are characters.
    pub fn with_glyphs(
        position: Position,
        max_position: Position,
        colors: &Colors,
        glyphs: Vec<char>,
        message: Option<Message>,
    ) -> (stream: Self)
        requires
            1 <= glyphs@.len() <= u16::MAX,
        ensures
            stream.wf(),
            stream.is_falling(),
            stream.head() == position,
            stream.trail() == Seq::<Position>::empty(),
            stream.bounds() == max_position,
            stream.palette() == *colors,
            stream.overlay() == message,
            stream.glyphs() == glyphs@,
            stream.capacity() == glyphs@.len(),
    {
        let size: u16 = glyphs.len() as u16;
        Self {
            position,
            previous_positions: Vec::new(),
            max_position,
            chars_to_render: glyphs,
            colors: *colors,
            size,
            message,
        }
    }

    /// `size` characters, each drawn from `chars_to_use`.
    pub fn get_random_chars(rng: &mut RandomSource, size: u16, chars_to_use: &str) -> (chars: Vec<char>)
        requires
            size > 0 ==> chars_to_use@.len() > 0,
        ensures
            chars@.len() == size,
            forall|i: int| 0 <= i < chars@.len() ==> chars_to_use@.contains(#[trigger] chars@[i]),
    {
        let chars_to_select = chars_of(chars_to_use);
        let mut random_chars: Vec<char> = Vec::new();
        while random_chars.len() < size as usize
            invariant
                chars_to_select@ == chars_to_use@,
                size > 0 ==> chars_to_use@.len() > 0,
                random_chars@.len() <= size,
                forall|i: int|
                    0 <= i < random_chars@.len() ==> chars_to_use@.contains(
                        #[trigger] random_chars@[i],
                    ),
            decreases size - random_chars@.len(),
        {
            let index = rng.index_below(chars_to_select.len());
            let selected_char = chars_to_select[index];
            random_chars.push(selected_char);
        }
        random_chars
    }

    /// Where the head is.
    pub fn position(&self) -> (position: Position)
        ensures
            position == self.head(),
    {
        self.position
    }

    /// The cells that the head has left, the latest first.
    pub fn previous_positions(&self) -> (trail: &Vec<Position>)
        ensures
            trail@ == self.trail(),
    {
        &self.previous_positions
    }

    /// The lower right corner of the screen.
    pub fn max_position(&self) -> (bounds: Position)
        ensures
            bounds == self.bounds(),
    {
        self.max_position
    }

    /// The characters of the stream.
    pub fn chars_to_render(&self) -> (glyphs: &Vec<char>)
        ensures
            glyphs@ == self.glyphs(),
    {
        &self.chars_to_render
    }

    /// The colors that the stream is drawn with.
    pub fn colors(&self) -> (colors: &Colors)
        ensures
            *colors == self.palette(),
    {
        &self.colors
    }

    /// The message that the stream uncovers, if any.
    pub fn message(&self) -> (message: &Option<Message>)
        ensures
            *message == self.overlay(),
    {
        &self.message
    }

    /// The greatest length of the trail.
    pub fn size(&self) -> (size: u16)
        ensures
            size == self.capacity(),
    {
        self.size
    }

    /// Whether the stream stays: `false` once the head and every cell of the
    /// trail have left the screen. A stream without a trail stays while its
    /// head is on the screen.
    pub fn should_be_retained(&self) -> (retained: bool)
        ensures
            retained == self.is_retained(),
    {
        if !self.position.is_out_of_bounds(&self.max_position) {
            return true;
        }
        let mut i: usize = 0;
        while i < self.previous_positions.len()
            invariant
                i <= self.previous_positions@.len(),
                forall|k: int|
                    0 <= k < i ==> out_of_bounds(
                        #[trigger] self.previous_positions@[k],
                        self.max_position,
                    ),
            decreases self.previous_positions@.len() - i,
        {
            if !self.previous_positions[i].is_out_of_bounds(&self.max_position) {
                assert(!out_of_bounds(self.trail()[i as int], self.bounds()));
                return true;
            }
            i += 1;
        }
        false
    }

    /// The cell that draws the head: bold, in the head's color, with the
    /// stream's first character.
    pub open spec fn head_cell(&self) -> Cell {
        Cell {
            position: self.head(),
            glyph: self.glyphs()[0],
            color: self.palette().head,
            bold: true,
        }
    }

    /// The color of entry `i` of the trail where no message covers it: the
    /// left-behind color for the last cell that a trail may hold, the
    /// trail's color for the others.
    pub open spec fn trail_color(&self, i: int) -> Color {
        if i == self.capacity() - 1 {
            self.palette().left_behind
        } else {
            self.palette().trail
        }
    }

    /// The cell that draws entry `i` of the trail. The last entry shows
    /// `covering` in the message's color where a message covers it, and
    /// `flicker` where none does; every other entry shows the stream's own
    /// character of that index.
    pub open spec fn trail_cell(&self, i: int, flicker: char, covering: Option<char>) -> Cell {
        let position = self.trail()[i];
        if i == self.trail().len() - 1 {
            match (covering, self.overlay()) {
                (Some(glyph), Some(message)) => Cell {
                    position,
                    glyph,
                    color: message.color,
                    bold: false,
                },
                _ => Cell { position, glyph: flicker, color: self.trail_color(i), bold: false },
            }
        } else {
            Cell { position, glyph: self.glyphs()[i], color: self.trail_color(i), bold: false }
        }
    }

    /// The cells that draw the first `n` entries of the trail, in their
    /// order, without those that lie off the screen.
    pub open spec fn trail_cells(&self, n: int, flicker: char, covering: Option<char>) -> Seq<Cell>
        decreases n,
    {
        if n <= 0 {
            Seq::empty()
        } else if out_of_bounds(self.trail()[n - 1], self.bounds()) {
            self.trail_cells(n - 1, flicker, covering)
        } else {
            self.trail_cells(n - 1, flicker, covering).push(
                self.trail_cell(n - 1, flicker, covering),
            )
        }
    }

    /// The cell of the head, where the head is on the screen.
    pub open spec fn head_cells(&self) -> Seq<Cell> {
        if out_of_bounds(self.head(), self.bounds()) {
            Seq::empty()
        } else {
            seq![self.head_cell()]
        }
    }

    /// All that the stream draws: the head, then the trail.
    pub open spec fn drawn(&self, flicker: char, covering: Option<char>) -> Seq<Cell> {
        self.head_cells() + self.trail_cells(self.trail().len() as int, flicker, covering)
    }

    /// Whether the last entry of the trail is on the screen.
    pub open spec fn shows_last(&self) -> bool {
        self.trail().len() > 0 && !out_of_bounds(self.trail().last(), self.bounds())
    }

    /// Whether `covering` is what the stream's message may show over the
    /// last entry of the trail. Without a message, and where that entry is
    /// off the screen, nothing covers it. A message covers it at most where
    /// the entry lies in the message's row, at its first cell or right of
    /// it; a message with a fixed text covers it with the character that
    /// the text has for that cell.
    pub open spec fn is_covering(&self, covering: Option<char>) -> bool {
        match self.overlay() {
            Some(message) => {
                &&& covering.is_some() ==> {
                    &&& self.shows_last()
                    &&& self.trail().last().y == message.position.place().y
                    &&& message.position.place().x <= self.trail().last().x
                }
                &&& self.shows_last() && message.static_text().is_some() ==> covering
                    == char_in_span(
                    message.static_text().unwrap(),
                    message.position.place(),
                    self.trail().last(),
                )
            },
            None => covering.is_none(),
        }
    }

    /// The cells to draw, where `flicker` is the character that the last
    /// entry of the trail shows in this frame and `covering` the character
    /// of the message over that entry, if any.
    pub fn cells(&self, flicker: char, covering: Option<char>) -> (cells: Vec<Cell>)
        requires
            self.wf(),
        ensures
            cells@ == self.drawn(flicker, covering),
    {
        let mut cells: Vec<Cell> = Vec::new();
        if !self.position.is_out_of_bounds(&self.max_position) {
            cells.push(
                Cell {
                    position: self.position,
                    glyph: self.chars_to_render[0],
                    color: self.colors.head,
                    bold: true,
                },
            );
        }
        let len = self.previous_positions.len();
        let mut i: usize = 0;
        while i < len
            invariant
                self.wf(),
                len == self.trail().len(),
                i <= len,
                cells@ == self.head_cells() + self.trail_cells(i as int, flicker, covering),
            decreases len - i,
        {
            let position = self.previous_positions[i];
            if !position.is_out_of_bounds(&self.max_position) {
                let mut glyph = self.chars_to_render[i];
                let mut color = self.colors.trail;
                if i == self.size as usize - 1 {
                    color = self.colors.left_behind;
                }
                if i == len - 1 {
                    glyph = flicker;
                    match (covering, &self.message) {
                        (Some(shown), Some(message)) => {
                            glyph = shown;
                            color = message.color;
                        },
                        _ => {},
                    }
                }
                cells.push(Cell { position, glyph, color, bold: false });
            }
            i += 1;
            assert(cells@ == self.head_cells() + self.trail_cells(i as int, flicker, covering));
        }
        cells
    }

    /// Whether `cells` is what the stream may draw in one frame: all that
    /// it draws, with one of its own characters as the flicker and with
    /// what its message shows over the last entry of the trail.
    pub open spec fn is_rendering(&self, cells: Seq<Cell>) -> bool {
        exists|flicker: char, covering: Option<char>|
            {
                &&& self.glyphs().contains(flicker)
                &&& self.is_covering(covering)
                &&& cells == #[trigger] self.drawn(flicker, covering)
            }
    }

    /// The cells to draw in this frame: the head, where it is on the
    /// screen, then the entries of the trail that are on the screen. The
    /// last entry of the trail flickers: it shows one of the stream's
    /// characters, drawn anew for each frame, or the character of the
    /// message that covers it.
    pub fn render(&self, rng: &mut RandomSource) -> (cells: Vec<Cell>)
        requires
            self.wf(),
        ensures
            self.is_rendering(cells@),
    {
        let len = self.previous_positions.len();
        let mut flicker = self.chars_to_render[0];
        let mut covering: Option<char> = None;
        if len > 0 {
            let last = self.previous_positions[len - 1];
            if !last.is_out_of_bounds(&self.max_position) {
                match rng.pick(&self.chars_to_render) {
                    Some(glyph) => {
                        flicker = glyph;
                    },
                    None => {},
                }
                match &self.message {
                    Some(message) => {
                        covering = message.get_char_in_position(&last);
                    },
                    None => {},
                }
            }
        }
        self.cells(flicker, covering)
    }

    /// Whether this stream is `before` moved down one row: the cell that
    /// the head has left is the first of the trail, a trail that was full
    /// has lost its last cell, and a message is kept as long as its
    /// position is or can be brought up to date. A message whose position
    /// was not up to date is kept where its text fits into a row of its
    /// bounds, and then stands centered in them.
    pub open spec fn is_advance_of(&self, before: &Self) -> bool {
        &&& self.head() == (Position { x: before.head().x, y: (before.head().y + 1) as u16 })
        &&& self.trail() == seq![before.head()] + (if before.trail().len() >= before.capacity() {
            before.trail().drop_last()
        } else {
            before.trail()
        })
        &&& self.bounds() == before.bounds()
        &&& self.glyphs() == before.glyphs()
        &&& self.palette() == before.palette()
        &&& self.capacity() == before.capacity()
        &&& before.overlay().is_none() ==> self.overlay().is_none()
        &&& before.overlay().is_some() && before.overlay().unwrap().is_settled() ==> self.overlay()
            == before.overlay()
        &&& self.overlay().is_some() ==> {
            &&& before.overlay().is_some()
            &&& self.overlay().unwrap().is_settled()
            &&& self.overlay().unwrap().text == before.overlay().unwrap().text
            &&& self.overlay().unwrap().bounds == before.overlay().unwrap().bounds
            &&& self.overlay().unwrap().color == before.overlay().unwrap().color
        }
        &&& before.overlay().is_some() && !before.overlay().unwrap().is_settled() ==> {
            let message = before.overlay().unwrap();
            &&& self.overlay().is_some() ==> is_centered_in(
                self.overlay().unwrap().position.place(),
                message.bounds,
            )
            &&& message.static_text().is_some() ==> {
                let len = message.static_text().unwrap().len() as int;
                &&& self.overlay().is_some() == fits(message.bounds, len)
                &&& self.overlay().is_some() ==> self.overlay().unwrap().position.place()
                    == centered(message.bounds, len)
            }
        }
    }

    /// Whether the stream can move down another row: it is well formed and
    /// its head is not in the last row that can be counted.
    pub open spec fn is_movable(&self) -> bool {
        self.wf() && self.head().y < u16::MAX
    }

    /// Whether the stream can move down another row.
    pub fn can_advance(&self) -> (movable: bool)
        ensures
            movable == self.is_movable(),
    {
        self.size >= 1 && self.chars_to_render.len() == self.size as usize
            && self.previous_positions.len() <= self.size as usize && self.position.y < u16::MAX
    }

    /// Moves the stream down one row. The cell that the head leaves becomes
    /// the first of the trail; a trail that is full loses its last cell
    /// before that. A message whose position cannot be brought up to date
    /// is dropped.
    pub fn advance(&mut self)
        requires
            old(self).is_movable(),
        ensures
            final(self).wf(),
            old(self).is_falling() ==> final(self).is_falling(),
            final(self).is_advance_of(old(self)),
    {
        if self.previous_positions.len() >= self.size as usize {
            let len = self.previous_positions.len();
            self.previous_positions.remove(len - 1);
        }
        self.previous_positions.insert(0, self.position);
        self.position.y = self.position.y + 1;
        let mut keep = true;
        match &mut self.message {
            Some(message) => {
                keep = message.update_position();
            },
            None => {},
        }
        if !keep {
            self.message = None;
        }
        assert(final(self).trail() =~= seq![old(self).head()] + (if old(self).trail().len() >= old(self).capacity() {
            old(self).trail().drop_last()
        } else {
            old(self).trail()
        }));
    }
}

/// A stream that has only ever moved down is retired once its head is more
/// rows below the screen than its trail may hold cells: by then the whole
/// trail has left the screen too.
pub proof fn lemma_fallen_stream_is_retired(stream: FallingChar)
    requires
        stream.is_falling(),
        stream.head().y > stream.bounds().y + stream.capacity(),
    ensures
        !stream.is_retained(),
{
    assert forall|i: int| 0 <= i < stream.trail().len() implies out_of_bounds(
        #[trigger] stream.trail()[i],
        stream.bounds(),
    ) by {
        assert(stream.trail()[i].y == stream.head().y - 1 - i);
    }
}

/// While the head of a stream that has only ever moved down is on the
/// screen, the stream is retained, and so it is while its trail still
/// reaches up into the screen.
pub proof fn lemma_visible_stream_is_retained(stream: FallingChar)
    requires
        stream.is_falling(),
        stream.head().x <= stream.bounds().x,
        stream.head().y <= stream.bounds().y || (stream.trail().len() > 0 && stream.head().y
            - stream.trail().len() <= stream.bounds().y),
    ensures
        stream.is_retained(),
{
    if stream.head().y > stream.bounds().y {
        let last = stream.trail().len() - 1;
        assert(!out_of_bounds(stream.trail()[last], stream.bounds()));
    }
}

} // verus!
