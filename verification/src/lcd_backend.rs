//! Renderer of the game screen: solid fills, the static labels, the cells
//! of the playing field and the score and level numbers, all expressed as
//! calls of the display driver.

use vstd::prelude::*;
use vstd::arithmetic::div_mod::lemma_div_denominator;
use crate::bus::{BusOp, WireByte, as_data, lemma_received_concat, received, select_framed, tiled};
use crate::glyphs::{
    LEVEL_TEXT_WIDTH, NUMBER_CHAR_WIDTH, SCORE_TEXT_WIDTH, TEXT_HEIGHT, digit_glyph, level_glyph,
    level_text, number_text, score_glyph, score_text,
};
use crate::lcd::{
    Lcd, PANEL_HEIGHT, PANEL_WIDTH, display_on_ops, init_ops, lemma_pixels_on_wire,
    lemma_window_on_wire, pixel_ops, window_in_panel, window_ops,
};

verus! {

/// Edge of one cell of the playing field in pixels.
pub const BLOCK_WIDTH: u8 = 5;

/// Column of the playing field's left edge.
pub const PLAYFIELD_HORIZONTAL_PADDING: u8 = 39;

/// Row of the playing field's top edge.
pub const PLAYFIELD_VERTICAL_PADDING: u8 = 9;

/// Width of the playing field: ten cells.
pub const PLAYFIELD_WIDTH: u8 = 10 * BLOCK_WIDTH;

/// Height of the playing field: twenty-two cells.
pub const PLAYFIELD_HEIGHT: u8 = 22 * BLOCK_WIDTH;

/// Column of the left edge of the level label and of the level number's
/// field.
pub const LEVEL_LABEL_X: u8 = (PLAYFIELD_HORIZONTAL_PADDING - LEVEL_TEXT_WIDTH) / 2;

/// Column of the left edge of the score label and of the score number's
/// field.
pub const SCORE_LABEL_X: u8 = PLAYFIELD_HORIZONTAL_PADDING + PLAYFIELD_WIDTH + (
PLAYFIELD_HORIZONTAL_PADDING - SCORE_TEXT_WIDTH) / 2;

/// Row of the top edge of both numbers, a little below the labels.
pub const NUMBER_Y: u8 = 12 + PLAYFIELD_VERTICAL_PADDING;

/// Distance from a number field's left edge to the column that numbers are
/// centred on.
pub const NUMBER_CENTRE: u8 = SCORE_TEXT_WIDTH / 2;

/// Distance between the left edges of neighbouring digits: the digit and
/// one column of space.
pub const DIGIT_PITCH: u8 = NUMBER_CHAR_WIDTH + 1;

/// Largest left edge of a number field whose digits all lie in the panel.
pub const MAX_NUMBER_X: u8 = 109;

/// Largest score that is shown as it is.
pub const MAX_SCORE_SHOWN: u32 = 999;

/// Largest level that is shown as it is.
pub const MAX_LEVEL_SHOWN: u32 = 99;

/// What a cell of the playing field holds: one of the seven pieces, or
/// nothing.
#[derive(Clone, Copy, Debug, PartialEq, Eq, Structural)]
pub enum PieceKind {
    I,
    O,
    J,
    L,
    S,
    Z,
    T,
    EmptySpace,
}

/// Two white pixels.
pub open spec fn white() -> Seq<u8> {
    seq![0xFFu8, 0xFFu8, 0xFFu8]
}

/// Two black pixels.
pub open spec fn black() -> Seq<u8> {
    seq![0x00u8, 0x00u8, 0x00u8]
}

/// Two pixels in the colour of a piece; an empty cell is black.
pub open spec fn colour_of(kind: PieceKind) -> Seq<u8> {
    match kind {
        PieceKind::I => seq![0x00u8, 0xF0u8, 0x0Fu8],
        PieceKind::O => seq![0x0Au8, 0x00u8, 0xA0u8],
        PieceKind::J => seq![0x0Au8, 0xA0u8, 0xAAu8],
        PieceKind::L => seq![0xF0u8, 0x0Fu8, 0x00u8],
        PieceKind::S => seq![0xA0u8, 0xAAu8, 0x0Au8],
        PieceKind::Z => seq![0xAAu8, 0x0Au8, 0xA0u8],
        PieceKind::T => seq![0x7Fu8, 0x77u8, 0xF7u8],
        PieceKind::EmptySpace => black(),
    }
}

/// How often a pattern of two pixels is repeated after its first
/// transmission to cover a window: once per further pair of pixels, an odd
/// last pixel counting as a pair.
pub open spec fn fill_repeat(width: u8, height: u8) -> nat {
    ((width * height + 1) / 2 - 1) as nat
}

/// The operations that fill a window with a pattern of two pixels.
pub open spec fn fill_ops(x: u8, y: u8, width: u8, height: u8, colour: Seq<u8>) -> Seq<BusOp> {
    window_ops(x, y, width, height) + pixel_ops(colour, fill_repeat(width, height))
}

/// The operations that draw ready-made artwork into a window.
pub open spec fn glyph_ops(x: u8, y: u8, width: u8, height: u8, glyph: Seq<u8>) -> Seq<BusOp> {
    window_ops(x, y, width, height) + pixel_ops(glyph, 0)
}

/// A cell lies in the panel when all of its pixels do.
pub open spec fn cell_in_panel(x: u8, y: u8) -> bool {
    &&& x * BLOCK_WIDTH + PLAYFIELD_HORIZONTAL_PADDING + BLOCK_WIDTH <= PANEL_WIDTH
    &&& y * BLOCK_WIDTH + PLAYFIELD_VERTICAL_PADDING + BLOCK_WIDTH <= PANEL_HEIGHT
}

/// The operations that paint one cell of the playing field.
pub open spec fn cell_ops(x: u8, y: u8, kind: PieceKind) -> Seq<BusOp> {
    fill_ops(
        (x * BLOCK_WIDTH + PLAYFIELD_HORIZONTAL_PADDING) as u8,
        (y * BLOCK_WIDTH + PLAYFIELD_VERTICAL_PADDING) as u8,
        BLOCK_WIDTH,
        BLOCK_WIDTH,
        colour_of(kind),
    )
}

/// The number that is shown for `value`: `value` itself up to the cap, the
/// cap beyond.
pub open spec fn shown(value: nat, cap: nat) -> nat {
    if value > cap {
        cap
    } else {
        value
    }
}

/// How many digits a shown number gets.
pub open spec fn digit_count(number: nat) -> nat {
    if number > 99 {
        3
    } else if number > 9 {
        2
    } else {
        1
    }
}

/// Ten to the power of `exponent`.
pub open spec fn pow10(exponent: nat) -> nat
    decreases exponent,
{
    if exponent == 0 {
        1
    } else {
        10 * pow10((exponent - 1) as nat)
    }
}

/// The decimal digit of `number` at a place; place `0` is the ones.
pub open spec fn digit_at(number: nat, place: nat) -> nat {
    (number / pow10(place)) % 10
}

/// Column of the left edge of the digit at a place, for a number of
/// `digits` digits in the field that starts at column `left`: the digits
/// stand one pitch apart, the ones rightmost, and the whole number is
/// centred in the field.
pub open spec fn digit_x(left: u8, digits: nat, place: nat) -> int {
    left + NUMBER_CENTRE + (DIGIT_PITCH * digits - 1) / 2 - NUMBER_CHAR_WIDTH - DIGIT_PITCH * place
}

/// The operations that draw the digits of `number` at the places below
/// `places`, the ones first.
pub open spec fn digits_ops(left: u8, number: nat, digits: nat, places: nat) -> Seq<BusOp>
    decreases places,
{
    if places == 0 {
        Seq::empty()
    } else {
        let place = (places - 1) as nat;
        digits_ops(left, number, digits, place) + glyph_ops(
            digit_x(left, digits, place) as u8,
            NUMBER_Y,
            NUMBER_CHAR_WIDTH,
            TEXT_HEIGHT,
            digit_glyph(digit_at(number, place)),
        )
    }
}

/// A number field lies in the panel when the field itself does and the
/// digits of every number do.
pub open spec fn number_field_in_panel(left: u8, width: u8) -> bool {
    &&& window_in_panel(left, NUMBER_Y, width, TEXT_HEIGHT)
    &&& left <= MAX_NUMBER_X
}

/// The operations that show a number in a field: the field is wiped white,
/// then the digits of the shown number are drawn.
pub open spec fn number_ops(left: u8, width: u8, value: nat, cap: nat) -> Seq<BusOp> {
    let number = shown(value, cap);
    fill_ops(left, NUMBER_Y, width, TEXT_HEIGHT, white()) + digits_ops(
        left,
        number,
        digit_count(number),
        digit_count(number),
    )
}

/// The operations that show the score.
pub open spec fn score_ops(score: u32) -> Seq<BusOp> {
    number_ops(SCORE_LABEL_X, SCORE_TEXT_WIDTH, score as nat, MAX_SCORE_SHOWN as nat)
}

/// The operations that show the level.
pub open spec fn level_ops(level: usize) -> Seq<BusOp> {
    number_ops(LEVEL_LABEL_X, LEVEL_TEXT_WIDTH, level as nat, MAX_LEVEL_SHOWN as nat)
}

/// The operations that blacken the playing field.
pub open spec fn playfield_ops() -> Seq<BusOp> {
    fill_ops(
        PLAYFIELD_HORIZONTAL_PADDING,
        PLAYFIELD_VERTICAL_PADDING,
        PLAYFIELD_WIDTH,
        PLAYFIELD_HEIGHT,
        black(),
    )
}

/// The operations that draw the screen a game starts with: a white panel,
/// the black playing field, the level label with level `1` to the left and
/// the score label with score `0` to the right.
pub open spec fn initial_screen_ops() -> Seq<BusOp> {
    fill_ops(0, 0, PANEL_WIDTH, PANEL_HEIGHT, white()) + playfield_ops() + glyph_ops(
        LEVEL_LABEL_X,
        PLAYFIELD_VERTICAL_PADDING,
        (LEVEL_TEXT_WIDTH + 1) as u8,
        TEXT_HEIGHT,
        level_glyph(),
    ) + level_ops(1) + glyph_ops(
        SCORE_LABEL_X,
        PLAYFIELD_VERTICAL_PADDING,
        SCORE_TEXT_WIDTH,
        TEXT_HEIGHT,
        score_glyph(),
    ) + score_ops(0)
}

/// Fill sizing: a window of an even number of pixels is filled by sending
/// the pattern of two pixels once and then half the area less one times
/// more, which is one pair for every two pixels.
pub proof fn lemma_fill_sizing(x: u8, y: u8, width: u8, height: u8, colour: Seq<u8>)
    requires
        window_in_panel(x, y, width, height),
        (width * height) % 2 == 0,
    ensures
        fill_repeat(width, height) == width * height / 2 - 1,
        2 * (fill_repeat(width, height) + 1) == width * height,
        fill_ops(x, y, width, height, colour) == window_ops(x, y, width, height) + pixel_ops(
            colour,
            (width * height / 2 - 1) as nat,
        ),
{
    assert(1 <= width * height) by (nonlinear_arith)
        requires
            1 <= width,
            1 <= height,
    ;
}

/// A fill reaches the controller as the window setting, the memory-write
/// command and the pattern of two pixels, once for every two pixels of the
/// window and once more for an odd last pixel.
pub proof fn lemma_fill_on_wire(
    x: u8,
    y: u8,
    width: u8,
    height: u8,
    colour: Seq<u8>,
    command: bool,
)
    requires
        window_in_panel(x, y, width, height),
    ensures
        received(fill_ops(x, y, width, height, colour), command) == received(
            window_ops(x, y, width, height),
            command,
        ) + seq![WireByte { command: true, byte: 0x2C }] + as_data(
            tiled(colour, ((width * height + 1) / 2) as nat),
        ),
{
    assert(1 <= width * height) by (nonlinear_arith)
        requires
            1 <= width,
            1 <= height,
    ;
    let window = window_ops(x, y, width, height);
    let pixels = pixel_ops(colour, fill_repeat(width, height));
    lemma_received_concat(window, pixels, command);
    lemma_window_on_wire(x, y, width, height, command);
    lemma_pixels_on_wire(colour, fill_repeat(width, height), false);
    assert(received(window, command) + (seq![WireByte { command: true, byte: 0x2C }] + as_data(
        tiled(colour, fill_repeat(width, height) + 1),
    )) =~= received(window, command) + seq![WireByte { command: true, byte: 0x2C }] + as_data(
        tiled(colour, fill_repeat(width, height) + 1),
    ));
}

/// A fill never sends fewer pixels than the window holds and at most one
/// more: a window of an odd number of pixels gets one pixel of padding.
pub proof fn lemma_fill_covers_window(width: u8, height: u8)
    requires
        1 <= width,
        1 <= height,
    ensures
        width * height <= 2 * (fill_repeat(width, height) + 1) <= width * height + 1,
{
    assert(1 <= width * height) by (nonlinear_arith)
        requires
            1 <= width,
            1 <= height,
    ;
}

/// The digits that are drawn spell the shown number: read with the ones
/// rightmost they add up to it, and a number of more than one digit does
/// not start with a zero.
pub proof fn lemma_digits_spell_number(number: nat)
    requires
        number <= 999,
    ensures
        digit_at(number, 0) + 10 * digit_at(number, 1) + 100 * digit_at(number, 2) == number,
        digit_count(number) == 3 ==> digit_at(number, 2) != 0,
        digit_count(number) == 2 ==> digit_at(number, 1) != 0 && digit_at(number, 2) == 0,
        digit_count(number) == 1 ==> digit_at(number, 1) == 0 && digit_at(number, 2) == 0,
{
    assert(pow10(0) == 1 && pow10(1) == 10 && pow10(2) == 100) by {
        reveal_with_fuel(pow10, 3);
    }
}

/// Layout of a number: every digit lies in the panel, each digit stands
/// one pitch left of the digit of the place below, and the digits together
/// are centred on the field's centre column.
pub proof fn lemma_digit_layout(left: u8, digits: nat, place: nat)
    requires
        left <= MAX_NUMBER_X,
        1 <= digits <= 3,
        place < digits,
    ensures
        0 <= digit_x(left, digits, place),
        digit_x(left, digits, place) + NUMBER_CHAR_WIDTH <= PANEL_WIDTH,
        place + 1 < digits ==> digit_x(left, digits, place + 1) == digit_x(left, digits, place)
            - 5,
        digit_x(left, digits, (digits - 1) as nat) == left + NUMBER_CENTRE - (DIGIT_PITCH
            * digits) / 2,
        digit_x(left, digits, 0) + NUMBER_CHAR_WIDTH == left + NUMBER_CENTRE + (DIGIT_PITCH
            * digits - 1) / 2,
{
    assert(DIGIT_PITCH * digits == 5 * digits && DIGIT_PITCH * place == 5 * place && DIGIT_PITCH
        * (place + 1) == 5 * place + 5 && DIGIT_PITCH * (digits - 1) == 5 * digits - 5)
        by (nonlinear_arith)
        requires
            DIGIT_PITCH == 5,
    ;
}

/// The renderer. It owns the display driver.
pub struct LcdBackend {
    lcd: Lcd,
}

impl View for LcdBackend {
    type V = Seq<BusOp>;

    /// The operations recorded by the driver and not yet taken out.
    closed spec fn view(&self) -> Seq<BusOp> {
        self.lcd@
    }
}

impl LcdBackend {
    /// The driver's record is framed.
    pub closed spec fn wf(&self) -> bool {
        self.lcd.wf()
    }

    /// A well-formed renderer's record is framed: device-select goes down
    /// and up again around every single byte.
    pub proof fn lemma_wf_framed(&self)
        requires
            self.wf(),
        ensures
            select_framed(self@),
    {
    }

    /// Takes over a driver and initialises the display.
    pub fn new(lcd: Lcd) -> (backend: LcdBackend)
        requires
            lcd.wf(),
        ensures
            backend.wf(),
            backend@ == lcd@ + init_ops(),
    {
        let mut lcd = lcd;
        lcd.init();
        LcdBackend { lcd }
    }

    /// Hands over the recorded operations and starts recording afresh.
    pub fn take_pending(&mut self) -> (ops: Vec<BusOp>)
        requires
            old(self).wf(),
        ensures
            final(self).wf(),
            ops@ == old(self)@,
            select_framed(ops@),
            final(self)@ == Seq::<BusOp>::empty(),
    {
        self.lcd.take_pending()
    }

    /// Switches the display on.
    pub fn turn_on_display(&mut self)
        requires
            old(self).wf(),
        ensures
            final(self).wf(),
            final(self)@ == old(self)@ + display_on_ops(),
    {
        self.lcd.display_on();
    }

    /// Fills a window with a pattern of two pixels.
    pub fn fill_rect(&mut self, x: u8, y: u8, width: u8, height: u8, colour: &[u8; 3])
        requires
            old(self).wf(),
            window_in_panel(x, y, width, height),
        ensures
            final(self).wf(),
            final(self)@ == old(self)@ + fill_ops(x, y, width, height, colour@),
    {
        assert(1 <= width * height <= 16384) by (nonlinear_arith)
            requires
                1 <= width <= 128,
                1 <= height <= 128,
        ;
        let pixels: u16 = width as u16 * height as u16;
        let repeat: u16 = (pixels + 1) / 2 - 1;
        self.lcd.set_drawing_area(x, y, width, height);
        self.lcd.draw_pixels_repeatedly(colour, repeat as usize);
        assert(self@ =~= old(self)@ + fill_ops(x, y, width, height, colour@));
    }

    /// Draws ready-made artwork into a window.
    pub fn draw_static_glyph(&mut self, x: u8, y: u8, width: u8, height: u8, glyph: &[u8])
        requires
            old(self).wf(),
            window_in_panel(x, y, width, height),
        ensures
            final(self).wf(),
            final(self)@ == old(self)@ + glyph_ops(x, y, width, height, glyph@),
    {
        self.lcd.set_drawing_area(x, y, width, height);
        self.lcd.draw_pixels(glyph);
        assert(self@ =~= old(self)@ + glyph_ops(x, y, width, height, glyph@));
    }

    /// Shows a number in the field that starts at column `left` and is
    /// `width` pixels wide. A value above `max_value` is shown as
    /// `max_value`.
    pub fn draw_number(&mut self, left: u8, width: u8, value: u32, max_value: u32)
        requires
            old(self).wf(),
            number_field_in_panel(left, width),
        ensures
            final(self).wf(),
            final(self)@ == old(self)@ + number_ops(left, width, value as nat, max_value as nat),
    {
        let white_pixels: [u8; 3] = [0xFF, 0xFF, 0xFF];
        self.fill_rect(left, NUMBER_Y, width, TEXT_HEIGHT, &white_pixels);
        assert(white_pixels@ =~= white());
        let mut displayed: u32 = if value > max_value {
            max_value
        } else {
            value
        };
        let num_digits: u8 = if displayed > 99 {
            3
        } else if displayed > 9 {
            2
        } else {
            1
        };
        // a digit and the space behind it for each digit, and no space
        // behind the last
        let display_width: u8 = DIGIT_PITCH * num_digits - 1;
        // from the centre of the field half a number to the right, then
        // one digit back: the left edge of the ones
        let mut display_start: u8 = left + NUMBER_CENTRE + display_width / 2 - NUMBER_CHAR_WIDTH;
        let ghost erased = self@;
        let ghost number = displayed as nat;
        let mut place: u8 = 0;
        while place < num_digits
            invariant
                self.wf(),
                left <= MAX_NUMBER_X,
                1 <= num_digits <= 3,
                place <= num_digits,
                displayed == number / pow10(place as nat),
                display_start == digit_x(left, num_digits as nat, place as nat),
                self@ == erased + digits_ops(left, number, num_digits as nat, place as nat),
            decreases num_digits - place,
        {
            let digit: usize = (displayed % 10) as usize;
            let glyph = number_text(digit);
            self.draw_static_glyph(display_start, NUMBER_Y, NUMBER_CHAR_WIDTH, TEXT_HEIGHT, glyph);
            proof {
                assert(glyph@ == digit_glyph(digit_at(number, place as nat)));
                assert(pow10(place as nat) > 0) by {
                    reveal_with_fuel(pow10, 4);
                }
                lemma_div_denominator(number as int, pow10(place as nat) as int, 10);
                assert(pow10((place + 1) as nat) == pow10(place as nat) * 10);
                assert(self@ =~= erased + digits_ops(
                    left,
                    number,
                    num_digits as nat,
                    (place + 1) as nat,
                ));
            }
            display_start -= DIGIT_PITCH;
            displayed /= 10;
            place += 1;
        }
        assert(self@ =~= old(self)@ + number_ops(left, width, value as nat, max_value as nat));
    }

    /// Blackens the playing field.
    pub fn clear_playing_field(&mut self)
        requires
            old(self).wf(),
        ensures
            final(self).wf(),
            final(self)@ == old(self)@ + playfield_ops(),
    {
        let black_pixels: [u8; 3] = [0x00, 0x00, 0x00];
        self.fill_rect(
            PLAYFIELD_HORIZONTAL_PADDING,
            PLAYFIELD_VERTICAL_PADDING,
            PLAYFIELD_WIDTH,
            PLAYFIELD_HEIGHT,
            &black_pixels,
        );
        assert(black_pixels@ =~= black());
    }

    /// Tells whether a cell lies in the panel.
    pub fn cell_fits(x: u8, y: u8) -> (fits: bool)
        ensures
            fits == cell_in_panel(x, y),
    {
        x <= (PANEL_WIDTH - PLAYFIELD_HORIZONTAL_PADDING - BLOCK_WIDTH) / BLOCK_WIDTH && y <= (
        PANEL_HEIGHT - PLAYFIELD_VERTICAL_PADDING - BLOCK_WIDTH) / BLOCK_WIDTH
    }

    /// Paints one cell of the playing field in the colour of what it holds.
    pub fn draw_block(&mut self, x: u8, y: u8, tetrimino_type: PieceKind)
        requires
            old(self).wf(),
            cell_in_panel(x, y),
        ensures
            final(self).wf(),
            final(self)@ == old(self)@ + cell_ops(x, y, tetrimino_type),
    {
        let pixel_data: [u8; 3] = match tetrimino_type {
            // blue
            PieceKind::I => [0x00, 0xF0, 0x0F],
            // green
            PieceKind::O => [0x0A, 0x00, 0xA0],
            // cyan
            PieceKind::J => [0x0A, 0xA0, 0xAA],
            // red
            PieceKind::L => [0xF0, 0x0F, 0x00],
            // purple
            PieceKind::S => [0xA0, 0xAA, 0x0A],
            // yellow
            PieceKind::Z => [0xAA, 0x0A, 0xA0],
            // lime green
            PieceKind::T => [0x7F, 0x77, 0xF7],
            // black
            PieceKind::EmptySpace => [0x00, 0x00, 0x00],
        };
        assert(pixel_data@ =~= colour_of(tetrimino_type));

        let xs: u8 = x * BLOCK_WIDTH + PLAYFIELD_HORIZONTAL_PADDING;
        let ys: u8 = y * BLOCK_WIDTH + PLAYFIELD_VERTICAL_PADDING;
        self.fill_rect(xs, ys, BLOCK_WIDTH, BLOCK_WIDTH, &pixel_data);
    }

    /// Shows the score; a score above [`MAX_SCORE_SHOWN`] is shown as that.
    pub fn draw_score(&mut self, score: u32)
        requires
            old(self).wf(),
        ensures
            final(self).wf(),
            final(self)@ == old(self)@ + score_ops(score),
    {
        self.draw_number(SCORE_LABEL_X, SCORE_TEXT_WIDTH, score, MAX_SCORE_SHOWN);
    }

    /// Shows the level; a level above [`MAX_LEVEL_SHOWN`] is shown as that.
    pub fn draw_level(&mut self, level: usize)
        requires
            old(self).wf(),
        ensures
            final(self).wf(),
            final(self)@ == old(self)@ + level_ops(level),
    {
        let capped: u32 = if level > MAX_LEVEL_SHOWN as usize {
            MAX_LEVEL_SHOWN
        } else {
            level as u32
        };
        self.draw_number(LEVEL_LABEL_X, LEVEL_TEXT_WIDTH, capped, MAX_LEVEL_SHOWN);
    }

    /// Draws the screen a game starts with.
    pub fn draw_initial_screen(&mut self)
        requires
            old(self).wf(),
        ensures
            final(self).wf(),
            final(self)@ == old(self)@ + initial_screen_ops(),
    {
        let white_pixels: [u8; 3] = [0xFF, 0xFF, 0xFF];
        self.fill_rect(0, 0, PANEL_WIDTH, PANEL_HEIGHT, &white_pixels);
        assert(white_pixels@ =~= white());

        self.clear_playing_field();

        self.draw_static_glyph(
            LEVEL_LABEL_X,
            PLAYFIELD_VERTICAL_PADDING,
            LEVEL_TEXT_WIDTH + 1,
            TEXT_HEIGHT,
            level_text(),
        );
        self.draw_level(1);

        self.draw_static_glyph(
            SCORE_LABEL_X,
            PLAYFIELD_VERTICAL_PADDING,
            SCORE_TEXT_WIDTH,
            TEXT_HEIGHT,
            score_text(),
        );
        self.draw_score(0);
        assert(self@ =~= old(self)@ + initial_screen_ops());
    }
}

} // verus!
