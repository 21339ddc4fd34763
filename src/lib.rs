//! Driver logic for ST7735 colour TFT controllers.
//!
//! The driver does not own the bus. Each operation returns the exact list of
//! [`Action`]s (reset-line levels, delays, command bytes, data bursts) that
//! has to be carried out, in order, over the data/command-select SPI link.
use vstd::prelude::*;

pub mod cmd;

use crate::cmd::{
    init_sequence, init_table, records, CommandRecord, CASET, MADCTL, RAMWR, RASET,
};

verus! {

/// Display pixel colour order.
#[derive(Clone, Copy, PartialEq, Eq, Structural, Debug)]
pub enum PixelOrder {
    /// Red, Green, Blue
    RGB,
    /// Blue, Green, Red
    BGR,
}

/// Access-control bit of a pixel order.
pub open spec fn pixel_order_code(p: PixelOrder) -> u8 {
    match p {
        PixelOrder::RGB => 0x00,
        PixelOrder::BGR => 0x08,
    }
}

impl PixelOrder {
    pub fn code(self) -> (r: u8)
        ensures
            r == pixel_order_code(self),
    {
        match self {
            PixelOrder::RGB => 0x00,
            PixelOrder::BGR => 0x08,
        }
    }
}

/// Display orientation.
#[derive(Clone, Copy, PartialEq, Eq, Structural, Debug)]
pub enum Orientation {
    Portrait,
    Landscape,
    PortraitSwapped,
    LandscapeSwapped,
}

/// Access-control bits (row/column exchange and mirroring) of an orientation.
pub open spec fn orientation_code(o: Orientation) -> u8 {
    match o {
        Orientation::Portrait => 0x00,
        Orientation::Landscape => 0x60,
        Orientation::PortraitSwapped => 0xC0,
        Orientation::LandscapeSwapped => 0xA0,
    }
}

impl Orientation {
    pub fn code(self) -> (r: u8)
        ensures
            r == orientation_code(self),
    {
        match self {
            Orientation::Portrait => 0x00,
            Orientation::Landscape => 0x60,
            Orientation::PortraitSwapped => 0xC0,
            Orientation::LandscapeSwapped => 0xA0,
        }
    }
}

/// The access-control register value: orientation bits OR pixel-order bit.
pub open spec fn madctl_value(o: Orientation, p: PixelOrder) -> u8 {
    orientation_code(o) | pixel_order_code(p)
}

/// One step of bus or line activity.
#[derive(Clone, PartialEq, Eq, Debug)]
pub enum Action {
    /// Drive the reset line high.
    ResetHigh,
    /// Drive the reset line low.
    ResetLow,
    /// Block for the given number of milliseconds.
    DelayMs(u32),
    /// Send one instruction byte with the data/command line low.
    Command(u8),
    /// Send parameter or pixel bytes with the data/command line high.
    Data(Vec<u8>),
}

/// An [`Action`] as a plain value.
pub enum Step {
    ResetHigh,
    ResetLow,
    DelayMs(u32),
    Command(u8),
    Data(Seq<u8>),
}

impl View for Action {
    type V = Step;

    open spec fn view(&self) -> Step {
        match self {
            Action::ResetHigh => Step::ResetHigh,
            Action::ResetLow => Step::ResetLow,
            Action::DelayMs(ms) => Step::DelayMs(*ms),
            Action::Command(b) => Step::Command(*b),
            Action::Data(d) => Step::Data(d@),
        }
    }
}

/// The steps of a list of actions.
pub open spec fn steps(v: Seq<Action>) -> Seq<Step> {
    Seq::new(v.len(), |i: int| v[i]@)
}

/// Appends one action to `out`.
fn emit(out: &mut Vec<Action>, a: Action)
    ensures
        steps(final(out)@) == steps(old(out)@).push(a@),
{
    let ghost a_v = a@;
    out.push(a);
    assert(steps(out@) =~= steps(old(out)@).push(a_v));
}

/// Big-endian bytes of a 16-bit value.
pub open spec fn be_bytes(v: int) -> Seq<u8> {
    seq![(v / 256) as u8, (v % 256) as u8]
}

/// Parameters of an address-set command: start and end, each as a 16-bit
/// big-endian value.
pub open spec fn address_bytes(start: int, end: int) -> Seq<u8> {
    be_bytes(start) + be_bytes(end)
}

/// Steps that one command record turns into: the instruction, then its
/// parameters if there are any, then its delay if it has one.
pub open spec fn record_steps(c: CommandRecord) -> Seq<Step> {
    seq![Step::Command(c.0)] + (if c.1.len() > 0 {
        seq![Step::Data(c.1)]
    } else {
        Seq::empty()
    }) + (if c.2 > 0 {
        seq![Step::DelayMs(c.2)]
    } else {
        Seq::empty()
    })
}

/// Steps that a command sequence turns into, record after record.
pub open spec fn sequence_steps(t: Seq<CommandRecord>) -> Seq<Step>
    decreases t.len(),
{
    if t.len() == 0 {
        Seq::empty()
    } else {
        sequence_steps(t.drop_last()) + record_steps(t.last())
    }
}

/// The hardware reset pulse: high, 10 ms, low, 10 ms, high.
pub open spec fn reset_steps() -> Seq<Step> {
    seq![Step::ResetHigh, Step::DelayMs(10), Step::ResetLow, Step::DelayMs(10), Step::ResetHigh]
}

/// A colour by its red (5-bit), green (6-bit) and blue (5-bit) channels.
#[derive(Clone, Copy, PartialEq, Eq, Structural, Debug)]
pub struct Rgb565 {
    pub r: u8,
    pub g: u8,
    pub b: u8,
}

/// The packed 16-bit RGB565 value of a colour; channel bits beyond each
/// channel's width are dropped.
pub open spec fn rgb565_raw(c: Rgb565) -> int {
    (c.r % 32) * 2048 + (c.g % 64) * 32 + (c.b % 32)
}

/// Relies on embedded_graphics's `Rgb565::new`, which masks each channel to
/// its width and packs red, green, blue from the high bits down, and on its
/// `ToBytes::to_be_bytes`, which gives that 16-bit value high byte first.
#[verifier::external_body]
fn rgb565_to_be_bytes(c: Rgb565) -> (r: [u8; 2])
    ensures
        r@ == be_bytes(rgb565_raw(c)),
{
    embedded_graphics::pixelcolor::raw::ToBytes::to_be_bytes(
        embedded_graphics::pixelcolor::Rgb565::new(c.r, c.g, c.b),
    )
}

/// Offset of the visible panel origin inside controller memory, on
/// construction.
pub const DEFAULT_OFFSET_X: u32 = 1;
pub const DEFAULT_OFFSET_Y: u32 = 26;

/// Configuration of a driver, as plain values.
#[derive(Clone, Copy, PartialEq, Eq, Structural, Debug)]
pub struct DriverState {
    pub pixel_order: PixelOrder,
    pub inverted: bool,
    pub orientation: Orientation,
    pub offset_x: u32,
    pub offset_y: u32,
    pub width: u32,
    pub height: u32,
}

impl DriverState {
    /// The same configuration with another orientation.
    pub open spec fn with_orientation(self, o: Orientation) -> DriverState {
        DriverState { orientation: o, ..self }
    }

    /// Offset plus panel size stays within the 16-bit address registers.
    pub open spec fn fits(self) -> bool {
        self.offset_x + self.width <= 0xFFFF && self.offset_y + self.height <= 0xFFFF
    }

    /// Column and row address ranges sent during bring-up.
    pub open spec fn init_caset(self) -> Seq<u8> {
        address_bytes(self.offset_x as int, self.offset_x + self.width)
    }

    pub open spec fn init_raset(self) -> Seq<u8> {
        address_bytes(self.offset_y as int, self.offset_y + self.height)
    }

    /// The command table for this configuration.
    pub open spec fn command_table(self) -> Seq<CommandRecord> {
        init_table(
            self.inverted,
            madctl_value(self.orientation, self.pixel_order),
            self.init_caset(),
            self.init_raset(),
        )
    }

    /// Everything that bring-up sends: the reset pulse, then the table.
    pub open spec fn init_steps(self) -> Seq<Step> {
        reset_steps() + sequence_steps(self.command_table())
    }

    /// The window coordinates stay within the 16-bit address registers.
    pub open spec fn window_fits(self, sx: int, sy: int, ex: int, ey: int) -> bool {
        &&& self.offset_x + sx <= 0xFFFF
        &&& self.offset_x + ex <= 0xFFFF
        &&& self.offset_y + sy <= 0xFFFF
        &&& self.offset_y + ey <= 0xFFFF
    }

    /// Column range, row range, then memory write.
    pub open spec fn window_steps(self, sx: int, sy: int, ex: int, ey: int) -> Seq<Step> {
        seq![
            Step::Command(CASET),
            Step::Data(address_bytes(self.offset_x + sx, self.offset_x + ex)),
            Step::Command(RASET),
            Step::Data(address_bytes(self.offset_y + sy, self.offset_y + ey)),
            Step::Command(RAMWR),
        ]
    }

    /// A one-pixel window, then the colour's two bytes.
    pub open spec fn pixel_steps(self, x: int, y: int, color: u16) -> Seq<Step> {
        self.window_steps(x, y, x, y).push(Step::Data(be_bytes(color as int)))
    }

    /// Access-control instruction with its one parameter byte.
    pub open spec fn orientation_steps(self, o: Orientation) -> Seq<Step> {
        seq![Step::Command(MADCTL), Step::Data(seq![madctl_value(o, self.pixel_order)])]
    }

    /// The pixels of a list, each as [`DriverState::pixel_steps`], in order.
    pub open spec fn pixels_steps(self, p: Seq<(u16, u16, u16)>) -> Seq<Step>
        decreases p.len(),
    {
        if p.len() == 0 {
            Seq::empty()
        } else {
            self.pixels_steps(p.drop_last()) + self.pixel_steps(
                p.last().0 as int,
                p.last().1 as int,
                p.last().2,
            )
        }
    }

    /// A window over the whole panel, then one two-byte write per pixel.
    pub open spec fn clear_steps(self, raw: int) -> Seq<Step> {
        self.window_steps(0, 0, self.width - 1, self.height - 1) + Seq::new(
            (self.width * self.height) as nat,
            |i: int| Step::Data(be_bytes(raw)),
        )
    }
}

/// The driver's configuration. Its operations return what has to be sent.
#[derive(Clone, Copy, PartialEq, Eq, Structural, Debug)]
pub struct ST7735 {
    pixel_order: PixelOrder,
    inverted: bool,
    orientation: Orientation,
    offset_x: u32,
    offset_y: u32,
    width: u32,
    height: u32,
}

impl View for ST7735 {
    type V = DriverState;

    closed spec fn view(&self) -> DriverState {
        DriverState {
            pixel_order: self.pixel_order,
            inverted: self.inverted,
            orientation: self.orientation,
            offset_x: self.offset_x,
            offset_y: self.offset_y,
            width: self.width,
            height: self.height,
        }
    }
}

/// Address-set parameters for the range `start..=end`.
fn address_params(start: u32, end: u32) -> (r: Vec<u8>)
    requires
        start <= 0xFFFF,
        end <= 0xFFFF,
    ensures
        r@ == address_bytes(start as int, end as int),
{
    let r = vec![(start / 256) as u8, (start % 256) as u8, (end / 256) as u8, (end % 256) as u8];
    assert(r@ =~= address_bytes(start as int, end as int));
    r
}

impl ST7735 {
    pub fn new(
        pixel_order: PixelOrder,
        inverted: bool,
        orientation: Orientation,
        width: u32,
        height: u32,
    ) -> (r: ST7735)
        ensures
            r@ == (DriverState {
                pixel_order,
                inverted,
                orientation,
                offset_x: DEFAULT_OFFSET_X,
                offset_y: DEFAULT_OFFSET_Y,
                width,
                height,
            }),
    {
        ST7735 {
            pixel_order,
            inverted,
            orientation,
            offset_x: DEFAULT_OFFSET_X,
            offset_y: DEFAULT_OFFSET_Y,
            width,
            height,
        }
    }

    /// The hardware reset pulse.
    pub fn reset(&self) -> (r: Vec<Action>)
        ensures
            steps(r@) == reset_steps(),
    {
        let mut out: Vec<Action> = Vec::new();
        self.reset_into(&mut out);
        assert(steps(out@) =~= reset_steps());
        out
    }

    fn reset_into(&self, out: &mut Vec<Action>)
        ensures
            steps(final(out)@) == steps(old(out)@) + reset_steps(),
    {
        emit(out, Action::ResetHigh);
        emit(out, Action::DelayMs(10));
        emit(out, Action::ResetLow);
        emit(out, Action::DelayMs(10));
        emit(out, Action::ResetHigh);
        assert(steps(out@) =~= steps(old(out)@) + reset_steps());
    }

    /// The controller's bring-up command table, without the reset pulse.
    pub fn send_init_commands(&self) -> (r: Vec<Action>)
        requires
            self@.fits(),
        ensures
            steps(r@) == sequence_steps(self@.command_table()),
    {
        let mut out: Vec<Action> = Vec::new();
        self.init_commands_into(&mut out);
        assert(steps(out@) =~= sequence_steps(self@.command_table()));
        out
    }

    fn init_commands_into(&self, out: &mut Vec<Action>)
        requires
            self@.fits(),
        ensures
            steps(final(out)@) == steps(old(out)@) + sequence_steps(self@.command_table()),
    {
        let madctl = self.orientation.code() | self.pixel_order.code();
        let caset = address_params(self.offset_x, self.offset_x + self.width);
        let raset = address_params(self.offset_y, self.offset_y + self.height);
        let table = init_sequence(self.inverted, madctl, caset, raset);
        let ghost t = records(table@);
        assert(t == self@.command_table());
        let ghost start = steps(out@);
        let mut i: usize = 0;
        while i < table.len()
            invariant
                i <= table@.len(),
                t == records(table@),
                steps(out@) == start + sequence_steps(t.take(i as int)),
            decreases table@.len() - i,
        {
            let c = &table[i];
            let ghost before = steps(out@);
            emit(out, Action::Command(c.instruction));
            if !c.params.is_empty() {
                let p = c.params.clone();
                assert(p@ =~= c.params@);
                emit(out, Action::Data(p));
            }
            if c.delay_time > 0 {
                emit(out, Action::DelayMs(c.delay_time));
            }
            assert(t.take(i + 1).drop_last() =~= t.take(i as int));
            assert(steps(out@) =~= before + record_steps(t[i as int]));
            i += 1;
        }
        assert(t.take(i as int) =~= t);
    }

    /// Reset pulse followed by the whole bring-up command table.
    pub fn init(&self) -> (r: Vec<Action>)
        requires
            self@.fits(),
        ensures
            steps(r@) == self@.init_steps(),
    {
        let mut out: Vec<Action> = Vec::new();
        self.reset_into(&mut out);
        self.init_commands_into(&mut out);
        assert(steps(out@) =~= self@.init_steps());
        out
    }

    /// Sends the access-control register for a new orientation and keeps it.
    pub fn set_orientation(&mut self, orientation: Orientation) -> (r: Vec<Action>)
        ensures
            final(self)@ == old(self)@.with_orientation(orientation),
            steps(r@) == old(self)@.orientation_steps(orientation),
    {
        let mut out: Vec<Action> = Vec::new();
        emit(&mut out, Action::Command(MADCTL));
        let value = orientation.code() | self.pixel_order.code();
        let data = vec![value];
        assert(data@ =~= seq![madctl_value(orientation, self.pixel_order)]);
        emit(&mut out, Action::Data(data));
        self.orientation = orientation;
        assert(steps(out@) =~= old(self)@.orientation_steps(orientation));
        out
    }

    /// Sets the offset of the visible image inside controller memory.
    pub fn set_offset(&mut self, dx: u16, dy: u16)
        ensures
            final(self)@ == (DriverState { offset_x: dx as u32, offset_y: dy as u32, ..old(self)@ }),
    {
        self.offset_x = dx as u32;
        self.offset_y = dy as u32;
    }

    /// Width and height of the panel in pixels.
    pub fn size(&self) -> (r: (u32, u32))
        ensures
            r == (self@.width, self@.height),
    {
        (self.width, self.height)
    }

    /// Column and row offset of the visible image.
    pub fn offset(&self) -> (r: (u32, u32))
        ensures
            r == (self@.offset_x, self@.offset_y),
    {
        (self.offset_x, self.offset_y)
    }

    /// Current orientation.
    pub fn orientation(&self) -> (r: Orientation)
        ensures
            r == self@.orientation,
    {
        self.orientation
    }

    fn window_into(&self, out: &mut Vec<Action>, sx: u16, sy: u16, ex: u16, ey: u16)
        requires
            self@.window_fits(sx as int, sy as int, ex as int, ey as int),
        ensures
            steps(final(out)@) == steps(old(out)@) + self@.window_steps(
                sx as int,
                sy as int,
                ex as int,
                ey as int,
            ),
    {
        emit(out, Action::Command(CASET));
        emit(out, Action::Data(address_params(self.offset_x + sx as u32, self.offset_x + ex as u32)));
        emit(out, Action::Command(RASET));
        emit(out, Action::Data(address_params(self.offset_y + sy as u32, self.offset_y + ey as u32)));
        emit(out, Action::Command(RAMWR));
        assert(steps(out@) =~= steps(old(out)@) + self@.window_steps(
            sx as int,
            sy as int,
            ex as int,
            ey as int,
        ));
    }

    /// Selects the window `(sx, sy)..=(ex, ey)`, shifted by the offset, and
    /// starts a memory write into it.
    pub fn set_address_window(&self, sx: u16, sy: u16, ex: u16, ey: u16) -> (r: Vec<Action>)
        requires
            self@.window_fits(sx as int, sy as int, ex as int, ey as int),
        ensures
            steps(r@) == self@.window_steps(sx as int, sy as int, ex as int, ey as int),
    {
        let mut out: Vec<Action> = Vec::new();
        self.window_into(&mut out, sx, sy, ex, ey);
        assert(steps(out@) =~= self@.window_steps(sx as int, sy as int, ex as int, ey as int));
        out
    }

    fn pixel_into(&self, out: &mut Vec<Action>, x: u16, y: u16, color: u16)
        requires
            self@.window_fits(x as int, y as int, x as int, y as int),
        ensures
            steps(final(out)@) == steps(old(out)@) + self@.pixel_steps(x as int, y as int, color),
    {
        self.window_into(out, x, y, x, y);
        let data = vec![(color / 256) as u8, (color % 256) as u8];
        assert(data@ =~= be_bytes(color as int));
        emit(out, Action::Data(data));
        assert(steps(out@) =~= steps(old(out)@) + self@.pixel_steps(x as int, y as int, color));
    }

    /// Writes one pixel of packed RGB565 colour `color` at `(x, y)`.
    pub fn set_pixel(&self, x: u16, y: u16, color: u16) -> (r: Vec<Action>)
        requires
            self@.window_fits(x as int, y as int, x as int, y as int),
        ensures
            steps(r@) == self@.pixel_steps(x as int, y as int, color),
    {
        let mut out: Vec<Action> = Vec::new();
        self.pixel_into(&mut out, x, y, color);
        assert(steps(out@) =~= self@.pixel_steps(x as int, y as int, color));
        out
    }

    /// Fills the whole panel with `color`, one two-byte write per pixel.
    pub fn clear(&self, color: Rgb565) -> (r: Vec<Action>)
        requires
            self@.width >= 1,
            self@.height >= 1,
            self@.fits(),
            self@.width * self@.height <= usize::MAX,
        ensures
            steps(r@) == self@.clear_steps(rgb565_raw(color)),
    {
        let mut out: Vec<Action> = Vec::new();
        let ex = (self.width - 1) as u16;
        let ey = (self.height - 1) as u16;
        self.window_into(&mut out, 0, 0, ex, ey);
        let bytes = rgb565_to_be_bytes(color);
        let ghost head = steps(out@);
        let ghost item = Step::Data(be_bytes(rgb565_raw(color)));
        let n: usize = (self.width as usize) * (self.height as usize);
        let mut i: usize = 0;
        while i < n
            invariant
                i <= n,
                n == self@.width * self@.height,
                bytes@ == be_bytes(rgb565_raw(color)),
                item == Step::Data(be_bytes(rgb565_raw(color))),
                steps(out@) == head + Seq::new(i as nat, |k: int| item),
            decreases n - i,
        {
            let data = vec![bytes[0], bytes[1]];
            assert(data@ =~= bytes@);
            emit(&mut out, Action::Data(data));
            assert(Seq::new((i + 1) as nat, |k: int| item) =~= Seq::new(i as nat, |k: int| item).push(item));
            i += 1;
        }
        assert(steps(out@) =~= self@.clear_steps(rgb565_raw(color)));
        out
    }

    /// Writes each `(x, y, color)` pixel in turn, as [`ST7735::set_pixel`] does.
    pub fn draw_iter(&self, pixels: &Vec<(u16, u16, u16)>) -> (r: Vec<Action>)
        requires
            forall|i: int|
                0 <= i < pixels@.len() ==> self@.window_fits(
                    #[trigger] pixels@[i].0 as int,
                    pixels@[i].1 as int,
                    pixels@[i].0 as int,
                    pixels@[i].1 as int,
                ),
        ensures
            steps(r@) == self@.pixels_steps(pixels@),
    {
        let mut out: Vec<Action> = Vec::new();
        let mut i: usize = 0;
        while i < pixels.len()
            invariant
                i <= pixels@.len(),
                forall|j: int|
                    0 <= j < pixels@.len() ==> self@.window_fits(
                        #[trigger] pixels@[j].0 as int,
                        pixels@[j].1 as int,
                        pixels@[j].0 as int,
                        pixels@[j].1 as int,
                    ),
                steps(out@) == self@.pixels_steps(pixels@.take(i as int)),
            decreases pixels@.len() - i,
        {
            let (x, y, c) = pixels[i];
            assert(pixels@.take(i + 1).drop_last() =~= pixels@.take(i as int));
            self.pixel_into(&mut out, x, y, c);
            i += 1;
        }
        assert(pixels@.take(i as int) =~= pixels@);
        out
    }
}

/// The access-control byte is the orientation bits OR the pixel-order bit:
/// the top three bits are the orientation's, bit 3 is the pixel order's, and
/// no other bit is set.
pub proof fn access_control_bits(o: Orientation, p: PixelOrder)
    ensures
        madctl_value(o, p) & 0xE0 == orientation_code(o),
        madctl_value(o, p) & 0x08 == pixel_order_code(p),
        madctl_value(o, p) & 0x17 == 0,
{
    let a = orientation_code(o);
    let b = pixel_order_code(p);
    assert(a & 0x1F == 0) by {
        assert(0x00u8 & 0x1F == 0 && 0x60u8 & 0x1F == 0 && 0xC0u8 & 0x1F == 0 && 0xA0u8 & 0x1F
            == 0) by (bit_vector);
    }
    assert(b & 0xF7 == 0) by {
        assert(0x00u8 & 0xF7 == 0 && 0x08u8 & 0xF7 == 0) by (bit_vector);
    }
    assert((a | b) & 0xE0 == a && (a | b) & 0x08 == b && (a | b) & 0x17 == 0) by (bit_vector)
        requires
            a & 0x1F == 0,
            b & 0xF7 == 0,
    ;
}

/// Selecting a window sends exactly two four-byte bursts, columns then rows,
/// then a memory-write instruction with no parameters. Each burst is the
/// offset start and end of its axis, as two 16-bit big-endian values.
pub proof fn address_window_shape(d: DriverState, sx: u16, sy: u16, ex: u16, ey: u16)
    requires
        d.window_fits(sx as int, sy as int, ex as int, ey as int),
    ensures
        ({
            let w = d.window_steps(sx as int, sy as int, ex as int, ey as int);
            &&& w.len() == 5
            &&& w[0] == Step::Command(CASET)
            &&& w[1] == Step::Data(address_bytes(d.offset_x + sx, d.offset_x + ex))
            &&& w[2] == Step::Command(RASET)
            &&& w[3] == Step::Data(address_bytes(d.offset_y + sy, d.offset_y + ey))
            &&& w[4] == Step::Command(RAMWR)
            &&& address_bytes(d.offset_x + sx, d.offset_x + ex).len() == 4
            &&& address_bytes(d.offset_y + sy, d.offset_y + ey).len() == 4
        }),
{
}

/// Writing a pixel is selecting the one-pixel window at it, followed by
/// exactly one two-byte write of the colour.
pub proof fn set_pixel_is_window_then_write(d: DriverState, x: u16, y: u16, color: u16)
    ensures
        d.pixel_steps(x as int, y as int, color) == d.window_steps(
            x as int,
            y as int,
            x as int,
            y as int,
        ) + seq![Step::Data(be_bytes(color as int))],
{
    assert(d.pixel_steps(x as int, y as int, color) =~= d.window_steps(
        x as int,
        y as int,
        x as int,
        y as int,
    ) + seq![Step::Data(be_bytes(color as int))]);
}

/// Setting the same orientation twice sends the same steps both times, and
/// the second call leaves the configuration as the first one left it.
pub proof fn set_orientation_idempotent(d: DriverState, o: Orientation)
    ensures
        d.with_orientation(o).orientation_steps(o) == d.orientation_steps(o),
        d.with_orientation(o).with_orientation(o) == d.with_orientation(o),
{
}

/// Clearing selects the full panel window and then sends exactly
/// width times height writes, each the two bytes of the colour.
pub proof fn clear_is_window_then_fill(d: DriverState, raw: int)
    requires
        d.width >= 1,
        d.height >= 1,
    ensures
        d.clear_steps(raw).subrange(0, 5) == d.window_steps(0, 0, d.width - 1, d.height - 1),
        d.clear_steps(raw).len() == 5 + d.width * d.height,
        forall|i: int|
            5 <= i < d.clear_steps(raw).len() ==> #[trigger] d.clear_steps(raw)[i] == Step::Data(
                be_bytes(raw),
            ),
{
    assert(d.clear_steps(raw).subrange(0, 5) =~= d.window_steps(0, 0, d.width - 1, d.height - 1));
    assert(d.width * d.height >= 0) by (nonlinear_arith)
        requires
            d.width >= 1,
            d.height >= 1,
    ;
}

} // verus!
