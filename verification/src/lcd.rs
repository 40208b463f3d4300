//! Protocol driver for the display controller: frames commands and pixel
//! payloads into bus operations and owns the window arithmetic.

use vstd::prelude::*;
use crate::bus::{
    BusOp, WireByte, as_data, byte_frame, byte_frames, command_frame, data_frames, mode_after,
    received, select_framed, tiled,
};
use crate::bus::{
    lemma_byte_frames_push, lemma_command_frame_framed, lemma_data_frames_framed,
    lemma_received_command_frame, lemma_received_concat, lemma_received_data_frames,
    lemma_select_framed_concat, lemma_tiled_layout,
};

verus! {

/// Width of the visible panel in pixels.
pub const PANEL_WIDTH: u8 = 128;

/// Height of the visible panel in pixels.
pub const PANEL_HEIGHT: u8 = 128;

/// Column of controller memory that shows in the panel's leftmost column.
pub const MARGIN_X: u8 = 2;

/// Row of controller memory that shows in the panel's topmost row.
pub const MARGIN_Y: u8 = 3;

/// Parameter of the colour-mode command that selects twelve bits per pixel.
pub const COLOUR_MODE_444: u8 = 3;

/// Parameter of the memory-access command: colour order and the origin in
/// the panel's top left corner.
pub const MEMORY_ACCESS: u8 = 0xC8;

/// The controller's commands.
#[derive(Clone, Copy, Debug, PartialEq, Eq, Structural)]
pub enum LcdCommand {
    SWRESET,
    SLPOUT,
    NORON,
    INVOFF,
    DISPON,
    CASET,
    RASET,
    RAMWR,
    MADCTL,
    COLMOD,
    FRMCTR1,
    FRMCTR2,
    FRMCTR3,
    INVCTR,
    PWCTR1,
    PWCTR2,
    PWCTR3,
    PWCTR4,
    PWCTR5,
    VMCTR1,
    GMCTRP1,
    GMCTRN1,
}

impl LcdCommand {
    /// The byte that stands for the command on the wire.
    pub open spec fn code(self) -> u8 {
        match self {
            LcdCommand::SWRESET => 0x01,
            LcdCommand::SLPOUT => 0x11,
            LcdCommand::NORON => 0x13,
            LcdCommand::INVOFF => 0x20,
            LcdCommand::DISPON => 0x29,
            LcdCommand::CASET => 0x2A,
            LcdCommand::RASET => 0x2B,
            LcdCommand::RAMWR => 0x2C,
            LcdCommand::MADCTL => 0x36,
            LcdCommand::COLMOD => 0x3A,
            LcdCommand::FRMCTR1 => 0xB1,
            LcdCommand::FRMCTR2 => 0xB2,
            LcdCommand::FRMCTR3 => 0xB3,
            LcdCommand::INVCTR => 0xB4,
            LcdCommand::PWCTR1 => 0xC0,
            LcdCommand::PWCTR2 => 0xC1,
            LcdCommand::PWCTR3 => 0xC2,
            LcdCommand::PWCTR4 => 0xC3,
            LcdCommand::PWCTR5 => 0xC4,
            LcdCommand::VMCTR1 => 0xC5,
            LcdCommand::GMCTRP1 => 0xE0,
            LcdCommand::GMCTRN1 => 0xE1,
        }
    }

    /// The byte that stands for the command on the wire.
    pub fn opcode(self) -> (opcode: u8)
        ensures
            opcode == self.code(),
    {
        match self {
            LcdCommand::SWRESET => 0x01,
            LcdCommand::SLPOUT => 0x11,
            LcdCommand::NORON => 0x13,
            LcdCommand::INVOFF => 0x20,
            LcdCommand::DISPON => 0x29,
            LcdCommand::CASET => 0x2A,
            LcdCommand::RASET => 0x2B,
            LcdCommand::RAMWR => 0x2C,
            LcdCommand::MADCTL => 0x36,
            LcdCommand::COLMOD => 0x3A,
            LcdCommand::FRMCTR1 => 0xB1,
            LcdCommand::FRMCTR2 => 0xB2,
            LcdCommand::FRMCTR3 => 0xB3,
            LcdCommand::INVCTR => 0xB4,
            LcdCommand::PWCTR1 => 0xC0,
            LcdCommand::PWCTR2 => 0xC1,
            LcdCommand::PWCTR3 => 0xC2,
            LcdCommand::PWCTR4 => 0xC3,
            LcdCommand::PWCTR5 => 0xC4,
            LcdCommand::VMCTR1 => 0xC5,
            LcdCommand::GMCTRP1 => 0xE0,
            LcdCommand::GMCTRN1 => 0xE1,
        }
    }
}

/// The operations that transmit a command.
pub open spec fn command_ops(cmd: LcdCommand) -> Seq<BusOp> {
    command_frame(cmd.code())
}

/// A window lies in the panel when it is not empty and none of its pixels
/// falls outside.
pub open spec fn window_in_panel(x: u8, y: u8, width: u8, height: u8) -> bool {
    &&& 1 <= width
    &&& 1 <= height
    &&& x + width <= PANEL_WIDTH
    &&& y + height <= PANEL_HEIGHT
}

/// First and last address of a span of `extent` pixels that starts `offset`
/// pixels behind the margin, each as sixteen bits, high byte first.
pub open spec fn span_bytes(margin: u8, offset: u8, extent: u8) -> Seq<u8> {
    seq![0u8, (margin + offset) as u8, 0u8, (margin + offset + extent - 1) as u8]
}

/// The operations that set the drawing window.
pub open spec fn window_ops(x: u8, y: u8, width: u8, height: u8) -> Seq<BusOp> {
    command_ops(LcdCommand::CASET) + data_frames(span_bytes(MARGIN_X, x, width), 0)
        + command_ops(LcdCommand::RASET) + data_frames(span_bytes(MARGIN_Y, y, height), 0)
}

/// The operations that stream pixel data into the current window: the
/// payload once, then `repeat` more times.
pub open spec fn pixel_ops(data: Seq<u8>, repeat: nat) -> Seq<BusOp> {
    command_ops(LcdCommand::RAMWR) + data_frames(data, repeat)
}

/// The operations that bring the controller out of reset and configure it.
pub open spec fn init_ops() -> Seq<BusOp> {
    seq![BusOp::ReleaseReset, BusOp::Deselect, BusOp::Settle] + command_ops(LcdCommand::SLPOUT)
        + seq![BusOp::Settle] + command_ops(LcdCommand::COLMOD) + data_frames(
        seq![COLOUR_MODE_444],
        0,
    ) + command_ops(LcdCommand::MADCTL) + data_frames(seq![MEMORY_ACCESS], 0)
}

/// The operations that switch the display on.
pub open spec fn display_on_ops() -> Seq<BusOp> {
    command_ops(LcdCommand::DISPON) + seq![BusOp::Settle]
}

/// The window setting is framed byte by byte.
pub proof fn lemma_window_ops_framed(x: u8, y: u8, width: u8, height: u8)
    ensures
        select_framed(window_ops(x, y, width, height)),
{
    let columns = command_ops(LcdCommand::CASET) + data_frames(span_bytes(MARGIN_X, x, width), 0);
    lemma_command_frame_framed(LcdCommand::CASET.code());
    lemma_data_frames_framed(span_bytes(MARGIN_X, x, width), 0);
    lemma_select_framed_concat(
        command_ops(LcdCommand::CASET),
        data_frames(span_bytes(MARGIN_X, x, width), 0),
    );
    lemma_command_frame_framed(LcdCommand::RASET.code());
    lemma_select_framed_concat(columns, command_ops(LcdCommand::RASET));
    lemma_data_frames_framed(span_bytes(MARGIN_Y, y, height), 0);
    lemma_select_framed_concat(
        columns + command_ops(LcdCommand::RASET),
        data_frames(span_bytes(MARGIN_Y, y, height), 0),
    );
}

/// A pixel write is framed byte by byte, however long the payload and
/// however often it is repeated.
pub proof fn lemma_pixel_ops_framed(data: Seq<u8>, repeat: nat)
    ensures
        select_framed(pixel_ops(data, repeat)),
{
    lemma_command_frame_framed(LcdCommand::RAMWR.code());
    lemma_data_frames_framed(data, repeat);
    lemma_select_framed_concat(command_ops(LcdCommand::RAMWR), data_frames(data, repeat));
}

/// The initialisation is framed byte by byte.
pub proof fn lemma_init_ops_framed()
    ensures
        select_framed(init_ops()),
{
    let pins = seq![BusOp::ReleaseReset, BusOp::Deselect, BusOp::Settle];
    let wake = pins + command_ops(LcdCommand::SLPOUT);
    let rest = wake + seq![BusOp::Settle];
    let mode = rest + command_ops(LcdCommand::COLMOD);
    let mode_param = mode + data_frames(seq![COLOUR_MODE_444], 0);
    let access = mode_param + command_ops(LcdCommand::MADCTL);
    lemma_command_frame_framed(LcdCommand::SLPOUT.code());
    lemma_select_framed_concat(pins, command_ops(LcdCommand::SLPOUT));
    lemma_select_framed_concat(wake, seq![BusOp::Settle]);
    lemma_command_frame_framed(LcdCommand::COLMOD.code());
    lemma_select_framed_concat(rest, command_ops(LcdCommand::COLMOD));
    lemma_data_frames_framed(seq![COLOUR_MODE_444], 0);
    lemma_select_framed_concat(mode, data_frames(seq![COLOUR_MODE_444], 0));
    lemma_command_frame_framed(LcdCommand::MADCTL.code());
    lemma_select_framed_concat(mode_param, command_ops(LcdCommand::MADCTL));
    lemma_data_frames_framed(seq![MEMORY_ACCESS], 0);
    lemma_select_framed_concat(access, data_frames(seq![MEMORY_ACCESS], 0));
}

/// Switching the display on is framed.
pub proof fn lemma_display_on_ops_framed()
    ensures
        select_framed(display_on_ops()),
{
    lemma_command_frame_framed(LcdCommand::DISPON.code());
    lemma_select_framed_concat(command_ops(LcdCommand::DISPON), seq![BusOp::Settle]);
}

/// Window arithmetic: for every window in the panel the controller
/// receives the column command with the bytes `0, margin + x, 0,
/// margin + x + width - 1`, then the row command with the bytes `0,
/// margin + y, 0, margin + y + height - 1`, whatever the command/data line
/// said before.
pub proof fn lemma_window_on_wire(x: u8, y: u8, width: u8, height: u8, command: bool)
    requires
        window_in_panel(x, y, width, height),
    ensures
        received(window_ops(x, y, width, height), command) == seq![
            WireByte { command: true, byte: 0x2A },
            WireByte { command: false, byte: 0 },
            WireByte { command: false, byte: (2 + x) as u8 },
            WireByte { command: false, byte: 0 },
            WireByte { command: false, byte: (2 + x + width - 1) as u8 },
            WireByte { command: true, byte: 0x2B },
            WireByte { command: false, byte: 0 },
            WireByte { command: false, byte: (3 + y) as u8 },
            WireByte { command: false, byte: 0 },
            WireByte { command: false, byte: (3 + y + height - 1) as u8 },
        ],
        !mode_after(window_ops(x, y, width, height), command),
        2 + x + width - 1 <= u8::MAX,
        3 + y + height - 1 <= u8::MAX,
{
    let caset = command_ops(LcdCommand::CASET);
    let columns = data_frames(span_bytes(MARGIN_X, x, width), 0);
    let raset = command_ops(LcdCommand::RASET);
    let rows = data_frames(span_bytes(MARGIN_Y, y, height), 0);
    lemma_received_command_frame(LcdCommand::CASET.code(), command);
    lemma_received_concat(caset, columns, command);
    lemma_received_data_frames(span_bytes(MARGIN_X, x, width), 0, true);
    lemma_received_concat(caset + columns, raset, command);
    lemma_received_command_frame(LcdCommand::RASET.code(), false);
    lemma_received_concat(caset + columns + raset, rows, command);
    lemma_received_data_frames(span_bytes(MARGIN_Y, y, height), 0, true);
    reveal_with_fuel(tiled, 2);
    assert(tiled(span_bytes(MARGIN_X, x, width), 1) =~= span_bytes(MARGIN_X, x, width));
    assert(tiled(span_bytes(MARGIN_Y, y, height), 1) =~= span_bytes(MARGIN_Y, y, height));
    assert(received(window_ops(x, y, width, height), command) =~= seq![
        WireByte { command: true, byte: 0x2A },
        WireByte { command: false, byte: 0 },
        WireByte { command: false, byte: (2 + x) as u8 },
        WireByte { command: false, byte: 0 },
        WireByte { command: false, byte: (2 + x + width - 1) as u8 },
        WireByte { command: true, byte: 0x2B },
        WireByte { command: false, byte: 0 },
        WireByte { command: false, byte: (3 + y) as u8 },
        WireByte { command: false, byte: 0 },
        WireByte { command: false, byte: (3 + y + height - 1) as u8 },
    ]);
}

/// Repeat semantics: a pixel write with a repeat count delivers the
/// memory-write command and then the payload exactly `repeat + 1` times,
/// as data, each time byte for byte in the payload's own order.
pub proof fn lemma_pixels_on_wire(data: Seq<u8>, repeat: nat, command: bool)
    ensures
        received(pixel_ops(data, repeat), command) == seq![WireByte { command: true, byte: 0x2C }]
            + as_data(tiled(data, repeat + 1)),
        tiled(data, repeat + 1).len() == (repeat + 1) * data.len(),
        forall|round: int, i: int|
            0 <= round <= repeat && 0 <= i < data.len() ==> #[trigger] tiled(
                data,
                repeat + 1,
            )[round * data.len() + i] == data[i],
{
    lemma_received_command_frame(LcdCommand::RAMWR.code(), command);
    lemma_received_concat(command_ops(LcdCommand::RAMWR), data_frames(data, repeat), command);
    lemma_received_data_frames(data, repeat, true);
    lemma_tiled_layout(data, repeat + 1);
    assert forall|round: int, i: int| 0 <= round <= repeat && 0 <= i < data.len() implies #[trigger] tiled(
        data,
        repeat + 1,
    )[round * data.len() + i] == data[i] by {
        let len = data.len() as int;
        let at = round * len + i;
        assert(0 <= at < (repeat + 1) * len && at % len == i) by (nonlinear_arith)
            requires
                0 <= round <= repeat,
                0 <= i < len,
                at == round * len + i,
        ;
    }
}

/// The display driver. It records, in order, the bus operations that its
/// calls amount to; the owner of the pins takes them out and performs them.
/// The record grows with every call until it is taken out.
pub struct Lcd {
    wire: Vec<BusOp>,
}

impl View for Lcd {
    type V = Seq<BusOp>;

    /// The operations recorded and not yet taken out, oldest first.
    closed spec fn view(&self) -> Seq<BusOp> {
        self.wire@
    }
}

impl Lcd {
    /// Between calls the record is framed: device-select goes down and up
    /// again around every single byte.
    pub open spec fn wf(&self) -> bool {
        select_framed(self@)
    }

    /// A driver that has recorded nothing yet.
    pub fn new() -> (lcd: Lcd)
        ensures
            lcd.wf(),
            lcd@ == Seq::<BusOp>::empty(),
    {
        Lcd { wire: Vec::new() }
    }

    /// Hands over the recorded operations and starts recording afresh.
    pub fn take_pending(&mut self) -> (ops: Vec<BusOp>)
        requires
            old(self).wf(),
        ensures
            final(self).wf(),
            ops@ == old(self)@,
            select_framed(ops@),
            final(self)@ == Seq::<BusOp>::empty(),
    {
        let mut ops: Vec<BusOp> = Vec::new();
        std::mem::swap(&mut self.wire, &mut ops);
        ops
    }

    /// Releases the controller from reset, wakes it, and selects twelve-bit
    /// colour and the panel's orientation. Reset is held asserted from
    /// power-up until this call.
    pub fn init(&mut self)
        requires
            old(self).wf(),
        ensures
            final(self).wf(),
            final(self)@ == old(self)@ + init_ops(),
    {
        self.reset_high();
        self.cs_high();

        self.mini_delay();

        self.write_command(LcdCommand::SLPOUT);
        self.mini_delay();

        let colmod_param: [u8; 1] = [COLOUR_MODE_444];
        self.write_command(LcdCommand::COLMOD);
        self.write_data(&colmod_param, 0);

        let madctl_param: [u8; 1] = [MEMORY_ACCESS];
        self.write_command(LcdCommand::MADCTL);
        self.write_data(&madctl_param, 0);
        proof {
            assert(colmod_param@ =~= seq![COLOUR_MODE_444]);
            assert(madctl_param@ =~= seq![MEMORY_ACCESS]);
            assert(self@ =~= old(self)@ + init_ops());
            lemma_init_ops_framed();
            lemma_select_framed_concat(old(self)@, init_ops());
        }
    }

    /// Switches the display on and lets it settle.
    pub fn display_on(&mut self)
        requires
            old(self).wf(),
        ensures
            final(self).wf(),
            final(self)@ == old(self)@ + display_on_ops(),
    {
        self.write_command(LcdCommand::DISPON);
        self.mini_delay();
        proof {
            assert(self@ =~= old(self)@ + display_on_ops());
            lemma_display_on_ops_framed();
            lemma_select_framed_concat(old(self)@, display_on_ops());
        }
    }

    /// Tells whether a window lies in the panel.
    pub fn fits_panel(x: u8, y: u8, width: u8, height: u8) -> (fits: bool)
        ensures
            fits == window_in_panel(x, y, width, height),
    {
        width >= 1 && height >= 1 && width <= PANEL_WIDTH && x <= PANEL_WIDTH - width && height
            <= PANEL_HEIGHT && y <= PANEL_HEIGHT - height
    }

    /// Sets the window that the next pixel data is written into: the column
    /// range first, then the row range, both shifted by the margin.
    pub fn set_drawing_area(&mut self, x: u8, y: u8, width: u8, height: u8)
        requires
            old(self).wf(),
            window_in_panel(x, y, width, height),
        ensures
            final(self).wf(),
            final(self)@ == old(self)@ + window_ops(x, y, width, height),
    {
        let columns: [u8; 4] = [0, MARGIN_X + x, 0, MARGIN_X + x + width - 1];
        self.write_command(LcdCommand::CASET);
        self.write_data(&columns, 0);

        let rows: [u8; 4] = [0, MARGIN_Y + y, 0, MARGIN_Y + y + height - 1];
        self.write_command(LcdCommand::RASET);
        self.write_data(&rows, 0);
        proof {
            assert(columns@ =~= span_bytes(MARGIN_X, x, width));
            assert(rows@ =~= span_bytes(MARGIN_Y, y, height));
            assert(self@ =~= old(self)@ + window_ops(x, y, width, height));
            lemma_window_ops_framed(x, y, width, height);
            lemma_select_framed_concat(old(self)@, window_ops(x, y, width, height));
        }
    }

    /// Streams pixel data into the current window, once.
    pub fn draw_pixels(&mut self, data: &[u8])
        requires
            old(self).wf(),
        ensures
            final(self).wf(),
            final(self)@ == old(self)@ + pixel_ops(data@, 0),
    {
        self.write_command(LcdCommand::RAMWR);
        self.write_data(data, 0);
        proof {
            assert(self@ =~= old(self)@ + pixel_ops(data@, 0));
            lemma_pixel_ops_framed(data@, 0);
            lemma_select_framed_concat(old(self)@, pixel_ops(data@, 0));
        }
    }

    /// Streams pixel data into the current window, once and then `repeat`
    /// more times.
    pub fn draw_pixels_repeatedly(&mut self, data: &[u8], repeat: usize)
        requires
            old(self).wf(),
        ensures
            final(self).wf(),
            final(self)@ == old(self)@ + pixel_ops(data@, repeat as nat),
    {
        self.write_command(LcdCommand::RAMWR);
        self.write_data(data, repeat);
        proof {
            assert(self@ =~= old(self)@ + pixel_ops(data@, repeat as nat));
            lemma_pixel_ops_framed(data@, repeat as nat);
            lemma_select_framed_concat(old(self)@, pixel_ops(data@, repeat as nat));
        }
    }

    fn cs_high(&mut self)
        ensures
            final(self)@ == old(self)@.push(BusOp::Deselect),
    {
        self.wire.push(BusOp::Deselect);
    }

    fn cs_low(&mut self)
        ensures
            final(self)@ == old(self)@.push(BusOp::Select),
    {
        self.wire.push(BusOp::Select);
    }

    fn reset_high(&mut self)
        ensures
            final(self)@ == old(self)@.push(BusOp::ReleaseReset),
    {
        self.wire.push(BusOp::ReleaseReset);
    }

    fn dcx_high(&mut self)
        ensures
            final(self)@ == old(self)@.push(BusOp::DataMode),
    {
        self.wire.push(BusOp::DataMode);
    }

    fn dcx_low(&mut self)
        ensures
            final(self)@ == old(self)@.push(BusOp::CommandMode),
    {
        self.wire.push(BusOp::CommandMode);
    }

    fn await_idle(&mut self)
        ensures
            final(self)@ == old(self)@.push(BusOp::AwaitIdle),
    {
        self.wire.push(BusOp::AwaitIdle);
    }

    fn transmit(&mut self, byte: u8)
        ensures
            final(self)@ == old(self)@.push(BusOp::Write(byte)),
    {
        self.wire.push(BusOp::Write(byte));
    }

    fn mini_delay(&mut self)
        ensures
            final(self)@ == old(self)@.push(BusOp::Settle),
    {
        self.wire.push(BusOp::Settle);
    }

    /// Sends one command byte: waits until the channel is idle, puts the
    /// command/data line to "command", asserts device-select, transmits,
    /// waits for the transfer to complete and releases device-select.
    fn write_command(&mut self, cmd: LcdCommand)
        ensures
            final(self)@ == old(self)@ + command_ops(cmd),
    {
        self.await_idle();
        self.dcx_low();
        self.cs_low();
        self.transmit(cmd.opcode());
        self.await_idle();
        self.cs_high();
        assert(self@ =~= old(self)@ + command_ops(cmd));
    }

    /// Sends a payload once and then `repeat` more times. The channel is
    /// awaited once at the start; device-select goes down and up again
    /// around every single byte, which the controller needs to tell the
    /// bytes apart.
    fn write_data(&mut self, data: &[u8], repeat: usize)
        ensures
            final(self)@ == old(self)@ + data_frames(data@, repeat as nat),
    {
        self.await_idle();
        let ghost start = self@;
        let mut round: usize = 0;
        loop
            invariant_except_break
                round <= repeat,
                self@ == start + byte_frames(tiled(data@, round as nat)),
            ensures
                self@ == start + byte_frames(tiled(data@, (repeat + 1) as nat)),
            decreases repeat - round,
        {
            let ghost before = tiled(data@, round as nat);
            let mut i: usize = 0;
            while i < data.len()
                invariant
                    i <= data.len(),
                    self@ == start + byte_frames(before + data@.take(i as int)),
                decreases data.len() - i,
            {
                let ghost sent = before + data@.take(i as int);
                self.dcx_high();
                self.cs_low();
                self.transmit(data[i]);
                self.await_idle();
                self.cs_high();
                proof {
                    lemma_byte_frames_push(sent, data@[i as int]);
                    assert(sent.push(data@[i as int]) =~= before + data@.take(i + 1));
                    assert(self@ =~= start + byte_frames(sent) + byte_frame(data@[i as int]));
                    assert(start + byte_frames(sent) + byte_frame(data@[i as int]) =~= start + (
                    byte_frames(sent) + byte_frame(data@[i as int])));
                }
                i += 1;
            }
            assert(data@.take(data.len() as int) =~= data@);
            assert(before + data@ == tiled(data@, (round + 1) as nat));
            if round == repeat {
                break ;
            }
            round += 1;
        }
        assert(self@ =~= old(self)@ + data_frames(data@, repeat as nat));
    }
}

} // verus!
