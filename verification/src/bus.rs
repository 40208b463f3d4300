//! The serial channel to the display, as a sequence of elementary
//! operations. The driver decides which operations happen and in which
//! order; carrying them out on the pins is left to the caller.

use vstd::prelude::*;

verus! {

/// One elementary operation on the display's serial channel.
#[derive(Clone, Copy, Debug, PartialEq, Eq, Structural)]
pub enum BusOp {
    /// Block until the channel reports that no transfer is in flight.
    AwaitIdle,
    /// Drive the command/data line to "command".
    CommandMode,
    /// Drive the command/data line to "data".
    DataMode,
    /// Assert device-select.
    Select,
    /// Deassert device-select.
    Deselect,
    /// Deassert the controller's reset line.
    ReleaseReset,
    /// Hand one byte to the transmitter.
    Write(u8),
    /// Let the controller settle for the fixed minimum delay.
    Settle,
}

/// The operations that transmit one command byte.
pub open spec fn command_frame(opcode: u8) -> Seq<BusOp> {
    seq![
        BusOp::AwaitIdle,
        BusOp::CommandMode,
        BusOp::Select,
        BusOp::Write(opcode),
        BusOp::AwaitIdle,
        BusOp::Deselect,
    ]
}

/// The operations that transmit one data byte: device-select goes down and
/// up again around this byte alone.
pub open spec fn byte_frame(byte: u8) -> Seq<BusOp> {
    seq![BusOp::DataMode, BusOp::Select, BusOp::Write(byte), BusOp::AwaitIdle, BusOp::Deselect]
}

/// The frames of a run of data bytes, one after the other.
pub open spec fn byte_frames(bytes: Seq<u8>) -> Seq<BusOp>
    decreases bytes.len(),
{
    if bytes.len() == 0 {
        Seq::empty()
    } else {
        byte_frames(bytes.drop_last()) + byte_frame(bytes.last())
    }
}

/// `pattern` written out `times` times in a row.
pub open spec fn tiled(pattern: Seq<u8>, times: nat) -> Seq<u8>
    decreases times,
{
    if times == 0 {
        Seq::empty()
    } else {
        tiled(pattern, (times - 1) as nat) + pattern
    }
}

/// The operations that transmit a payload once and then `repeat` more times.
pub open spec fn data_frames(payload: Seq<u8>, repeat: nat) -> Seq<BusOp> {
    seq![BusOp::AwaitIdle] + byte_frames(tiled(payload, repeat + 1))
}

/// Appending one byte to a run appends its frame.
pub proof fn lemma_byte_frames_push(bytes: Seq<u8>, byte: u8)
    ensures
        byte_frames(bytes.push(byte)) == byte_frames(bytes) + byte_frame(byte),
{
    assert(bytes.push(byte).drop_last() =~= bytes);
}

/// A tiling holds `times` copies of the pattern back to back: its length is
/// `times` pattern lengths, and its byte at any position is the pattern's
/// byte at that position modulo the pattern length.
pub proof fn lemma_tiled_layout(pattern: Seq<u8>, times: nat)
    ensures
        tiled(pattern, times).len() == times * pattern.len(),
        forall|i: int|
            0 <= i < times * pattern.len() ==> #[trigger] tiled(pattern, times)[i] == pattern[i % (
            pattern.len() as int)],
    decreases times,
{
    if times == 0 {
        assert(times * pattern.len() == 0) by (nonlinear_arith)
            requires
                times == 0,
        ;
    } else {
        let fewer = (times - 1) as nat;
        lemma_tiled_layout(pattern, fewer);
        assert(times * pattern.len() == fewer * pattern.len() + pattern.len())
            by (nonlinear_arith)
            requires
                times == fewer + 1,
        ;
        assert forall|i: int| 0 <= i < times * pattern.len() implies #[trigger] tiled(
            pattern,
            times,
        )[i] == pattern[i % (pattern.len() as int)] by {
            let len = pattern.len() as int;
            if i >= fewer * len {
                assert(i % len == i - fewer * len) by (nonlinear_arith)
                    requires
                        fewer * len <= i < fewer * len + len,
                        len > 0,
                        fewer >= 0,
                ;
            }
        }
    }
}

/// One byte as the controller receives it: the level of the command/data
/// line while it is clocked in, and the byte.
pub struct WireByte {
    pub command: bool,
    pub byte: u8,
}

/// Whether the command/data line says "command" after a series of
/// operations, given what it said before.
pub open spec fn mode_after(ops: Seq<BusOp>, command: bool) -> bool
    decreases ops.len(),
{
    if ops.len() == 0 {
        command
    } else {
        match ops.last() {
            BusOp::CommandMode => true,
            BusOp::DataMode => false,
            _ => mode_after(ops.drop_last(), command),
        }
    }
}

/// The bytes that the controller receives from a series of operations, in
/// order, given what the command/data line said before.
pub open spec fn received(ops: Seq<BusOp>, command: bool) -> Seq<WireByte>
    decreases ops.len(),
{
    if ops.len() == 0 {
        Seq::empty()
    } else {
        let earlier = received(ops.drop_last(), command);
        match ops.last() {
            BusOp::Write(byte) => earlier.push(
                WireByte { command: mode_after(ops.drop_last(), command), byte },
            ),
            _ => earlier,
        }
    }
}

/// A run of bytes, each received as data.
pub open spec fn as_data(bytes: Seq<u8>) -> Seq<WireByte> {
    Seq::new(bytes.len(), |i: int| WireByte { command: false, byte: bytes[i] })
}

/// Device-select frames every byte on its own: each write comes right
/// after device-select is asserted, and is followed by the wait for its
/// completion and by the release of device-select.
pub open spec fn select_framed(ops: Seq<BusOp>) -> bool {
    forall|i: int|
        0 <= i < ops.len() && #[trigger] ops[i] is Write ==> {
            &&& 1 <= i
            &&& i + 2 < ops.len()
            &&& ops[i - 1] == BusOp::Select
            &&& ops[i + 1] == BusOp::AwaitIdle
            &&& ops[i + 2] == BusOp::Deselect
        }
}

/// What the controller receives from two series of operations in a row is
/// what it receives from the first, followed by what it receives from the
/// second with the line as the first left it.
pub proof fn lemma_received_concat(first: Seq<BusOp>, second: Seq<BusOp>, command: bool)
    ensures
        mode_after(first + second, command) == mode_after(second, mode_after(first, command)),
        received(first + second, command) == received(first, command) + received(
            second,
            mode_after(first, command),
        ),
    decreases second.len(),
{
    if second.len() == 0 {
        assert(first + second =~= first);
        assert(received(first, command) + Seq::<WireByte>::empty() =~= received(first, command));
    } else {
        lemma_received_concat(first, second.drop_last(), command);
        assert((first + second).drop_last() =~= first + second.drop_last());
        assert((first + second).last() == second.last());
        let middle = mode_after(first, command);
        match second.last() {
            BusOp::Write(byte) => {
                let item = WireByte { command: mode_after(second.drop_last(), middle), byte };
                assert(received(first, command) + received(second.drop_last(), middle).push(item)
                    =~= (received(first, command) + received(second.drop_last(), middle)).push(
                    item,
                ));
            },
            _ => {},
        }
    }
}

/// A command frame delivers its opcode as a command and leaves the line at
/// "command".
pub proof fn lemma_received_command_frame(opcode: u8, command: bool)
    ensures
        mode_after(command_frame(opcode), command),
        received(command_frame(opcode), command) == seq![WireByte { command: true, byte: opcode }],
{
    let frame = command_frame(opcode);
    reveal_with_fuel(mode_after, 7);
    reveal_with_fuel(received, 7);
    let f5 = frame.drop_last();
    let f4 = f5.drop_last();
    let f3 = f4.drop_last();
    let f2 = f3.drop_last();
    let f1 = f2.drop_last();
    let f0 = f1.drop_last();
    assert(f0.len() == 0);
    assert(received(frame, command) =~= seq![WireByte { command: true, byte: opcode }]);
}

/// The frame of a data byte delivers the byte as data and leaves the line
/// at "data".
pub proof fn lemma_received_byte_frame(byte: u8, command: bool)
    ensures
        !mode_after(byte_frame(byte), command),
        received(byte_frame(byte), command) == seq![WireByte { command: false, byte }],
{
    let frame = byte_frame(byte);
    reveal_with_fuel(mode_after, 6);
    reveal_with_fuel(received, 6);
    let f4 = frame.drop_last();
    let f3 = f4.drop_last();
    let f2 = f3.drop_last();
    let f1 = f2.drop_last();
    let f0 = f1.drop_last();
    assert(f0.len() == 0);
    assert(received(frame, command) =~= seq![WireByte { command: false, byte }]);
}

/// The frames of a run of bytes deliver exactly these bytes, in order, all
/// as data.
pub proof fn lemma_received_byte_frames(bytes: Seq<u8>, command: bool)
    ensures
        received(byte_frames(bytes), command) == as_data(bytes),
        mode_after(byte_frames(bytes), command) == (bytes.len() == 0 && command),
    decreases bytes.len(),
{
    if bytes.len() == 0 {
        assert(received(byte_frames(bytes), command) =~= as_data(bytes));
    } else {
        let earlier = bytes.drop_last();
        lemma_received_byte_frames(earlier, command);
        lemma_received_concat(byte_frames(earlier), byte_frame(bytes.last()), command);
        lemma_received_byte_frame(bytes.last(), mode_after(byte_frames(earlier), command));
        assert(as_data(earlier) + seq![WireByte { command: false, byte: bytes.last() }] =~= as_data(
            bytes,
        ));
    }
}

/// A payload sent with a repeat count reaches the controller `repeat + 1`
/// times in a row, as data, byte for byte in the payload's order.
pub proof fn lemma_received_data_frames(payload: Seq<u8>, repeat: nat, command: bool)
    ensures
        received(data_frames(payload, repeat), command) == as_data(tiled(payload, repeat + 1)),
        mode_after(data_frames(payload, repeat), command) == (payload.len() == 0 && command),
{
    let lead = seq![BusOp::AwaitIdle];
    let bytes = tiled(payload, repeat + 1);
    lemma_received_concat(lead, byte_frames(bytes), command);
    lemma_received_byte_frames(bytes, command);
    lemma_tiled_layout(payload, repeat + 1);
    reveal_with_fuel(received, 2);
    reveal_with_fuel(mode_after, 2);
    assert(lead.drop_last().len() == 0);
    assert(received(lead, command) =~= Seq::<WireByte>::empty());
    assert(mode_after(lead, command) == command);
    assert(Seq::<WireByte>::empty() + as_data(bytes) =~= as_data(bytes));
    assert((bytes.len() == 0) == (payload.len() == 0)) by (nonlinear_arith)
        requires
            bytes.len() == (repeat + 1) * payload.len(),
    ;
}

/// Two framed series of operations in a row are framed.
pub proof fn lemma_select_framed_concat(first: Seq<BusOp>, second: Seq<BusOp>)
    requires
        select_framed(first),
        select_framed(second),
    ensures
        select_framed(first + second),
{
    let both = first + second;
    assert forall|i: int| 0 <= i < both.len() && #[trigger] both[i] is Write implies {
        &&& 1 <= i
        &&& i + 2 < both.len()
        &&& both[i - 1] == BusOp::Select
        &&& both[i + 1] == BusOp::AwaitIdle
        &&& both[i + 2] == BusOp::Deselect
    } by {
        if i < first.len() {
            assert(first[i] is Write);
        } else {
            assert(second[i - first.len()] is Write);
        }
    }
}

/// A command frame is framed.
pub proof fn lemma_command_frame_framed(opcode: u8)
    ensures
        select_framed(command_frame(opcode)),
{
}

/// The frames of a run of data bytes are framed.
pub proof fn lemma_byte_frames_framed(bytes: Seq<u8>)
    ensures
        select_framed(byte_frames(bytes)),
    decreases bytes.len(),
{
    if bytes.len() > 0 {
        lemma_byte_frames_framed(bytes.drop_last());
        lemma_select_framed_concat(byte_frames(bytes.drop_last()), byte_frame(bytes.last()));
    }
}

/// A payload sent with a repeat count is framed byte by byte.
pub proof fn lemma_data_frames_framed(payload: Seq<u8>, repeat: nat)
    ensures
        select_framed(data_frames(payload, repeat)),
{
    lemma_byte_frames_framed(tiled(payload, repeat + 1));
    lemma_select_framed_concat(seq![BusOp::AwaitIdle], byte_frames(tiled(payload, repeat + 1)));
}

} // verus!
