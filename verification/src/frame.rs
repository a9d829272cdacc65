use vstd::prelude::*;

verus! {

/// Offset of the frame control byte that carries the frame type.
pub const IEEE802154_FRAME_TYPE_OFFSET: usize = 1;
/// Mask of the frame type bits in the frame control byte.
pub const IEEE802154_FRAME_TYPE_MASK: u8 = 0x07;
/// Beacon frame.
pub const IEEE802154_FRAME_TYPE_BEACON: u8 = 0x00;
/// Data frame.
pub const IEEE802154_FRAME_TYPE_DATA: u8 = 0x01;
/// Acknowledgment frame.
pub const IEEE802154_FRAME_TYPE_ACK: u8 = 0x02;
/// MAC command frame.
pub const IEEE802154_FRAME_TYPE_COMMAND: u8 = 0x03;

/// Energy detected on the channel that is reported when a beacon or a MAC
/// command frame arrives.
pub const ENERGY_DETECT_RSS: i8 = 16;

/// Size of the PSDU buffer that a received frame is copied into.
pub const RECEIVE_PSDU_SIZE: usize = 127;

/// Radio type recorded in every received frame.
pub const RECEIVED_RADIO_TYPE: u8 = 1;

/// Whether a frame type is one that the radio driver handles.
pub fn is_supported_frame_type_raw(frame_type: u8) -> (r: bool)
    ensures
        r == (frame_type == IEEE802154_FRAME_TYPE_BEACON || frame_type == IEEE802154_FRAME_TYPE_DATA
            || frame_type == IEEE802154_FRAME_TYPE_ACK || frame_type
            == IEEE802154_FRAME_TYPE_COMMAND),
{
    frame_type == IEEE802154_FRAME_TYPE_BEACON || frame_type == IEEE802154_FRAME_TYPE_DATA
        || frame_type == IEEE802154_FRAME_TYPE_ACK || frame_type == IEEE802154_FRAME_TYPE_COMMAND
}

/// The frame type of a raw received buffer: the low three bits of the byte
/// after the length byte, or beacon when the buffer is too short to hold it.
pub open spec fn spec_frame_type(frame: Seq<u8>) -> u8 {
    if frame.len() <= IEEE802154_FRAME_TYPE_OFFSET {
        IEEE802154_FRAME_TYPE_BEACON
    } else {
        frame[IEEE802154_FRAME_TYPE_OFFSET as int] & IEEE802154_FRAME_TYPE_MASK
    }
}

/// Reads the frame type of a raw received buffer (length byte first).
pub fn frame_get_type(frame: &[u8]) -> (r: u8)
    ensures
        r == spec_frame_type(frame@),
        r < 8,
{
    if frame.len() <= IEEE802154_FRAME_TYPE_OFFSET {
        return 0;
    }
    let b = frame[IEEE802154_FRAME_TYPE_OFFSET];
    assert(b & 0x07u8 < 8) by (bit_vector);
    b & IEEE802154_FRAME_TYPE_MASK
}

/// Link quality that a received signal strength maps to: `0` below -80 dBm,
/// `255` above -30 dBm, and linear in between.
pub open spec fn spec_rssi_to_lqi(rssi: i8) -> u8 {
    if rssi < -80 {
        0
    } else if rssi > -30 {
        255
    } else {
        (((rssi + 80) * 255) / 50) as u8
    }
}

/// Maps a received signal strength (dBm) to a link quality indicator.
pub fn rssi_to_lqi(rssi: i8) -> (r: u8)
    ensures
        r == spec_rssi_to_lqi(rssi),
        rssi < -80 ==> r == 0,
        -80 <= rssi <= -30 ==> r as int == (rssi as int + 80) * 255 / 50,
        rssi > -30 ==> r == 255,
{
    if rssi < -80 {
        0
    } else if rssi > -30 {
        0xff
    } else {
        let shifted: u32 = (rssi as i32 + 80) as u32;
        assert(shifted * 255 / 50 <= 255) by (nonlinear_arith)
            requires
                shifted <= 50,
        ;
        ((shifted * 255) / 50) as u8
    }
}

/// Link quality is zero below -80 dBm, `(rssi + 80) * 255 / 50` from -80
/// to -30 dBm, and saturates at 255 exactly from -30 dBm on; it never
/// falls as the signal grows stronger.
pub proof fn lemma_rssi_to_lqi(a: i8, b: i8)
    ensures
        a < -80 ==> spec_rssi_to_lqi(a) == 0,
        -80 <= a <= -30 ==> spec_rssi_to_lqi(a) as int == (a as int + 80) * 255 / 50,
        a > -30 ==> spec_rssi_to_lqi(a) == 255,
        (spec_rssi_to_lqi(a) == 255) <==> a >= -30,
        a <= b ==> spec_rssi_to_lqi(a) <= spec_rssi_to_lqi(b),
{
    if -80 <= a <= -30 {
        let x = a as int + 80;
        assert(0 <= x * 255 / 50 <= 255) by (nonlinear_arith)
            requires
                0 <= x <= 50,
        ;
        assert(x < 50 ==> x * 255 / 50 < 255) by (nonlinear_arith)
            requires
                0 <= x <= 50,
        ;
    }
    if -80 <= b <= -30 {
        let y = b as int + 80;
        assert(0 <= y * 255 / 50 <= 255) by (nonlinear_arith)
            requires
                0 <= y <= 50,
        ;
    }
    if -80 <= a <= b <= -30 {
        let x = a as int + 80;
        let y = b as int + 80;
        assert(x * 255 / 50 <= y * 255 / 50) by (nonlinear_arith)
            requires
                0 <= x <= y,
        ;
    }
}

/// Index of the byte that carries the signal strength of a received data
/// frame: the byte before the end given by the length byte, clamped to the
/// buffer.
pub open spec fn spec_rssi_index(data: Seq<u8>) -> int {
    if (data[0] as int) < data.len() {
        if data[0] == 0 {
            0
        } else {
            data[0] - 1
        }
    } else {
        data.len() - 1
    }
}

/// Number of PSDU bytes that are handed on from a received data frame: the
/// length byte, or, when that exceeds the PSDU buffer, as much as both the
/// PSDU buffer and the received buffer hold.
pub open spec fn spec_psdu_len(data: Seq<u8>) -> int {
    if data[0] as int > RECEIVE_PSDU_SIZE {
        if data.len() - 1 >= RECEIVE_PSDU_SIZE {
            RECEIVE_PSDU_SIZE as int
        } else {
            data.len() - 1
        }
    } else {
        data[0] as int
    }
}

/// The inputs on which a data frame can be handed on: the length byte,
/// where it fits the PSDU buffer, must also fit the received bytes, and the
/// timestamp in microseconds must fit in 64 bits.
pub open spec fn receivable(data: Seq<u8>, now_millis: u64) -> bool {
    spec_frame_type(data) == IEEE802154_FRAME_TYPE_DATA ==> {
        &&& data[0] as int <= RECEIVE_PSDU_SIZE ==> data[0] as int <= data.len() - 1
        &&& now_millis * 1000 <= u64::MAX
    }
}

/// A received data frame, ready to be handed to the stack.
#[derive(Debug)]
pub struct ReceivedFrame {
    /// The PSDU bytes.
    pub psdu: Vec<u8>,
    /// Channel the frame was received on.
    pub channel: u8,
    /// Radio type.
    pub radio_type: u8,
    /// Received signal strength in dBm.
    pub rssi: i8,
    /// Link quality indicator.
    pub lqi: u8,
    /// Receive time in microseconds.
    pub timestamp: u64,
}

/// What is to be done with a frame that the radio received.
#[derive(Debug)]
pub enum ReceivedAction {
    /// A data frame: hand it to the stack.
    Deliver(ReceivedFrame),
    /// A beacon or MAC command frame: report an energy scan as done with this energy.
    EnergyScanDone(i8),
    /// An acknowledgment frame: nothing to do.
    Ack,
    /// Any other frame type: drop it.
    Drop,
}

/// Decides what to do with a raw received buffer (length byte first,
/// signal strength after the PSDU) that arrived on `channel` at `now_millis`.
pub fn classify_received(data: &[u8], channel: u8, now_millis: u64) -> (r: ReceivedAction)
    requires
        receivable(data@, now_millis),
    ensures
        (r is Deliver) <==> spec_frame_type(data@) == IEEE802154_FRAME_TYPE_DATA,
        (r is EnergyScanDone) <==> (spec_frame_type(data@) == IEEE802154_FRAME_TYPE_BEACON
            || spec_frame_type(data@) == IEEE802154_FRAME_TYPE_COMMAND),
        (r is Ack) <==> spec_frame_type(data@) == IEEE802154_FRAME_TYPE_ACK,
        (r is Drop) <==> spec_frame_type(data@) > IEEE802154_FRAME_TYPE_COMMAND,
        r matches ReceivedAction::EnergyScanDone(rss) ==> rss == ENERGY_DETECT_RSS,
        r matches ReceivedAction::Deliver(f) ==> {
            &&& f.psdu@ == data@.subrange(1, 1 + spec_psdu_len(data@))
            &&& f.psdu@.len() <= RECEIVE_PSDU_SIZE
            &&& f.channel == channel
            &&& f.radio_type == RECEIVED_RADIO_TYPE
            &&& f.rssi == data@[spec_rssi_index(data@)] as i8
            &&& f.lqi == spec_rssi_to_lqi(f.rssi)
            &&& f.timestamp == now_millis * 1000
        },
{
    let frame_type = frame_get_type(data);
    if frame_type == IEEE802154_FRAME_TYPE_DATA {
        let first = data[0] as usize;
        let idx: usize = if first < data.len() {
            if first == 0 {
                0
            } else {
                first - 1
            }
        } else {
            data.len() - 1
        };
        let rssi = data[idx] as i8;
        let rest = data.len() - 1;
        let len: usize = if first > RECEIVE_PSDU_SIZE && rest >= RECEIVE_PSDU_SIZE {
            RECEIVE_PSDU_SIZE
        } else if first > RECEIVE_PSDU_SIZE && rest < RECEIVE_PSDU_SIZE {
            rest
        } else {
            first
        };
        let mut psdu: Vec<u8> = Vec::new();
        let mut i: usize = 0;
        while i < len
            invariant
                len <= data.len() - 1,
                i <= len,
                psdu@ == data@.subrange(1, 1 + i as int),
            decreases len - i,
        {
            psdu.push(data[1 + i]);
            i += 1;
        }
        ReceivedAction::Deliver(
            ReceivedFrame {
                psdu,
                channel,
                radio_type: RECEIVED_RADIO_TYPE,
                rssi,
                lqi: rssi_to_lqi(rssi),
                timestamp: now_millis * 1000,
            },
        )
    } else if frame_type == IEEE802154_FRAME_TYPE_BEACON || frame_type
        == IEEE802154_FRAME_TYPE_COMMAND {
        ReceivedAction::EnergyScanDone(ENERGY_DETECT_RSS)
    } else if frame_type == IEEE802154_FRAME_TYPE_ACK {
        ReceivedAction::Ack
    } else {
        ReceivedAction::Drop
    }
}

} // verus!
