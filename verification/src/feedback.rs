use vstd::prelude::*;

use rustypot::servo::conversion::Conversion;
use rustypot::servo::feetech::scs0009::BigEndian_i16;

verus! {

/// First register of the feedback block that one read covers (present
/// position, speed, load, voltage and temperature).
pub const FEEDBACK_START_REGISTER: u8 = 56;

/// Number of bytes of the feedback block.
pub const FEEDBACK_BLOCK_LEN: u8 = 8;

/// One servo's feedback block, decoded to the integers it holds.
///
/// `position_raw` and `speed_raw` are the register words as read (least
/// significant byte first); the servo library turns them into radians and
/// radians per second. `load` is the signed load, `voltage_raw` the voltage
/// register and `temperature_c` the temperature in degrees.
#[derive(Clone, Copy, Debug, PartialEq, Eq, Structural)]
pub struct RawServoFeedback {
    pub id: u8,
    pub position_raw: i16,
    pub speed_raw: u16,
    pub load: i16,
    pub voltage_raw: u8,
    pub temperature_c: u8,
}

/// Why a feedback block could not be decoded.
#[derive(Clone, Copy, Debug, PartialEq, Eq, Structural)]
pub enum FeedbackReadError {
    /// The servo answered with `len` bytes where the block has eight.
    WrongLength { id: u8, len: usize },
}

/// The word that two bytes hold, least significant byte first.
pub open spec fn le_word(lo: u8, hi: u8) -> u16 {
    (lo + 256 * hi) as u16
}

/// A word read as a two's-complement signed number.
pub open spec fn signed_word(word: u16) -> i16 {
    if word >= 32768 {
        (word - 65536) as i16
    } else {
        word as i16
    }
}

/// A word with its two bytes exchanged.
pub open spec fn swap_bytes(word: u16) -> u16 {
    ((word % 256) * 256 + word / 256) as u16
}

/// The servo's signed load encoding: ten bits of magnitude, negative when the
/// word exceeds 1024.
pub open spec fn sign_magnitude_load(word: u16) -> i16 {
    if word > 1024 {
        (-((word % 1024) as int)) as i16
    } else {
        (word % 1024) as i16
    }
}

/// The loads that a load register word may stand for: the library puts the
/// word in big-endian order first, which exchanges its bytes on a
/// little-endian host and keeps them on a big-endian one.
pub open spec fn is_load_of(load: i16, word: u16) -> bool {
    load == sign_magnitude_load(swap_bytes(word)) || load == sign_magnitude_load(word)
}

/// Calls `BigEndian_i16::from_raw` of the servo library (`rustypot`), which
/// converts the load register word: it takes `word.to_be()` and returns minus
/// its low ten bits when that value exceeds 1024, else its low ten bits.
/// Stated: the result is that decoding of the word with its bytes exchanged
/// (a little-endian host) or of the word itself (a big-endian host); which of
/// the two depends on the host's byte order and is not stated.
#[verifier::external_body]
fn load_from_register(word: u16) -> (load: i16)
    ensures
        is_load_of(load, word),
{
    BigEndian_i16::from_raw(word)
}

/// Decodes the feedback block that servo `id` answered with.
pub fn decode_feedback(id: u8, row: &Vec<u8>) -> (decoded: Result<RawServoFeedback, FeedbackReadError>)
    ensures
        decoded is Err <==> row@.len() != 8,
        decoded matches Err(e) ==> e == (FeedbackReadError::WrongLength { id, len: row@.len() as usize }),
        decoded matches Ok(f) ==> {
            &&& f.id == id
            &&& f.position_raw == signed_word(le_word(row@[0], row@[1]))
            &&& f.speed_raw == le_word(row@[2], row@[3])
            &&& is_load_of(f.load, le_word(row@[4], row@[5]))
            &&& f.voltage_raw == row@[6]
            &&& f.temperature_c == row@[7]
        },
{
    if row.len() != 8 {
        return Err(FeedbackReadError::WrongLength { id, len: row.len() });
    }
    let position_word: u16 = row[0] as u16 + 256 * (row[1] as u16);
    let position_raw: i16 = if position_word >= 32768 {
        (position_word as i32 - 65536) as i16
    } else {
        position_word as i16
    };
    let speed_raw: u16 = row[2] as u16 + 256 * (row[3] as u16);
    let load_word: u16 = row[4] as u16 + 256 * (row[5] as u16);
    let load = load_from_register(load_word);
    Ok(RawServoFeedback {
        id,
        position_raw,
        speed_raw,
        load,
        voltage_raw: row[6],
        temperature_c: row[7],
    })
}

/// The torque-enable byte written to each of `count` servos.
pub fn torque_enable_values(count: usize, enabled: bool) -> (values: Vec<u8>)
    ensures
        values@.len() == count,
        forall|k: int| 0 <= k < count ==> #[trigger] values@[k] == (if enabled { 1u8 } else { 0u8 }),
{
    let value: u8 = if enabled { 1 } else { 0 };
    let mut values: Vec<u8> = Vec::new();
    let mut i: usize = 0;
    while i < count
        invariant
            i <= count,
            values@.len() == i,
            forall|k: int| 0 <= k < i ==> #[trigger] values@[k] == value,
        decreases count - i,
    {
        values.push(value);
        i = i + 1;
    }
    values
}

} // verus!
