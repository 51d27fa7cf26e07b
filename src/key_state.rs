//! The active-key state: which of the 88 keys are held, and how raw
//! three-byte MIDI channel-voice messages change it.
use vstd::prelude::*;
use crate::keys::{KeyError, KEY_COUNT, LOWEST_PITCH, pitch_in_range, pitch_to_index};

verus! {

/// Status nibble of a note-on message.
pub const NOTE_ON: u8 = 0x90;

/// Status nibble of a note-off message.
pub const NOTE_OFF: u8 = 0x80;

/// A change that a device message asks for: key `index` becomes `held`.
#[derive(Clone, Copy, Debug, PartialEq, Eq, Structural)]
pub struct KeyChange {
    pub index: usize,
    pub held: bool,
}

/// Why a device message changed nothing.
#[derive(Clone, Copy, Debug, PartialEq, Eq, Structural)]
pub enum MessageError {
    /// Fewer than the three bytes of a note message.
    Truncated,
    /// A status other than note-on or note-off.
    NotANote { status: u8 },
    /// A pitch outside the instrument's range.
    PitchOutOfRange { pitch: u8 },
}

/// The message kind of a status byte: its upper four bits.
pub open spec fn status_kind(status: u8) -> int {
    status as int - status as int % 16
}

/// What a raw device message means for the keyboard. A note-on with a
/// non-zero velocity presses its key; a note-off, or a note-on with velocity
/// zero, releases it. Other messages, short messages and out-of-range
/// pitches change nothing.
pub open spec fn decode(msg: Seq<u8>) -> Result<KeyChange, MessageError> {
    if msg.len() < 3 {
        Err(MessageError::Truncated)
    } else if status_kind(msg[0]) != NOTE_ON && status_kind(msg[0]) != NOTE_OFF {
        Err(MessageError::NotANote { status: msg[0] })
    } else if !pitch_in_range(msg[1] as int) {
        Err(MessageError::PitchOutOfRange { pitch: msg[1] })
    } else {
        Ok(
            KeyChange {
                index: (msg[1] - LOWEST_PITCH) as usize,
                held: status_kind(msg[0]) == NOTE_ON && msg[2] > 0,
            },
        )
    }
}

/// Decodes a raw device message (status, pitch, velocity) into a key change.
pub fn decode_message(msg: &[u8]) -> (r: Result<KeyChange, MessageError>)
    ensures
        r == decode(msg@),
        r matches Ok(c) ==> c.index < KEY_COUNT,
{
    if msg.len() < 3 {
        return Err(MessageError::Truncated);
    }
    let status = msg[0];
    let kind = status & 0xf0;
    assert(kind == status_kind(status)) by (bit_vector)
        requires
            kind == status & 0xf0,
    ;
    if kind != NOTE_ON && kind != NOTE_OFF {
        return Err(MessageError::NotANote { status });
    }
    match pitch_to_index(msg[1]) {
        Ok(index) => Ok(KeyChange { index, held: kind == NOTE_ON && msg[2] > 0 }),
        Err(_) => Err(MessageError::PitchOutOfRange { pitch: msg[1] }),
    }
}

/// Which keys are held, one flag per key index.
#[derive(Clone, Copy, Debug)]
pub struct KeyState {
    held: [bool; 88],
}

impl View for KeyState {
    type V = Seq<bool>;

    closed spec fn view(&self) -> Seq<bool> {
        self.held@
    }
}

/// The state in which no key is held.
pub open spec fn all_released() -> Seq<bool> {
    Seq::new(KEY_COUNT as nat, |i: int| false)
}

impl KeyState {
    /// The view always has one flag per key.
    pub proof fn lemma_len(&self)
        ensures
            self@.len() == KEY_COUNT,
    {
        assert(self.held@.len() == 88);
    }

    /// A state with every key released.
    pub fn new() -> (r: KeyState)
        ensures
            r@ == all_released(),
    {
        let r = KeyState { held: [false; 88] };
        assert(r@ =~= all_released());
        r
    }

    /// Whether key `index` is held.
    pub fn is_held(&self, index: usize) -> (r: bool)
        requires
            index < KEY_COUNT,
        ensures
            r == self@[index as int],
    {
        self.held[index]
    }

    /// Marks key `index` held or released; an index outside `[0, 88)` is
    /// refused and the state left as it was.
    pub fn set(&mut self, index: usize, held: bool) -> (r: Result<(), KeyError>)
        ensures
            r is Ok <==> index < KEY_COUNT,
            r is Ok ==> final(self)@ == old(self)@.update(index as int, held),
            r matches Err(e) ==> e == (KeyError::IndexOutOfRange { index }) && final(self)@
                == old(self)@,
    {
        if index < KEY_COUNT {
            self.held[index] = held;
            Ok(())
        } else {
            Err(KeyError::IndexOutOfRange { index })
        }
    }

    /// A copy of every key's flag, lowest key first.
    pub fn snapshot(&self) -> (r: [bool; 88])
        ensures
            r@ == self@,
    {
        self.held
    }

    /// Applies a raw device message: the key change it decodes to, or nothing.
    pub fn apply_message(&mut self, msg: &[u8]) -> (r: Result<KeyChange, MessageError>)
        ensures
            r == decode(msg@),
            r matches Ok(c) ==> final(self)@ == old(self)@.update(c.index as int, c.held),
            r is Err ==> final(self)@ == old(self)@,
    {
        let r = decode_message(msg);
        if let Ok(c) = r {
            self.held[c.index] = c.held;
        }
        r
    }
}

/// A note message for a key of the instrument presses that key when it is a
/// note-on with a non-zero velocity, and releases it when it is a note-off or
/// a note-on with velocity zero, whatever its channel.
pub proof fn lemma_note_classification(msg: Seq<u8>)
    requires
        msg.len() >= 3,
        pitch_in_range(msg[1] as int),
    ensures
        status_kind(msg[0]) == NOTE_ON && msg[2] > 0 ==> decode(msg) == Ok::<
            KeyChange,
            MessageError,
        >(KeyChange { index: (msg[1] - LOWEST_PITCH) as usize, held: true }),
        (status_kind(msg[0]) == NOTE_ON && msg[2] == 0) || status_kind(msg[0]) == NOTE_OFF
            ==> decode(msg) == Ok::<KeyChange, MessageError>(
            KeyChange { index: (msg[1] - LOWEST_PITCH) as usize, held: false },
        ),
{
}

/// Setting a key and then taking a snapshot shows that key with the flag just
/// written, and every other key as it was.
pub proof fn lemma_set_then_snapshot(before: Seq<bool>, index: int, held: bool)
    requires
        before.len() == KEY_COUNT,
        0 <= index < KEY_COUNT,
    ensures
        ({
            let after = before.update(index, held);
            &&& after.len() == KEY_COUNT
            &&& after[index] == held
            &&& forall|j: int| 0 <= j < KEY_COUNT && j != index ==> after[j] == before[j]
        }),
{
}

} // verus!
