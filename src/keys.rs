//! Key identities and the static key descriptor table: the 88 keys of a
//! piano, how raw MIDI pitches map to them, and their layout on screen.
use vstd::prelude::*;

verus! {

/// Number of keys on the instrument.
pub const KEY_COUNT: usize = 88;

/// MIDI note number of the lowest key (A0).
pub const LOWEST_PITCH: u8 = 21;

/// MIDI note number of the highest key (C8).
pub const HIGHEST_PITCH: u8 = 108;

/// Number of white keys on the instrument.
pub const WHITE_KEY_COUNT: usize = 52;

/// Layout byte of a white key.
pub const WHITE_CODE: u8 = 87;

/// Layout byte of a black key.
pub const BLACK_CODE: u8 = 66;

/// The standard 88-key layout, lowest key first: 'W' for white, 'B' for black.
pub const LAYOUT: &'static str = "WBWWBWBWWBWBWBWWBWBWWBWBWBWWBWBWWBWBWBWWBWBWWBWBWBWWBWBWWBWBWBWWBWBWWBWBWBWWBWBWWBWBWBWW";

/// The two classes of key, drawn with distinct art.
#[derive(Clone, Copy, Debug, PartialEq, Eq, Structural)]
pub enum KeyType {
    WHITE,
    BLACK,
}

/// Static descriptor of one key: its class and where its art is placed,
/// in texture pixels from the keyboard's left edge.
#[derive(Clone, Copy, Debug, PartialEq, Eq, Structural)]
pub struct Key {
    pub key_type: KeyType,
    pub offset_x: i64,
    pub offset_y: i64,
}

/// Why a raw pitch or a key index was refused.
#[derive(Clone, Copy, Debug, PartialEq, Eq, Structural)]
pub enum KeyError {
    PitchOutOfRange { pitch: u8 },
    IndexOutOfRange { index: usize },
}

/// Why a layout string was refused.
#[derive(Clone, Copy, Debug, PartialEq, Eq, Structural)]
pub enum LayoutError {
    WrongLength { found: usize },
    UnknownKey { position: usize },
}

/// Whether a raw MIDI pitch names one of the instrument's keys.
pub open spec fn pitch_in_range(pitch: int) -> bool {
    LOWEST_PITCH <= pitch <= HIGHEST_PITCH
}

/// Maps a raw MIDI note number to a key index in `[0, 88)`; a pitch outside
/// the instrument's range is refused.
pub fn pitch_to_index(pitch: u8) -> (r: Result<usize, KeyError>)
    ensures
        pitch_in_range(pitch as int) <==> r.is_ok(),
        r matches Ok(i) ==> i == pitch - LOWEST_PITCH && i < KEY_COUNT,
        r matches Err(e) ==> e == (KeyError::PitchOutOfRange { pitch }),
{
    if LOWEST_PITCH <= pitch && pitch <= HIGHEST_PITCH {
        Ok((pitch - LOWEST_PITCH) as usize)
    } else {
        Err(KeyError::PitchOutOfRange { pitch })
    }
}

/// The key class that a layout byte denotes, if any.
pub open spec fn key_type_of(code: u8) -> Option<KeyType> {
    if code == WHITE_CODE {
        Some(KeyType::WHITE)
    } else if code == BLACK_CODE {
        Some(KeyType::BLACK)
    } else {
        None
    }
}

/// Number of white keys among the first `n` entries of a layout.
pub open spec fn whites_before(layout: Seq<u8>, n: nat) -> nat
    decreases n,
{
    if n == 0 {
        0
    } else {
        whites_before(layout, (n - 1) as nat) + if layout[n - 1] == WHITE_CODE {
            1nat
        } else {
            0nat
        }
    }
}

/// Descriptor of the key at `i` of a valid layout: a white key starts where the
/// white keys before it end; a black key is centred on the boundary between
/// the white keys around it.
pub open spec fn key_at(layout: Seq<u8>, i: int, white_width: int, black_width: int) -> Key {
    let whites = whites_before(layout, i as nat) as int;
    if layout[i] == WHITE_CODE {
        Key { key_type: KeyType::WHITE, offset_x: (whites * white_width) as i64, offset_y: 0 }
    } else {
        Key {
            key_type: KeyType::BLACK,
            offset_x: (whites * white_width - black_width / 2) as i64,
            offset_y: 0,
        }
    }
}

/// Whether every entry of a layout denotes a key class.
pub open spec fn layout_valid(layout: Seq<u8>) -> bool {
    forall|i: int| 0 <= i < layout.len() ==> (#[trigger] key_type_of(layout[i])).is_some()
}

proof fn lemma_whites_bounded(layout: Seq<u8>, n: nat)
    ensures
        whites_before(layout, n) <= n,
    decreases n,
{
    if n > 0 {
        lemma_whites_bounded(layout, (n - 1) as nat);
    }
}

/// Builds the key descriptor table from a layout of 88 'W'/'B' bytes and the
/// widths of the white and black key art.
pub fn build_keymap(layout: &[u8], white_width: u32, black_width: u32) -> (r: Result<
    Vec<Key>,
    LayoutError,
>)
    ensures
        layout@.len() != KEY_COUNT <==> r == Err::<Vec<Key>, LayoutError>(
            LayoutError::WrongLength { found: layout@.len() as usize },
        ),
        r matches Err(LayoutError::UnknownKey { position }) ==> {
            &&& layout@.len() == KEY_COUNT
            &&& position < KEY_COUNT
            &&& key_type_of(layout@[position as int]) is None
            &&& forall|j: int| 0 <= j < position ==> (#[trigger] key_type_of(layout@[j])).is_some()
        },
        r is Ok <==> layout@.len() == KEY_COUNT && layout_valid(layout@),
        r matches Ok(keys) ==> {
            &&& keys@.len() == KEY_COUNT
            &&& forall|i: int|
                0 <= i < KEY_COUNT ==> #[trigger] keys@[i] == key_at(
                    layout@,
                    i,
                    white_width as int,
                    black_width as int,
                )
        },
{
    if layout.len() != KEY_COUNT {
        return Err(LayoutError::WrongLength { found: layout.len() });
    }
    let mut keys: Vec<Key> = Vec::new();
    let mut whites: u64 = 0;
    let mut i: usize = 0;
    while i < layout.len()
        invariant
            layout@.len() == KEY_COUNT,
            i <= KEY_COUNT,
            keys@.len() == i,
            whites == whites_before(layout@, i as nat),
            forall|j: int| 0 <= j < i ==> (#[trigger] key_type_of(layout@[j])).is_some(),
            forall|j: int|
                0 <= j < i ==> #[trigger] keys@[j] == key_at(
                    layout@,
                    j,
                    white_width as int,
                    black_width as int,
                ),
        decreases KEY_COUNT - i,
    {
        proof {
            lemma_whites_bounded(layout@, i as nat);
            assert(whites * white_width <= 88 * 0x1_0000_0000) by (nonlinear_arith)
                requires
                    whites <= 88,
                    white_width < 0x1_0000_0000,
            ;
        }
        let code = layout[i];
        let base: i64 = (whites as i64) * (white_width as i64);
        if code == WHITE_CODE {
            keys.push(Key { key_type: KeyType::WHITE, offset_x: base, offset_y: 0 });
            whites = whites + 1;
        } else if code == BLACK_CODE {
            keys.push(
                Key { key_type: KeyType::BLACK, offset_x: base - (black_width / 2) as i64, offset_y: 0 },
            );
        } else {
            return Err(LayoutError::UnknownKey { position: i });
        }
        i = i + 1;
    }
    Ok(keys)
}

} // verus!
