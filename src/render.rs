//! The per-frame scene: which tiles to draw and where, which key highlights
//! go in the white and black batches, and how the viewport is shared between
//! the falling tiles and the keyboard. Geometry only; drawing is the host's.
use vstd::prelude::*;
use crate::keys::{Key, KeyType, KEY_COUNT};
use crate::timeline::{NoteTile, ScoreTimeline, height_of, in_window, position_of};

verus! {

/// Share of the viewport's height, in percent, that the keyboard takes.
pub const KEYBOARD_PERCENT: u32 = 15;

/// How a viewport `height` pixels high is split: the playfield on top, the
/// keyboard below it.
pub open spec fn keyboard_height_of(height: int) -> int {
    height * KEYBOARD_PERCENT / 100
}

/// Splits a viewport's height into the playfield (first) and the keyboard
/// strip below it (second).
pub fn split_viewport(height: u32) -> (r: (u32, u32))
    ensures
        r.1 == keyboard_height_of(height as int),
        r.0 + r.1 == height,
{
    let percent = KEYBOARD_PERCENT as u64;
    assert(percent == 15);
    let scaled = (height as u64) * percent;
    assert(scaled as int / 100 <= height) by (nonlinear_arith)
        requires
            scaled == height * 15,
    ;
    let keyboard = (scaled / 100) as u32;
    (height - keyboard, keyboard)
}

/// Indices, ascending, of the first `n` keys that are held and of class `kind`.
pub open spec fn held_of_type(held: Seq<bool>, keymap: Seq<Key>, kind: KeyType, n: int) -> Seq<
    usize,
>
    decreases n,
{
    if n <= 0 {
        seq![]
    } else {
        let rest = held_of_type(held, keymap, kind, n - 1);
        if held[n - 1] && keymap[n - 1].key_type == kind {
            rest.push((n - 1) as usize)
        } else {
            rest
        }
    }
}

/// The highlight batches of a frame: held white keys and held black keys,
/// each rebuilt from scratch in ascending key order.
pub fn partition_held(held: &[bool; 88], keymap: &Vec<Key>) -> (r: (Vec<usize>, Vec<usize>))
    requires
        keymap@.len() == KEY_COUNT,
    ensures
        r.0@ == held_of_type(held@, keymap@, KeyType::WHITE, KEY_COUNT as int),
        r.1@ == held_of_type(held@, keymap@, KeyType::BLACK, KEY_COUNT as int),
{
    let mut white: Vec<usize> = Vec::new();
    let mut black: Vec<usize> = Vec::new();
    let mut i: usize = 0;
    while i < KEY_COUNT
        invariant
            i <= KEY_COUNT,
            keymap@.len() == KEY_COUNT,
            held@.len() == KEY_COUNT,
            white@ == held_of_type(held@, keymap@, KeyType::WHITE, i as int),
            black@ == held_of_type(held@, keymap@, KeyType::BLACK, i as int),
        decreases KEY_COUNT - i,
    {
        if held[i] {
            match keymap[i].key_type {
                KeyType::WHITE => white.push(i),
                KeyType::BLACK => black.push(i),
            }
        }
        i = i + 1;
    }
    (white, black)
}

/// Where one tile is drawn: the key it falls towards, that key's class and
/// horizontal offset in texture pixels, the tile's top edge measured from the
/// top of the viewport, and its height. `top` and `height` are exact, in units
/// of which `units_per_pixel` make one pixel.
#[derive(Clone, Copy, Debug, PartialEq, Eq, Structural)]
pub struct TileDraw {
    pub key: usize,
    pub key_type: KeyType,
    pub offset_x: i64,
    pub top: i128,
    pub height: u128,
    pub units_per_pixel: u64,
}

/// The draw command for `tile` at elapsed time `elapsed`, in a playfield
/// `playfield` pixels high whose lower edge meets the keyboard.
pub open spec fn draw_of(tile: NoteTile, keymap: Seq<Key>, elapsed: int, playfield: int) -> TileDraw {
    let key = keymap[tile.key_spec() as int];
    let height = height_of(tile.duration_spec(), playfield);
    let position = position_of(tile.start_spec(), playfield, elapsed);
    TileDraw {
        key: tile.key_spec(),
        key_type: key.key_type,
        offset_x: key.offset_x,
        top: (playfield * tile.lead_spec() - position - height) as i128,
        height: height as u128,
        units_per_pixel: tile.lead_spec() as u64,
    }
}

/// The draw commands of the tiles in scope at `elapsed`, in timeline order.
pub open spec fn visible_draws(
    tiles: Seq<NoteTile>,
    keymap: Seq<Key>,
    elapsed: int,
    playfield: int,
) -> Seq<TileDraw>
    decreases tiles.len(),
{
    if tiles.len() == 0 {
        seq![]
    } else {
        let rest = visible_draws(tiles.drop_last(), keymap, elapsed, playfield);
        let t = tiles.last();
        if in_window(t.start_spec(), t.duration_spec(), t.lead_spec(), elapsed) {
            rest.push(draw_of(t, keymap, elapsed, playfield))
        } else {
            rest
        }
    }
}

/// Everything a frame draws, in drawing order: the falling tiles, then the
/// keyboard with the white-key highlights and then the black-key highlights.
pub struct Frame {
    pub tiles: Vec<TileDraw>,
    pub white_keys: Vec<usize>,
    pub black_keys: Vec<usize>,
    pub playfield_height: u32,
    pub keyboard_height: u32,
}

/// The draw command for one tile that is in scope.
fn tile_draw(tile: &NoteTile, keymap: &Vec<Key>, elapsed: u64, playfield: u32) -> (r: TileDraw)
    requires
        keymap@.len() == KEY_COUNT,
    ensures
        r == draw_of(*tile, keymap@, elapsed as int, playfield as int),
{
    let index = tile.key();
    let key = keymap[index];
    let height = tile.vertical_height(playfield);
    let position = tile.vertical_position(elapsed, playfield);
    let lead = tile.lead_time();
    assert(0 <= playfield * lead < 0x1_0000_0000_0000_0000_0000_0000) by (nonlinear_arith)
        requires
            playfield < 0x1_0000_0000,
            lead < 0x1_0000_0000_0000_0000,
    ;
    let base = playfield as i128 * lead as i128;
    TileDraw {
        key: index,
        key_type: key.key_type,
        offset_x: key.offset_x,
        top: base - position - height as i128,
        height,
        units_per_pixel: lead,
    }
}

/// Builds the scene of one frame from the timeline, the key table, a snapshot
/// of the held keys, the elapsed playback time and the viewport's height.
pub fn build_frame(
    timeline: &ScoreTimeline,
    keymap: &Vec<Key>,
    held: &[bool; 88],
    elapsed: u64,
    viewport_height: u32,
) -> (r: Frame)
    requires
        keymap@.len() == KEY_COUNT,
    ensures
        r.keyboard_height == keyboard_height_of(viewport_height as int),
        r.playfield_height + r.keyboard_height == viewport_height,
        r.tiles@ == visible_draws(timeline@, keymap@, elapsed as int, r.playfield_height as int),
        r.white_keys@ == held_of_type(held@, keymap@, KeyType::WHITE, KEY_COUNT as int),
        r.black_keys@ == held_of_type(held@, keymap@, KeyType::BLACK, KEY_COUNT as int),
{
    let (playfield, keyboard) = split_viewport(viewport_height);
    let mut tiles: Vec<TileDraw> = Vec::new();
    let n = timeline.len();
    let mut i: usize = 0;
    while i < n
        invariant
            n == timeline@.len(),
            i <= n,
            keymap@.len() == KEY_COUNT,
            tiles@ == visible_draws(
                timeline@.subrange(0, i as int),
                keymap@,
                elapsed as int,
                playfield as int,
            ),
        decreases n - i,
    {
        let tile = timeline.tile(i);
        assert(timeline@.subrange(0, i + 1).drop_last() =~= timeline@.subrange(0, i as int));
        if tile.in_scope(elapsed) {
            tiles.push(tile_draw(&tile, keymap, elapsed, playfield));
        }
        i = i + 1;
    }
    assert(timeline@.subrange(0, n as int) =~= timeline@);
    let (white_keys, black_keys) = partition_held(held, keymap);
    Frame { tiles, white_keys, black_keys, playfield_height: playfield, keyboard_height: keyboard }
}

} // verus!
