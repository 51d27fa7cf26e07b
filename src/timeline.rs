//! The score timeline: note events from a parsed score, projected into tiles
//! that fall towards the keyboard as playback time advances. All times are
//! microseconds of elapsed playback; heights and positions are pixels.
use vstd::prelude::*;
use crate::keys::KEY_COUNT;

verus! {

/// Duration a note of zero length is shown with, so that it still gets a
/// visible tile. A note of positive length keeps its own duration.
pub const ZERO_NOTE_DURATION: u64 = 20_000;

/// The instant playback started, on some monotonic clock in microseconds.
#[derive(Clone, Copy, Debug, PartialEq, Eq, Structural)]
pub struct ClockReference {
    pub origin: u64,
}

impl ClockReference {
    /// A reference taken at `origin`.
    pub fn new(origin: u64) -> (r: ClockReference)
        ensures
            r.origin == origin,
    {
        ClockReference { origin }
    }

    /// Playback time elapsed at instant `now`; an instant before the origin
    /// counts as no time at all.
    pub fn elapsed(&self, now: u64) -> (r: u64)
        ensures
            now >= self.origin ==> r == now - self.origin,
            now < self.origin ==> r == 0,
    {
        if now >= self.origin {
            now - self.origin
        } else {
            0
        }
    }
}

/// One note of the score: a key index, when it starts and how long it lasts.
#[derive(Clone, Copy, Debug, PartialEq, Eq, Structural)]
pub struct NoteEvent {
    pub key: usize,
    pub start: u64,
    pub duration: u64,
}

/// Why a timeline could not be built.
#[derive(Clone, Copy, Debug, PartialEq, Eq, Structural)]
pub enum TimelineError {
    /// A lead time of zero would leave no time to show a tile falling.
    ZeroLeadTime,
    /// A note names a key index outside `[0, 88)`.
    KeyOutOfRange { key: usize },
}

/// The duration a tile is shown with: the note's own when positive, and
/// `ZERO_NOTE_DURATION` for a note of zero length.
pub open spec fn shown_duration(duration: int) -> int {
    if duration <= 0 {
        ZERO_NOTE_DURATION as int
    } else {
        duration
    }
}

/// Whether elapsed time `t` lies in a tile's visibility window: from `lead`
/// before its start until its shown duration has passed, both ends included.
pub open spec fn in_window(start: int, duration: int, lead: int, t: int) -> bool {
    start - lead <= t <= start + duration
}

/// A tile's height, exact, in units of one lead-time-th of a pixel: a tile
/// falls `available` pixels per lead time, so a note of duration `d` is
/// `d * available / lead` pixels tall.
pub open spec fn height_of(duration: int, available: int) -> int {
    duration * available
}

/// Height of a tile's lower edge above the keyboard at elapsed time `t`,
/// exact, in units of one lead-time-th of a pixel (negative once it has
/// passed below): `available` pixels when `t` is the lead time before the
/// start, and zero at the start.
pub open spec fn position_of(start: int, available: int, t: int) -> int {
    (start - t) * available
}

/// A note projected for display. Its fields are fixed at construction.
#[derive(Clone, Copy, Debug)]
pub struct NoteTile {
    key: usize,
    start: u64,
    duration: u64,
    lead_time: u64,
}

impl NoteTile {
    #[verifier::type_invariant]
    spec fn wf(&self) -> bool {
        &&& self.key < KEY_COUNT
        &&& self.duration > 0
        &&& self.lead_time > 0
    }

    /// Key index of the note.
    pub closed spec fn key_spec(&self) -> usize {
        if self.key < KEY_COUNT {
            self.key
        } else {
            0
        }
    }

    /// Start of the note.
    pub closed spec fn start_spec(&self) -> int {
        self.start as int
    }

    /// Duration the tile is shown with.
    pub closed spec fn duration_spec(&self) -> int {
        shown_duration(self.duration as int)
    }

    /// Time the tile takes to fall from the top of the playfield to the keyboard.
    pub closed spec fn lead_spec(&self) -> int {
        if self.lead_time > 0 {
            self.lead_time as int
        } else {
            1
        }
    }

    /// Every tile names a key of the instrument, is shown for a positive
    /// duration and has a positive lead time.
    pub proof fn lemma_valid(&self)
        ensures
            self.key_spec() < KEY_COUNT,
            self.duration_spec() > 0,
            self.lead_spec() > 0,
    {
    }

    /// Whether this tile is the projection of `event` with lead time `lead`.
    pub open spec fn projects(&self, event: NoteEvent, lead: int) -> bool {
        &&& self.key_spec() == event.key
        &&& self.start_spec() == event.start
        &&& self.duration_spec() == shown_duration(event.duration as int)
        &&& self.lead_spec() == lead
    }

    /// The tile for `event`; refused when the lead time is zero or the key index
    /// is out of range.
    pub fn new(event: NoteEvent, lead_time: u64) -> (r: Result<NoteTile, TimelineError>)
        ensures
            lead_time == 0 ==> r == Err::<NoteTile, TimelineError>(TimelineError::ZeroLeadTime),
            lead_time > 0 && event.key >= KEY_COUNT ==> r == Err::<NoteTile, TimelineError>(
                TimelineError::KeyOutOfRange { key: event.key },
            ),
            r is Ok <==> lead_time > 0 && event.key < KEY_COUNT,
            r matches Ok(t) ==> t.projects(event, lead_time as int),
    {
        if lead_time == 0 {
            return Err(TimelineError::ZeroLeadTime);
        }
        if event.key >= KEY_COUNT {
            return Err(TimelineError::KeyOutOfRange { key: event.key });
        }
        let duration = if event.duration == 0 {
            ZERO_NOTE_DURATION
        } else {
            event.duration
        };
        Ok(NoteTile { key: event.key, start: event.start, duration, lead_time })
    }

    pub fn key(&self) -> (r: usize)
        ensures
            r == self.key_spec(),
            r < KEY_COUNT,
    {
        proof {
            use_type_invariant(self);
        }
        self.key
    }

    pub fn start(&self) -> (r: u64)
        ensures
            r == self.start_spec(),
    {
        self.start
    }

    pub fn duration(&self) -> (r: u64)
        ensures
            r == self.duration_spec(),
    {
        proof {
            use_type_invariant(self);
        }
        self.duration
    }

    pub fn lead_time(&self) -> (r: u64)
        ensures
            r == self.lead_spec(),
    {
        proof {
            use_type_invariant(self);
        }
        self.lead_time
    }

    /// Whether the tile is to be drawn at elapsed time `elapsed`.
    pub fn in_scope(&self, elapsed: u64) -> (r: bool)
        ensures
            r == in_window(
                self.start_spec(),
                self.duration_spec(),
                self.lead_spec(),
                elapsed as int,
            ),
    {
        proof {
            use_type_invariant(self);
        }
        let reached = elapsed >= self.start || self.start - elapsed <= self.lead_time;
        let not_passed = elapsed < self.start || elapsed - self.start <= self.duration;
        reached && not_passed
    }

    /// The tile's exact height in a playfield `available` pixels high, in units
    /// of one lead-time-th of a pixel. Any tile in a non-empty playfield has a
    /// positive height.
    pub fn vertical_height(&self, available: u32) -> (r: u128)
        ensures
            r == height_of(self.duration_spec(), available as int),
            r < 0x1_0000_0000_0000_0000_0000_0000,
            available > 0 ==> r > 0,
    {
        proof {
            use_type_invariant(self);
        }
        let d = self.duration as u128;
        let h = available as u128;
        assert(d * h < 0x1_0000_0000_0000_0000_0000_0000) by (nonlinear_arith)
            requires
                d < 0x1_0000_0000_0000_0000,
                h < 0x1_0000_0000,
        ;
        assert(h > 0 ==> d * h > 0) by (nonlinear_arith)
            requires
                d > 0,
        ;
        d * h
    }

    /// Exact height of the tile's lower edge above the keyboard at elapsed time
    /// `elapsed`, in a playfield `available` pixels high, in units of one
    /// lead-time-th of a pixel.
    pub fn vertical_position(&self, elapsed: u64, available: u32) -> (r: i128)
        ensures
            r == position_of(self.start_spec(), available as int, elapsed as int),
            -0x1_0000_0000_0000_0000_0000_0000 < r < 0x1_0000_0000_0000_0000_0000_0000,
    {
        let span = self.start as i128 - elapsed as i128;
        let h = available as i128;
        assert(-0x1_0000_0000_0000_0000_0000_0000 < span * h < 0x1_0000_0000_0000_0000_0000_0000)
            by (nonlinear_arith)
            requires
                -0x1_0000_0000_0000_0000 < span < 0x1_0000_0000_0000_0000,
                0 <= h < 0x1_0000_0000,
        ;
        span * h
    }
}

/// A tile never rises as time passes, and in any non-empty playfield it
/// falls strictly. It falls at a constant speed, so its motion has no jumps:
/// between two instants it falls exactly `available` pixels per lead time.
/// In an empty playfield (`available == 0`) it stays where it is.
pub proof fn lemma_position_monotonic(start: int, available: int, t1: int, t2: int)
    requires
        available >= 0,
        t1 < t2,
    ensures
        position_of(start, available, t2) <= position_of(start, available, t1),
        available > 0 ==> position_of(start, available, t2) < position_of(start, available, t1),
        position_of(start, available, t1) - position_of(start, available, t2) == (t2 - t1)
            * available,
{
    assert((start - t1) * available - (start - t2) * available == (t2 - t1) * available)
        by (nonlinear_arith);
    assert((t2 - t1) * available >= 0) by (nonlinear_arith)
        requires
            t1 < t2,
            available >= 0,
    ;
    assert(available > 0 ==> (t2 - t1) * available > 0) by (nonlinear_arith)
        requires
            t1 < t2,
    ;
}

/// In a non-empty playfield a longer note gets a strictly taller tile, its
/// height linear in its duration.
pub proof fn lemma_height_monotonic(d1: int, d2: int, available: int)
    requires
        available > 0,
        d1 < d2,
    ensures
        height_of(d1, available) < height_of(d2, available),
        height_of(d2, available) - height_of(d1, available) == (d2 - d1) * available,
{
    assert(d2 * available - d1 * available == (d2 - d1) * available) by (nonlinear_arith);
    assert((d2 - d1) * available > 0) by (nonlinear_arith)
        requires
            d1 < d2,
            available > 0,
    ;
}

/// The tiles of a score, one per note event in the order given, all sharing
/// one lead time.
pub struct ScoreTimeline {
    tiles: Vec<NoteTile>,
    lead_time: u64,
}

/// Whether every event names a key of the instrument.
pub open spec fn keys_valid(events: Seq<NoteEvent>) -> bool {
    forall|i: int| 0 <= i < events.len() ==> (#[trigger] events[i]).key < KEY_COUNT
}

impl View for ScoreTimeline {
    type V = Seq<NoteTile>;

    closed spec fn view(&self) -> Seq<NoteTile> {
        self.tiles@
    }
}

impl ScoreTimeline {
    /// Lead time shared by every tile.
    pub closed spec fn lead_spec(&self) -> int {
        self.lead_time as int
    }

    /// Builds the timeline of `events`, in any order. Refused when the lead
    /// time is zero, or at the first event whose key index is out of range.
    pub fn new(events: &Vec<NoteEvent>, lead_time: u64) -> (r: Result<ScoreTimeline, TimelineError>)
        ensures
            lead_time == 0 ==> r == Err::<ScoreTimeline, TimelineError>(TimelineError::ZeroLeadTime),
            r is Ok <==> lead_time > 0 && keys_valid(events@),
            r matches Err(TimelineError::KeyOutOfRange { key }) ==> exists|i: int|
                0 <= i < events@.len() && (#[trigger] events@[i]).key == key && key >= KEY_COUNT
                    && keys_valid(events@.subrange(0, i)),
            r matches Ok(t) ==> {
                &&& t@.len() == events@.len()
                &&& t.lead_spec() == lead_time
                &&& forall|i: int|
                    0 <= i < events@.len() ==> (#[trigger] t@[i]).projects(
                        events@[i],
                        lead_time as int,
                    )
            },
    {
        if lead_time == 0 {
            return Err(TimelineError::ZeroLeadTime);
        }
        let mut tiles: Vec<NoteTile> = Vec::new();
        let mut i: usize = 0;
        while i < events.len()
            invariant
                lead_time > 0,
                i <= events@.len(),
                tiles@.len() == i,
                keys_valid(events@.subrange(0, i as int)),
                forall|j: int|
                    0 <= j < i ==> (#[trigger] tiles@[j]).projects(events@[j], lead_time as int),
            decreases events@.len() - i,
        {
            let event = events[i];
            match NoteTile::new(event, lead_time) {
                Ok(tile) => {
                    tiles.push(tile);
                },
                Err(e) => {
                    assert(events@[i as int].key >= KEY_COUNT);
                    return Err(e);
                },
            }
            assert forall|j: int| 0 <= j < i + 1 implies (#[trigger] events@.subrange(
                0,
                i + 1,
            )[j]).key < KEY_COUNT by {
                if j < i {
                    assert(events@.subrange(0, i + 1)[j] == events@.subrange(0, i as int)[j]);
                }
            }
            i = i + 1;
        }
        assert(events@.subrange(0, events@.len() as int) =~= events@);
        Ok(ScoreTimeline { tiles, lead_time })
    }

    /// Number of tiles.
    pub fn len(&self) -> (r: usize)
        ensures
            r == self@.len(),
    {
        self.tiles.len()
    }

    /// The tile at `index`.
    pub fn tile(&self, index: usize) -> (r: NoteTile)
        requires
            index < self@.len(),
        ensures
            r == self@[index as int],
    {
        self.tiles[index]
    }

    /// Lead time shared by every tile.
    pub fn lead_time(&self) -> (r: u64)
        ensures
            r == self.lead_spec(),
    {
        self.lead_time
    }
}

/// Whatever a note's duration, zero included, its tile is in scope at the
/// note's start, and is shown for a positive duration.
pub proof fn lemma_visible_at_start(event: NoteEvent, lead: int)
    requires
        lead > 0,
    ensures
        in_window(event.start as int, shown_duration(event.duration as int), lead, event.start as int),
        shown_duration(event.duration as int) > 0,
{
}

} // verus!
