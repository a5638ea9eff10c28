//! Glyphs, the columns they fall in, and the field of columns.
use vstd::prelude::*;
use rand::rngs::ThreadRng;
use std::time::Instant;
use crate::clock::millis_since;
use crate::color::{Color, OPAQUE};
use crate::config::Config;
use crate::random::random_in;
use crate::text::{plain, plain_chars};

verus! {

/// One paint operation: a character drawn at a pixel position in a colour
/// whose alpha is the current opacity of the pass.
#[derive(Clone, Copy, Debug, PartialEq, Eq, Structural)]
pub struct Stroke {
    pub tile: char,
    pub x: u32,
    pub y: u32,
    pub font_size: u32,
    pub color: Color,
}

/// `alpha` lowered by `step`, stopping at zero.
pub open spec fn faded(alpha: u8, step: u32) -> u8 {
    if alpha > step {
        (alpha - step) as u8
    } else {
        0u8
    }
}

/// A glyph: one character in one fixed cell, painted in two passes that fade
/// independently. The ink pass uses `color` at opacity `alpha`, the flash
/// pass `light_color` at opacity `light_alpha`.
#[derive(Clone, Copy, Debug, PartialEq, Eq, Structural)]
pub struct Character {
    pub x: u32,
    pub y: u32,
    pub font_size: u32,
    pub tile: char,
    pub color: Color,
    pub light_color: Color,
    /// Opacity of the ink pass.
    pub alpha: u8,
    /// Opacity of the flash pass.
    pub light_alpha: u8,
    /// Opacity the ink pass loses per tick.
    pub fade_speed: u32,
    /// Opacity the flash pass loses per tick.
    pub light_speed: u32,
}

impl Character {
    /// The ink pass is still painted.
    pub open spec fn ink_visible(self) -> bool {
        self.alpha > 0
    }

    /// The flash pass is still painted.
    pub open spec fn flash_visible(self) -> bool {
        self.light_alpha > 0
    }

    /// At least one pass is still painted.
    pub open spec fn visible(self) -> bool {
        self.ink_visible() || self.flash_visible()
    }

    /// Both passes are fully transparent: the glyph is due for removal.
    pub open spec fn finished(self) -> bool {
        self.alpha == 0 && self.light_alpha == 0
    }

    /// The glyph one tick older.
    pub open spec fn aged(self) -> Character {
        Character {
            alpha: faded(self.alpha, self.fade_speed),
            light_alpha: faded(self.light_alpha, self.light_speed),
            ..self
        }
    }

    /// The glyph `n` ticks older.
    pub open spec fn aged_by(self, n: nat) -> Character
        decreases n,
    {
        if n == 0 {
            self
        } else {
            self.aged_by((n - 1) as nat).aged()
        }
    }

    /// The glyph after a mutation roll: while visible, a roll below the rate
    /// replaces its character by `tile`.
    pub open spec fn mutated(self, roll: u32, rate: u32, tile: char) -> Character {
        if self.visible() && roll < rate {
            Character { tile, ..self }
        } else {
            self
        }
    }

    /// The strokes that paint the glyph: the ink pass, then the flash pass,
    /// each only while its opacity is above zero.
    pub open spec fn strokes(self) -> Seq<Stroke> {
        let ink = if self.ink_visible() {
            seq![self.stroke(self.color, self.alpha)]
        } else {
            Seq::<Stroke>::empty()
        };
        let flash = if self.flash_visible() {
            seq![self.stroke(self.light_color, self.light_alpha)]
        } else {
            Seq::<Stroke>::empty()
        };
        ink + flash
    }

    /// One pass of the glyph in `color` at opacity `alpha`.
    pub open spec fn stroke(self, color: Color, alpha: u8) -> Stroke {
        Stroke {
            tile: self.tile,
            x: self.x,
            y: self.y,
            font_size: self.font_size,
            color: color.with_alpha(alpha),
        }
    }

    /// Ages the glyph by one tick: each opacity drops by its speed and stops
    /// at zero.
    pub fn update(&mut self)
        ensures
            *final(self) == old(self).aged(),
    {
        self.alpha = fade(self.alpha, self.fade_speed);
        self.light_alpha = fade(self.light_alpha, self.light_speed);
    }

    /// Whether both passes have faded out.
    pub fn is_finished(&self) -> (done: bool)
        ensures
            done == self.finished(),
    {
        self.alpha == 0 && self.light_alpha == 0
    }

    /// Applies one mutation roll. `roll` is a draw from `0..RATE_SCALE` and
    /// `rate` the mutation rate on the same scale; `tile` is the character
    /// picked from the alphabet.
    pub fn maybe_mutate(&mut self, roll: u32, rate: u32, tile: char)
        ensures
            *final(self) == old(self).mutated(roll, rate, tile),
    {
        if (self.alpha > 0 || self.light_alpha > 0) && roll < rate {
            self.tile = tile;
        }
    }

    /// Appends the glyph's strokes to `canvas` and returns how many passes
    /// were painted: 0, 1 or 2.
    pub fn draw(&self, canvas: &mut Vec<Stroke>) -> (count: usize)
        ensures
            final(canvas)@ == old(canvas)@ + self.strokes(),
            count == self.strokes().len(),
            count <= 2,
    {
        let mut count: usize = 0;
        if self.alpha > 0 {
            canvas.push(
                Stroke {
                    tile: self.tile,
                    x: self.x,
                    y: self.y,
                    font_size: self.font_size,
                    color: self.color.with_alpha(self.alpha),
                },
            );
            count = count + 1;
        }
        if self.light_alpha > 0 {
            canvas.push(
                Stroke {
                    tile: self.tile,
                    x: self.x,
                    y: self.y,
                    font_size: self.font_size,
                    color: self.light_color.with_alpha(self.light_alpha),
                },
            );
            count = count + 1;
        }
        count
    }
}

impl Default for Character {
    /// A white `A` of size 14 in the top left corner, fully opaque, with the
    /// default speeds.
    fn default() -> (c: Character)
        ensures
            c == (Character {
                x: 0,
                y: 0,
                font_size: 14,
                tile: 'A',
                color: Color { a: 255, r: 255, g: 255, b: 255 },
                light_color: Color { a: 255, r: 255, g: 255, b: 255 },
                alpha: OPAQUE,
                light_alpha: OPAQUE,
                fade_speed: 10,
                light_speed: 200,
            }),
    {
        Character {
            x: 0,
            y: 0,
            font_size: 14,
            tile: 'A',
            color: Color::new(255, 255, 255, 255),
            light_color: Color::new(255, 255, 255, 255),
            alpha: OPAQUE,
            light_alpha: OPAQUE,
            fade_speed: 10,
            light_speed: 200,
        }
    }
}

/// Lowers an opacity by `step`, stopping at zero.
pub fn fade(alpha: u8, step: u32) -> (r: u8)
    ensures
        r == faded(alpha, step),
{
    if (alpha as u32) > step {
        ((alpha as u32) - step) as u8
    } else {
        0
    }
}

/// The scale of mutation rates and rolls: a rate of `RATE_SCALE` mutates on
/// every roll, a rate of 0 on none.
pub const RATE_SCALE: u32 = 1_000_000;

/// Shortest pause of a drained column, in milliseconds.
pub const IDLE_MIN_MS: u64 = 1000;

/// Upper bound, exclusive, of the pause of a drained column, in milliseconds.
pub const IDLE_MAX_MS: u64 = 7000;

/// The random numbers that one tick spends on one live glyph.
#[derive(Clone, Copy, Debug, PartialEq, Eq, Structural)]
pub struct GlyphDraw {
    /// Mutation roll, drawn from `0..RATE_SCALE`.
    pub roll: u32,
    /// Index into the alphabet of the character a mutation would show.
    pub pick: usize,
}

/// The random numbers that one tick of a column may spend.
#[derive(Debug)]
pub struct Draws {
    /// One entry per live glyph, in the column's order.
    pub glyphs: Vec<GlyphDraw>,
    /// Index into the alphabet of the character of a newly spawned glyph.
    pub spawn: usize,
    /// Pause, in milliseconds, to take if the column restarts.
    pub delay_ms: u64,
}

/// The mathematical content of [`Draws`].
pub struct DrawsView {
    pub glyphs: Seq<GlyphDraw>,
    pub spawn: usize,
    pub delay_ms: u64,
}

impl View for Draws {
    type V = DrawsView;

    open spec fn view(&self) -> DrawsView {
        DrawsView { glyphs: self.glyphs@, spawn: self.spawn, delay_ms: self.delay_ms }
    }
}

impl DrawsView {
    /// The draws can drive a tick of `column`: one entry per live glyph, and
    /// every pick inside the alphabet.
    pub open spec fn fits(self, column: Column) -> bool {
        &&& self.glyphs.len() == column.characters.len()
        &&& self.spawn < column.tiles.len()
        &&& forall|i: int| 0 <= i < self.glyphs.len() ==> (#[trigger] self.glyphs[i]).pick < column.tiles.len()
    }

    /// The draws lie in the ranges that a column draws them from.
    pub open spec fn in_range(self) -> bool {
        &&& IDLE_MIN_MS <= self.delay_ms < IDLE_MAX_MS
        &&& forall|i: int| 0 <= i < self.glyphs.len() ==> (#[trigger] self.glyphs[i]).roll < RATE_SCALE
    }
}

/// What one tick did to a column.
#[derive(Clone, Copy, Debug, PartialEq, Eq, Structural)]
pub enum Outcome {
    /// A pause was pending: nothing changed.
    Idle,
    /// The glyphs aged and a new one appeared at the cursor.
    Spawned,
    /// The cursor is at the bottom and some glyphs are still fading.
    Draining,
    /// The last glyph has gone: the cursor returned to the top and a pause began.
    Restarted,
}

/// A column of falling glyphs, as a mathematical value: everything about a
/// [`CharacterString`] but its random source and its clock reading.
#[verifier::ext_equal]
pub struct Column {
    /// Live glyphs, oldest first.
    pub characters: Seq<Character>,
    /// Number of rows of the column.
    pub max_len: nat,
    /// Row of the next glyph to spawn.
    pub current_index: nat,
    /// Length of the pause that began at the last restart, in milliseconds.
    pub delay_ms: nat,
    pub mutation_rate: u32,
    pub x: u32,
    pub fade_speed: u32,
    pub light_speed: u32,
    pub font_size: u32,
    pub spacing: u32,
    pub color: Color,
    pub light_color: Color,
    pub tiles: Seq<char>,
}

/// The predicate that keeps a glyph in its column.
pub open spec fn is_visible() -> spec_fn(Character) -> bool {
    |c: Character| c.visible()
}

/// The strokes of a sequence of glyphs, glyph by glyph in order.
pub open spec fn strokes_of(glyphs: Seq<Character>) -> Seq<Stroke>
    decreases glyphs.len(),
{
    if glyphs.len() == 0 {
        Seq::<Stroke>::empty()
    } else {
        strokes_of(glyphs.drop_last()) + glyphs.last().strokes()
    }
}

impl Column {
    /// Vertical distance between two rows, in pixels.
    pub open spec fn pitch(self) -> nat {
        (self.font_size + self.spacing) as nat
    }

    /// The invariant of a column: a non-empty alphabet, the cursor within the
    /// rows, no more live glyphs than rows spawned, a mutation rate on the
    /// scale, and every row's pixel offset within `u32`.
    pub open spec fn wf(self) -> bool {
        &&& self.tiles.len() > 0
        &&& self.characters.len() <= self.current_index <= self.max_len
        &&& self.mutation_rate <= RATE_SCALE
        &&& self.max_len > 0 ==> (self.max_len - 1) * self.pitch() <= u32::MAX
    }

    /// A pause is pending when `elapsed_ms` milliseconds have passed since
    /// the last restart.
    pub open spec fn idle(self, elapsed_ms: nat) -> bool {
        elapsed_ms < self.delay_ms
    }

    /// The glyph that spawns at the cursor, showing the alphabet's character
    /// number `pick`.
    pub open spec fn spawned(self, pick: int) -> Character {
        Character {
            x: self.x,
            y: (self.current_index * self.pitch()) as u32,
            font_size: self.font_size,
            tile: self.tiles[pick],
            color: self.color,
            light_color: self.light_color,
            alpha: OPAQUE,
            light_alpha: OPAQUE,
            fade_speed: self.fade_speed,
            light_speed: self.light_speed,
        }
    }

    /// Glyph number `i` after one tick: aged, then mutated by its draw.
    pub open spec fn aged_glyph(self, draws: DrawsView, i: int) -> Character {
        self.characters[i].aged().mutated(
            draws.glyphs[i].roll,
            self.mutation_rate,
            self.tiles[draws.glyphs[i].pick as int],
        )
    }

    /// All live glyphs after one tick, before the faded ones leave.
    pub open spec fn aged(self, draws: DrawsView) -> Seq<Character> {
        Seq::new(self.characters.len(), |i: int| self.aged_glyph(draws, i))
    }

    /// The glyphs that stay after one tick: the aged glyphs that are still
    /// visible, in their order.
    pub open spec fn survivors(self, draws: DrawsView) -> Seq<Character> {
        self.aged(draws).filter(is_visible())
    }

    /// What a tick does when `elapsed_ms` milliseconds have passed since the
    /// last restart.
    pub open spec fn outcome(self, elapsed_ms: nat, draws: DrawsView) -> Outcome {
        if self.idle(elapsed_ms) {
            Outcome::Idle
        } else if self.current_index < self.max_len {
            Outcome::Spawned
        } else if self.survivors(draws).len() == 0 {
            Outcome::Restarted
        } else {
            Outcome::Draining
        }
    }

    /// The column after one tick.
    pub open spec fn step(self, elapsed_ms: nat, draws: DrawsView) -> Column {
        match self.outcome(elapsed_ms, draws) {
            Outcome::Idle => self,
            Outcome::Spawned => Column {
                characters: self.survivors(draws).push(self.spawned(draws.spawn as int)),
                current_index: self.current_index + 1,
                ..self
            },
            Outcome::Draining => Column { characters: self.survivors(draws), ..self },
            Outcome::Restarted => Column {
                characters: self.survivors(draws),
                current_index: 0,
                delay_ms: draws.delay_ms as nat,
                ..self
            },
        }
    }

    /// `after` is what some tick makes of this column: there are an elapsed
    /// time and draws from the column's ranges that lead to it.
    pub open spec fn ticks_to(self, after: Column) -> bool {
        exists|elapsed_ms: nat, draws: DrawsView|
            draws.fits(self) && draws.in_range() && after == #[trigger] self.step(elapsed_ms, draws)
    }

    /// The strokes that paint the column.
    pub open spec fn strokes(self) -> Seq<Stroke> {
        strokes_of(self.characters)
    }
}

/// A column of falling glyphs at a fixed horizontal offset.
pub struct CharacterString {
    rng: ThreadRng,
    /// Live glyphs, oldest first.
    pub characters: Vec<Character>,
    /// Number of rows of the column.
    pub max_len: u64,
    /// Row of the next glyph to spawn.
    pub current_index: u64,
    /// Mutation rate on the scale of `RATE_SCALE`.
    pub mutation_rate: u32,
    /// Horizontal pixel offset.
    pub x: u32,
    /// Opacity the ink pass of a glyph loses per tick.
    pub fade_speed: u32,
    /// Opacity the flash pass of a glyph loses per tick.
    pub light_speed: u32,
    pub font_size: u32,
    /// Extra pixels between two rows.
    pub spacing: u32,
    pub color: Color,
    pub light_color: Color,
    /// The alphabet.
    pub tiles: Vec<char>,
    delay_time: u64,
    start_time: Instant,
}

impl View for CharacterString {
    type V = Column;

    closed spec fn view(&self) -> Column {
        Column {
            characters: self.characters@,
            max_len: self.max_len as nat,
            current_index: self.current_index as nat,
            delay_ms: self.delay_time as nat,
            mutation_rate: self.mutation_rate,
            x: self.x,
            fade_speed: self.fade_speed,
            light_speed: self.light_speed,
            font_size: self.font_size,
            spacing: self.spacing,
            color: self.color,
            light_color: self.light_color,
            tiles: self.tiles@,
        }
    }
}

/// The strokes of a sequence with one more glyph end with that glyph's.
proof fn lemma_strokes_push(glyphs: Seq<Character>, c: Character)
    ensures
        strokes_of(glyphs.push(c)) == strokes_of(glyphs) + c.strokes(),
{
    assert(glyphs.push(c).drop_last() =~= glyphs);
}

impl CharacterString {
    /// A column at offset `x` with `max_len` rows, no glyphs, the cursor at
    /// the top and no pause pending.
    pub fn new(
        max_len: u64,
        x: u32,
        font_size: u32,
        spacing: u32,
        fade_speed: u32,
        light_speed: u32,
        mutation_rate: u32,
        color: Color,
        light_color: Color,
        tiles: Vec<char>,
    ) -> (column: CharacterString)
        ensures
            column@ == (Column {
                characters: Seq::<Character>::empty(),
                max_len: max_len as nat,
                current_index: 0,
                delay_ms: 0,
                mutation_rate,
                x,
                fade_speed,
                light_speed,
                font_size,
                spacing,
                color,
                light_color,
                tiles: tiles@,
            }),
    {
        CharacterString {
            rng: rand::thread_rng(),
            characters: Vec::new(),
            max_len,
            current_index: 0,
            mutation_rate,
            x,
            fade_speed,
            light_speed,
            font_size,
            spacing,
            color,
            light_color,
            tiles,
            delay_time: 0,
            start_time: Instant::now(),
        }
    }

    /// The invariant of the column; see [`Column::wf`].
    pub open spec fn wf(&self) -> bool {
        self@.wf()
    }

    /// Whether the column meets its invariant.
    pub fn is_wf(&self) -> (ok: bool)
        ensures
            ok == self.wf(),
    {
        if self.tiles.len() == 0 || self.mutation_rate > RATE_SCALE {
            return false;
        }
        if self.characters.len() as u64 > self.current_index || self.current_index > self.max_len {
            return false;
        }
        if self.max_len == 0 {
            return true;
        }
        let pitch: u128 = self.font_size as u128 + self.spacing as u128;
        let rows: u128 = (self.max_len - 1) as u128;
        assert(rows * pitch <= 0xffff_ffff_ffff_ffff * 0x1_ffff_fffe) by (nonlinear_arith)
            requires
                0 <= rows <= 0xffff_ffff_ffff_ffff,
                0 <= pitch <= 0x1_ffff_fffe,
        ;
        rows * pitch <= u32::MAX as u128
    }

    /// The live glyphs, oldest first.
    pub fn glyphs(&self) -> (glyphs: &Vec<Character>)
        ensures
            glyphs@ == self@.characters,
    {
        &self.characters
    }

    /// The row of the next glyph to spawn.
    pub fn cursor(&self) -> (row: u64)
        ensures
            row == self@.current_index,
    {
        self.current_index
    }

    /// The number of rows.
    pub fn rows(&self) -> (rows: u64)
        ensures
            rows == self@.max_len,
    {
        self.max_len
    }

    /// Length, in milliseconds, of the pause that began at the last restart.
    pub fn delay_ms(&self) -> (ms: u64)
        ensures
            ms == self@.delay_ms,
    {
        self.delay_time
    }

    /// Whether `draws` can drive a tick of this column.
    pub fn accepts(&self, draws: &Draws) -> (ok: bool)
        ensures
            ok == draws@.fits(self@),
    {
        if draws.glyphs.len() != self.characters.len() || draws.spawn >= self.tiles.len() {
            return false;
        }
        let n = draws.glyphs.len();
        let mut i: usize = 0;
        while i < n
            invariant
                i <= n,
                n == draws.glyphs.len(),
                forall|j: int| 0 <= j < i ==> (#[trigger] draws.glyphs@[j]).pick < self.tiles@.len(),
            decreases n - i,
        {
            if draws.glyphs[i].pick >= self.tiles.len() {
                return false;
            }
            i = i + 1;
        }
        true
    }

    /// The glyphs that stay after one tick: each live glyph aged and given
    /// its mutation roll, the faded ones left out.
    fn survivors(&self, draws: &Draws) -> (live: Vec<Character>)
        requires
            draws@.fits(self@),
        ensures
            live@ == self@.survivors(draws@),
            live@.len() <= self.characters@.len(),
    {
        let ghost aged = self@.aged(draws@);
        let n = self.characters.len();
        let mut live: Vec<Character> = Vec::new();
        let mut i: usize = 0;
        while i < n
            invariant
                i <= n,
                n == self.characters.len(),
                draws@.fits(self@),
                aged == self@.aged(draws@),
                live@ == aged.take(i as int).filter(is_visible()),
            decreases n - i,
        {
            let mut c = self.characters[i];
            let d = draws.glyphs[i];
            c.update();
            c.maybe_mutate(d.roll, self.mutation_rate, self.tiles[d.pick]);
            proof {
                assert(aged.take(i + 1) =~= aged.take(i as int).push(c));
                crate::text::lemma_filter_push(aged.take(i as int), c, is_visible());
            }
            if !c.is_finished() {
                live.push(c);
            }
            i = i + 1;
        }
        proof {
            assert(aged.take(n as int) =~= aged);
            aged.lemma_filter_len(is_visible());
        }
        live
    }

    /// The glyph that spawns at the cursor, showing the alphabet's character
    /// number `pick`.
    fn spawn(&self, pick: usize) -> (glyph: Character)
        requires
            self.wf(),
            self.current_index < self.max_len,
            pick < self.tiles@.len(),
        ensures
            glyph == self@.spawned(pick as int),
    {
        let pitch: u64 = self.font_size as u64 + self.spacing as u64;
        assert(self.current_index * pitch <= (self.max_len - 1) * pitch) by (nonlinear_arith)
            requires
                self.current_index <= self.max_len - 1,
                0 <= pitch,
        ;
        let y: u64 = self.current_index * pitch;
        Character {
            x: self.x,
            y: y as u32,
            font_size: self.font_size,
            tile: self.tiles[pick],
            color: self.color,
            light_color: self.light_color,
            alpha: OPAQUE,
            light_alpha: OPAQUE,
            fade_speed: self.fade_speed,
            light_speed: self.light_speed,
        }
    }

    /// One tick with the clock reading and the random numbers given: what
    /// [`update`](Self::update) does once it has read the clock and drawn.
    ///
    /// While a pause is pending nothing changes. Otherwise every glyph ages
    /// and takes its mutation roll, the faded ones leave, and then either a
    /// new glyph spawns at the cursor, or, with the cursor at the bottom and
    /// no glyph left, the cursor returns to the top and a pause of
    /// `draws.delay_ms` begins.
    pub fn tick(&mut self, elapsed_ms: u64, draws: &Draws) -> (outcome: Outcome)
        requires
            old(self).wf(),
            draws@.fits(old(self)@),
        ensures
            final(self).wf(),
            final(self)@ == old(self)@.step(elapsed_ms as nat, draws@),
            outcome == old(self)@.outcome(elapsed_ms as nat, draws@),
    {
        if elapsed_ms < self.delay_time {
            return Outcome::Idle;
        }
        let live = self.survivors(draws);
        if self.current_index < self.max_len {
            let glyph = self.spawn(draws.spawn);
            self.characters = live;
            self.characters.push(glyph);
            self.current_index = self.current_index + 1;
            Outcome::Spawned
        } else if live.len() == 0 {
            self.characters = live;
            self.current_index = 0;
            self.delay_time = draws.delay_ms;
            Outcome::Restarted
        } else {
            self.characters = live;
            Outcome::Draining
        }
    }

    /// Draws the random numbers of one tick from the column's generator:
    /// for each live glyph a mutation roll and a pick from the alphabet, a
    /// pick for the glyph that may spawn, and the pause of a restart.
    pub fn roll(&mut self) -> (draws: Draws)
        requires
            old(self).wf(),
        ensures
            final(self)@ == old(self)@,
            draws@.fits(old(self)@),
            draws@.in_range(),
    {
        let n = self.characters.len();
        let letters = self.tiles.len() as u64;
        let mut glyphs: Vec<GlyphDraw> = Vec::new();
        let mut i: usize = 0;
        while i < n
            invariant
                i <= n,
                self@ == old(self)@,
                letters == self.tiles@.len(),
                letters > 0,
                glyphs@.len() == i,
                forall|j: int| 0 <= j < i ==> (#[trigger] glyphs@[j]).pick < letters,
                forall|j: int| 0 <= j < i ==> (#[trigger] glyphs@[j]).roll < RATE_SCALE,
            decreases n - i,
        {
            let roll = random_in(&mut self.rng, 0, RATE_SCALE as u64) as u32;
            let pick = random_in(&mut self.rng, 0, letters) as usize;
            glyphs.push(GlyphDraw { roll, pick });
            i = i + 1;
        }
        let spawn = random_in(&mut self.rng, 0, letters) as usize;
        let delay_ms = random_in(&mut self.rng, IDLE_MIN_MS, IDLE_MAX_MS);
        Draws { glyphs, spawn, delay_ms }
    }

    /// One tick on the column's own clock and generator.
    ///
    /// Reads the time since the last restart, and unless a pause is pending
    /// draws the tick's random numbers and applies [`tick`](Self::tick). The
    /// column afterwards is what `tick` makes of it for some clock reading
    /// and some draws from the column's ranges.
    pub fn update(&mut self)
        requires
            old(self).wf(),
        ensures
            final(self).wf(),
            old(self)@.ticks_to(final(self)@),
    {
        let elapsed_ms = millis_since(&self.start_time);
        if elapsed_ms < self.delay_time {
            proof {
                let idle = DrawsView {
                    glyphs: Seq::new(self@.characters.len(), |j: int| GlyphDraw { roll: 0, pick: 0 }),
                    spawn: 0,
                    delay_ms: IDLE_MIN_MS,
                };
                assert(self@ == self@.step(elapsed_ms as nat, idle));
            }
            return ;
        }
        let draws = self.roll();
        let outcome = self.tick(elapsed_ms, &draws);
        if outcome == Outcome::Restarted {
            self.start_time = Instant::now();
        }
    }

    /// Appends the strokes of all live glyphs to `canvas`, oldest glyph
    /// first, and returns how many passes were painted.
    pub fn draw(&self, canvas: &mut Vec<Stroke>) -> (count: usize)
        ensures
            final(canvas)@ == old(canvas)@ + self@.strokes(),
            count == self@.strokes().len(),
    {
        let start = canvas.len();
        let n = self.characters.len();
        let mut i: usize = 0;
        while i < n
            invariant
                i <= n,
                n == self.characters.len(),
                start == old(canvas)@.len(),
                canvas@ == old(canvas)@ + strokes_of(self.characters@.take(i as int)),
            decreases n - i,
        {
            self.characters[i].draw(canvas);
            proof {
                assert(self.characters@.take(i + 1) =~= self.characters@.take(i as int).push(
                    self.characters@[i as int],
                ));
                lemma_strokes_push(self.characters@.take(i as int), self.characters@[i as int]);
            }
            i = i + 1;
        }
        assert(self.characters@.take(n as int) =~= self.characters@);
        canvas.len() - start
    }
}

/// The strokes of a field, column by column from the left.
pub open spec fn field_strokes(strings: Seq<CharacterString>) -> Seq<Stroke>
    decreases strings.len(),
{
    if strings.len() == 0 {
        Seq::<Stroke>::empty()
    } else {
        field_strokes(strings.drop_last()) + strings.last()@.strokes()
    }
}

/// Every column of the field meets its invariant.
pub open spec fn field_wf(strings: Seq<CharacterString>) -> bool {
    forall|i: int| 0 <= i < strings.len() ==> (#[trigger] strings[i]).wf()
}

/// One tick of every column, each on its own clock and generator.
pub fn update_all(strings: &mut Vec<CharacterString>)
    requires
        field_wf(old(strings)@),
    ensures
        field_wf(final(strings)@),
        final(strings)@.len() == old(strings)@.len(),
        forall|i: int|
            0 <= i < old(strings)@.len() ==> (#[trigger] old(strings)@[i])@.ticks_to(
                final(strings)@[i]@,
            ),
{
    let n = strings.len();
    let mut i: usize = 0;
    while i < n
        invariant
            i <= n,
            n == strings@.len(),
            n == old(strings)@.len(),
            field_wf(strings@),
            forall|j: int| 0 <= j < i ==> (#[trigger] old(strings)@[j])@.ticks_to(strings@[j]@),
            forall|j: int| i <= j < n ==> strings@[j] == old(strings)@[j],
        decreases n - i,
    {
        strings[i].update();
        i = i + 1;
    }
}

/// Appends the strokes of every column to `canvas`, leftmost column first,
/// and returns how many passes were painted.
pub fn draw_all(strings: &Vec<CharacterString>, canvas: &mut Vec<Stroke>) -> (count: usize)
    ensures
        final(canvas)@ == old(canvas)@ + field_strokes(strings@),
        count == field_strokes(strings@).len(),
{
    let start = canvas.len();
    let n = strings.len();
    let mut i: usize = 0;
    while i < n
        invariant
            i <= n,
            n == strings@.len(),
            start == old(canvas)@.len(),
            canvas@ == old(canvas)@ + field_strokes(strings@.take(i as int)),
        decreases n - i,
    {
        strings[i].draw(canvas);
        proof {
            assert(strings@.take(i + 1).drop_last() =~= strings@.take(i as int));
        }
        i = i + 1;
    }
    assert(strings@.take(n as int) =~= strings@);
    canvas.len() - start
}

/// Number of columns on a canvas `width` pixels wide: as many as fit whole.
pub open spec fn column_count(cfg: &Config, width: u32) -> nat {
    (width as int / cfg.font_size as int) as nat
}

/// Number of rows on a canvas `height` pixels high: one for each whole row
/// pitch and one more, so that the bottom edge is covered.
pub open spec fn row_count(cfg: &Config, height: u32) -> nat {
    (height as int / (cfg.font_size + cfg.spaceing) + 1) as nat
}

/// The column number `col` of a freshly built field.
pub open spec fn fresh_column(cfg: &Config, col: int, height: u32) -> Column {
    Column {
        characters: Seq::<Character>::empty(),
        max_len: row_count(cfg, height),
        current_index: 0,
        delay_ms: 0,
        mutation_rate: cfg.mutation_rate,
        x: (col * cfg.font_size) as u32,
        fade_speed: cfg.fade_speed as u32,
        light_speed: cfg.light_speed as u32,
        font_size: cfg.font_size as u32,
        spacing: cfg.spaceing,
        color: cfg.spec_color(),
        light_color: cfg.spec_light_color(),
        tiles: plain(cfg.characters@),
    }
}

/// Builds the field for a canvas of the given size: one empty column for
/// every whole font width, left to right, each with its own handle to the
/// random generator.
pub fn init(cfg: &Config, width: u32, height: u32) -> (strings: Vec<CharacterString>)
    requires
        cfg.valid(),
    ensures
        strings@.len() == column_count(cfg, width),
        forall|i: int|
            0 <= i < strings@.len() ==> (#[trigger] strings@[i])@ == fresh_column(cfg, i, height),
        field_wf(strings@),
{
    let font_size = cfg.font_size as u32;
    let pitch: u32 = font_size + cfg.spaceing;
    let columns: u32 = width / font_size;
    let rows: u64 = (height / pitch) as u64 + 1;
    let color = cfg.color();
    let light_color = cfg.light_color();
    let tiles = plain_chars(cfg.characters.as_str());
    proof {
        assert((height / pitch) * pitch <= height) by (nonlinear_arith)
            requires
                pitch > 0,
        ;
    }
    let mut strings: Vec<CharacterString> = Vec::new();
    let mut col: u32 = 0;
    while col < columns
        invariant
            col <= columns,
            cfg.valid(),
            font_size == cfg.font_size,
            columns == width / font_size,
            rows == row_count(cfg, height),
            (rows - 1) * (cfg.font_size + cfg.spaceing) <= u32::MAX,
            color == cfg.spec_color(),
            light_color == cfg.spec_light_color(),
            tiles@ == plain(cfg.characters@),
            strings@.len() == col,
            forall|i: int|
                0 <= i < col ==> (#[trigger] strings@[i])@ == fresh_column(cfg, i, height),
            field_wf(strings@),
        decreases columns - col,
    {
        proof {
            assert(col * font_size <= width) by (nonlinear_arith)
                requires
                    col < width / font_size,
                    font_size > 0,
            ;
        }
        let column = CharacterString::new(
            rows,
            col * font_size,
            font_size,
            cfg.spaceing,
            cfg.fade_speed as u32,
            cfg.light_speed as u32,
            cfg.mutation_rate,
            color,
            light_color,
            tiles.clone(),
        );
        strings.push(column);
        col = col + 1;
    }
    strings
}

/// Builds the field where the settings allow it: as [`init`] does for valid
/// settings, and not at all for others.
pub fn build(cfg: &Config, width: u32, height: u32) -> (field: Option<Vec<CharacterString>>)
    ensures
        field is Some <==> cfg.valid(),
        field matches Some(strings) ==> {
            &&& strings@.len() == column_count(cfg, width)
            &&& forall|i: int|
                0 <= i < strings@.len() ==> (#[trigger] strings@[i])@ == fresh_column(
                    cfg,
                    i,
                    height,
                )
            &&& field_wf(strings@)
        },
{
    if cfg.is_valid() {
        Some(init(cfg, width, height))
    } else {
        None
    }
}

/// What one frame shows.
#[derive(Debug)]
pub struct Frame {
    /// Opacity of the wash: the canvas is covered with the background at
    /// this opacity before the strokes are painted, so that earlier frames
    /// fade. `None` for a field without columns, which is not washed.
    pub wash: Option<u8>,
    /// The strokes to paint, in order.
    pub strokes: Vec<Stroke>,
}

/// Opacity of the wash for a fade speed: twice the speed, reduced to eight
/// bits.
pub open spec fn wash_alpha(fade_speed: u32) -> u8 {
    ((fade_speed * 2) % 256) as u8
}

/// The wash of a field: the opacity that the first column's fade speed
/// gives, or none for a field without columns.
pub open spec fn wash_of(strings: Seq<CharacterString>) -> Option<u8> {
    if strings.len() > 0 {
        Some(wash_alpha(strings[0]@.fade_speed))
    } else {
        None
    }
}

/// One frame: every column takes one tick on its own clock and generator,
/// and the field is then painted.
pub fn redraw(strings: &mut Vec<CharacterString>) -> (frame: Frame)
    requires
        field_wf(old(strings)@),
    ensures
        field_wf(final(strings)@),
        final(strings)@.len() == old(strings)@.len(),
        forall|i: int|
            0 <= i < old(strings)@.len() ==> (#[trigger] old(strings)@[i])@.ticks_to(
                final(strings)@[i]@,
            ),
        frame.wash == wash_of(old(strings)@),
        frame.strokes@ == field_strokes(final(strings)@),
{
    let wash = if strings.len() > 0 {
        let doubled: u64 = strings[0].fade_speed as u64 * 2;
        Some((doubled % 256) as u8)
    } else {
        None
    };
    update_all(strings);
    let mut strokes: Vec<Stroke> = Vec::new();
    draw_all(strings, &mut strokes);
    Frame { wash, strokes }
}

} // verus!
