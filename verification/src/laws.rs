//! What holds of glyphs and columns over any number of ticks.
use vstd::prelude::*;
use crate::characters::{
    column_count, fresh_column, is_visible, row_count, Character, Column, DrawsView, Outcome,
    RATE_SCALE,
};
use crate::color::OPAQUE;
use crate::config::Config;

verus! {

/// `value` lowered by `n` steps of `speed`, stopping at zero.
pub open spec fn lowered(value: u8, speed: u32, n: nat) -> int {
    if value - n * speed > 0 {
        value - n * speed
    } else {
        0
    }
}

/// Fading law: after `n` ticks each opacity of a glyph is its first value
/// less `n` times its speed, or zero where that would be negative, and
/// nothing else about the glyph has changed.
pub proof fn law_fade(c: Character, n: nat)
    ensures
        c.aged_by(n).alpha == lowered(c.alpha, c.fade_speed, n),
        c.aged_by(n).light_alpha == lowered(c.light_alpha, c.light_speed, n),
        c.aged_by(n) == (Character {
            alpha: c.aged_by(n).alpha,
            light_alpha: c.aged_by(n).light_alpha,
            ..c
        }),
    decreases n,
{
    if n > 0 {
        let m = (n - 1) as nat;
        law_fade(c, m);
        assert(n * c.fade_speed == m * c.fade_speed + c.fade_speed) by (nonlinear_arith)
            requires
                n == m + 1,
        ;
        assert(n * c.light_speed == m * c.light_speed + c.light_speed) by (nonlinear_arith)
            requires
                n == m + 1,
        ;
    }
}

/// Opacities never rise: a glyph that is older is no more opaque.
pub proof fn law_fade_monotonic(c: Character, n: nat, m: nat)
    requires
        n <= m,
    ensures
        c.aged_by(m).alpha <= c.aged_by(n).alpha,
        c.aged_by(m).light_alpha <= c.aged_by(n).light_alpha,
{
    law_fade(c, n);
    law_fade(c, m);
    assert(n * c.fade_speed <= m * c.fade_speed) by (nonlinear_arith)
        requires
            n <= m,
    ;
    assert(n * c.light_speed <= m * c.light_speed) by (nonlinear_arith)
        requires
            n <= m,
    ;
}

/// A glyph has faded out after `n` ticks exactly when `n` steps of each
/// speed use up the opacity it started with.
pub proof fn law_finished(c: Character, n: nat)
    ensures
        c.aged_by(n).finished() <==> n * c.fade_speed >= c.alpha && n * c.light_speed
            >= c.light_alpha,
{
    law_fade(c, n);
}

/// Removal law: after a tick that is not idle, an aged glyph is among the
/// glyphs that stay if and only if it is not the case that both its
/// opacities are exactly zero; and whatever stays is an aged glyph.
pub proof fn law_removal(column: Column, draws: DrawsView)
    ensures
        forall|i: int|
            0 <= i < column.characters.len() ==> (column.survivors(draws).contains(
                #[trigger] column.aged_glyph(draws, i),
            ) <==> !(column.aged_glyph(draws, i).alpha == 0 && column.aged_glyph(
                draws,
                i,
            ).light_alpha == 0)),
        forall|k: int|
            0 <= k < column.survivors(draws).len() ==> column.aged(draws).contains(
                #[trigger] column.survivors(draws)[k],
            ),
        column.survivors(draws).len() <= column.characters.len(),
{
    let aged = column.aged(draws);
    let kept = column.survivors(draws);
    assert forall|i: int| 0 <= i < column.characters.len() implies (kept.contains(
        #[trigger] column.aged_glyph(draws, i),
    ) <==> !(column.aged_glyph(draws, i).alpha == 0 && column.aged_glyph(draws, i).light_alpha
        == 0)) by {
        let g = column.aged_glyph(draws, i);
        if g.visible() {
            aged.lemma_filter_contains(is_visible(), i);
        }
        if kept.contains(g) {
            let k = choose|k: int| 0 <= k < kept.len() && kept[k] == g;
            aged.lemma_filter_pred(is_visible(), k);
        }
    }
    assert forall|k: int| 0 <= k < kept.len() implies aged.contains(#[trigger] kept[k]) by {
        aged.lemma_filter_contains_rev(is_visible(), kept[k]);
    }
    aged.lemma_filter_len(is_visible());
}

/// Column invariant: a tick keeps a well-formed column well-formed, so the
/// cursor stays within the rows and there are never more live glyphs than
/// rows; and it changes nothing but the glyphs, the cursor and the pause.
pub proof fn law_step_keeps_invariant(column: Column, elapsed_ms: nat, draws: DrawsView)
    requires
        column.wf(),
    ensures
        column.step(elapsed_ms, draws).wf(),
        column.step(elapsed_ms, draws) == (Column {
            characters: column.step(elapsed_ms, draws).characters,
            current_index: column.step(elapsed_ms, draws).current_index,
            delay_ms: column.step(elapsed_ms, draws).delay_ms,
            ..column
        }),
{
    column.aged(draws).lemma_filter_len(is_visible());
}

/// Cursor law: a tick that is not idle, with the cursor above the bottom,
/// moves the cursor down by exactly one row and appends exactly one glyph,
/// fresh and fully opaque, at the row the cursor was on.
pub proof fn law_spawn(column: Column, elapsed_ms: nat, draws: DrawsView)
    requires
        column.wf(),
        !column.idle(elapsed_ms),
        column.current_index < column.max_len,
    ensures
        column.outcome(elapsed_ms, draws) == Outcome::Spawned,
        column.step(elapsed_ms, draws).current_index == column.current_index + 1,
        column.step(elapsed_ms, draws).characters.drop_last() == column.survivors(draws),
        column.step(elapsed_ms, draws).characters.last() == column.spawned(draws.spawn as int),
        column.spawned(draws.spawn as int).y == column.current_index * column.pitch(),
        column.spawned(draws.spawn as int).alpha == OPAQUE,
        column.spawned(draws.spawn as int).light_alpha == OPAQUE,
{
    let after = column.step(elapsed_ms, draws);
    assert(column.current_index * column.pitch() <= (column.max_len - 1) * column.pitch())
        by (nonlinear_arith)
        requires
            column.current_index <= column.max_len - 1,
            column.pitch() >= 0,
    ;
}

/// Idle law: while a pause is pending a tick changes nothing, so no glyph
/// appears, ages or mutates, whatever the draws.
pub proof fn law_idle(column: Column, elapsed_ms: nat, draws: DrawsView)
    requires
        column.idle(elapsed_ms),
    ensures
        column.outcome(elapsed_ms, draws) == Outcome::Idle,
        column.step(elapsed_ms, draws) == column,
{
}

/// Drain law: a column restarts exactly on a tick that is not idle, finds
/// the cursor at the bottom and leaves no glyph; it then stands empty with
/// the cursor at the top and the drawn pause ahead. With glyphs left the
/// cursor stays at the bottom.
pub proof fn law_restart(column: Column, elapsed_ms: nat, draws: DrawsView)
    requires
        column.wf(),
    ensures
        column.outcome(elapsed_ms, draws) == Outcome::Restarted <==> !column.idle(elapsed_ms)
            && column.current_index == column.max_len && column.survivors(draws).len() == 0,
        column.outcome(elapsed_ms, draws) == Outcome::Restarted ==> column.step(
            elapsed_ms,
            draws,
        ).current_index == 0 && column.step(elapsed_ms, draws).characters.len() == 0
            && column.step(elapsed_ms, draws).delay_ms == draws.delay_ms,
        column.outcome(elapsed_ms, draws) == Outcome::Draining ==> column.step(
            elapsed_ms,
            draws,
        ).current_index == column.max_len && column.step(elapsed_ms, draws).characters.len() > 0
            && column.step(elapsed_ms, draws).delay_ms == column.delay_ms,
{
}

/// Pause law: a column that has just restarted spawns nothing for as long as
/// less than the drawn pause has passed, and on the first tick after that
/// it spawns its first glyph at row 0 and moves the cursor to row 1.
pub proof fn law_pause(
    column: Column,
    elapsed_ms: nat,
    draws: DrawsView,
    later_ms: nat,
    next: DrawsView,
)
    requires
        column.wf(),
        column.outcome(elapsed_ms, draws) == Outcome::Restarted,
        column.max_len > 0,
    ensures
        later_ms < draws.delay_ms ==> column.step(elapsed_ms, draws).step(later_ms, next)
            == column.step(elapsed_ms, draws),
        later_ms >= draws.delay_ms ==> column.step(elapsed_ms, draws).step(
            later_ms,
            next,
        ).current_index == 1 && column.step(elapsed_ms, draws).step(later_ms, next).characters
            == seq![column.step(elapsed_ms, draws).spawned(next.spawn as int)]
            && column.step(elapsed_ms, draws).spawned(next.spawn as int).y == 0,
{
    let rest = column.step(elapsed_ms, draws);
    if later_ms >= draws.delay_ms {
        assert(rest.survivors(next) =~= Seq::<Character>::empty()) by {
            rest.aged(next).lemma_filter_len(is_visible());
        }
    }
}

/// Mutation law, rate one: with the mutation rate at the top of the scale
/// every glyph that is visible after ageing shows the character that was
/// picked for it in that tick.
pub proof fn law_mutation_always(column: Column, draws: DrawsView, i: int)
    requires
        column.mutation_rate == RATE_SCALE,
        draws.in_range(),
        0 <= i < column.characters.len(),
        i < draws.glyphs.len(),
        column.characters[i].aged().visible(),
    ensures
        column.aged_glyph(draws, i).tile == column.tiles[draws.glyphs[i].pick as int],
{
}

/// Mutation law, rate zero: with a mutation rate of zero no tick changes the
/// character of any glyph.
pub proof fn law_mutation_never(column: Column, draws: DrawsView, i: int)
    requires
        column.mutation_rate == 0,
        0 <= i < column.characters.len(),
    ensures
        column.aged_glyph(draws, i).tile == column.characters[i].tile,
        column.aged_glyph(draws, i) == column.characters[i].aged(),
{
}

/// Mutation never touches anything but the character: with any rate and any
/// draw the opacities of a glyph after a tick are those of ageing alone.
pub proof fn law_mutation_keeps_opacity(column: Column, draws: DrawsView, i: int)
    requires
        0 <= i < column.characters.len(),
    ensures
        column.aged_glyph(draws, i) == (Character {
            tile: column.aged_glyph(draws, i).tile,
            ..column.characters[i].aged()
        }),
{
}

/// One tick: the time that has passed since the last restart, and the
/// random numbers to spend.
pub struct Tick {
    pub elapsed_ms: nat,
    pub draws: DrawsView,
}

/// The column after a sequence of ticks.
pub open spec fn run(column: Column, ticks: Seq<Tick>) -> Column
    decreases ticks.len(),
{
    if ticks.len() == 0 {
        column
    } else {
        run(column, ticks.drop_last()).step(ticks.last().elapsed_ms, ticks.last().draws)
    }
}

/// Waiting law: however many ticks come while the pause is pending, the
/// column stays exactly as it is; no glyph appears in the pause.
pub proof fn law_waiting(column: Column, ticks: Seq<Tick>)
    requires
        forall|k: int| 0 <= k < ticks.len() ==> column.idle((#[trigger] ticks[k]).elapsed_ms),
    ensures
        run(column, ticks) == column,
    decreases ticks.len(),
{
    if ticks.len() > 0 {
        let first = ticks.drop_last();
        assert forall|k: int| 0 <= k < first.len() implies column.idle(
            (#[trigger] first[k]).elapsed_ms,
        ) by {
            assert(first[k] == ticks[k]);
        }
        law_waiting(column, first);
        assert(column.idle(ticks[ticks.len() - 1].elapsed_ms));
    }
}

/// Every glyph of the column fades out in a single tick.
pub open spec fn single_tick_fades(column: Column) -> bool {
    &&& column.fade_speed >= OPAQUE
    &&& column.light_speed >= OPAQUE
}

/// A column as a field is built with: no glyphs, the cursor at the top and no
/// pause.
pub open spec fn is_fresh(column: Column) -> bool {
    &&& column.wf()
    &&& column.characters.len() == 0
    &&& column.current_index == 0
    &&& column.delay_ms == 0
}

/// Run invariant: any number of ticks keeps a well-formed column
/// well-formed and changes nothing but its glyphs, cursor and pause.
pub proof fn law_run_keeps_invariant(column: Column, ticks: Seq<Tick>)
    requires
        column.wf(),
    ensures
        run(column, ticks).wf(),
        run(column, ticks) == (Column {
            characters: run(column, ticks).characters,
            current_index: run(column, ticks).current_index,
            delay_ms: run(column, ticks).delay_ms,
            ..column
        }),
    decreases ticks.len(),
{
    if ticks.len() > 0 {
        law_run_keeps_invariant(column, ticks.drop_last());
        law_step_keeps_invariant(
            run(column, ticks.drop_last()),
            ticks.last().elapsed_ms,
            ticks.last().draws,
        );
    }
}

/// Sweep law: a fresh column spawns on each of its first ticks, one row per
/// tick from the top down. After `k` ticks, with `k` no more than the number
/// of rows, the cursor is on row `k`, and the youngest glyph is the one
/// spawned by tick `k`, at row `k - 1`: every row is spawned exactly once on
/// the way down, by the tick of its own number.
pub proof fn law_sweep(column: Column, ticks: Seq<Tick>)
    requires
        is_fresh(column),
        ticks.len() <= column.max_len,
    ensures
        run(column, ticks).current_index == ticks.len(),
        run(column, ticks).delay_ms == 0,
        ticks.len() > 0 ==> run(column, ticks).characters.len() > 0 && run(
            column,
            ticks,
        ).characters.last() == run(column, ticks.drop_last()).spawned(
            ticks.last().draws.spawn as int,
        ) && run(column, ticks).characters.last().y == (ticks.len() - 1) * column.pitch(),
    decreases ticks.len(),
{
    if ticks.len() > 0 {
        let before = run(column, ticks.drop_last());
        let t = ticks.last();
        law_sweep(column, ticks.drop_last());
        law_run_keeps_invariant(column, ticks.drop_last());
        law_spawn(before, t.elapsed_ms, t.draws);
    }
}

/// Sweep law with single-tick fades: where every glyph fades out in one tick,
/// a fresh column holds after each of its first `k` ticks only the glyph
/// that the last tick spawned.
pub proof fn law_sweep_single(column: Column, ticks: Seq<Tick>)
    requires
        is_fresh(column),
        single_tick_fades(column),
        0 < ticks.len() <= column.max_len,
    ensures
        run(column, ticks).characters == seq![
            run(column, ticks.drop_last()).spawned(ticks.last().draws.spawn as int),
        ],
    decreases ticks.len(),
{
    let before = run(column, ticks.drop_last());
    let t = ticks.last();
    law_sweep(column, ticks.drop_last());
    law_run_keeps_invariant(column, ticks.drop_last());
    if ticks.len() > 1 {
        law_sweep_single(column, ticks.drop_last());
        law_run_keeps_invariant(column, ticks.drop_last().drop_last());
    }
    lemma_no_survivors(before, t.draws);
}

/// Where no aged glyph is visible, none stays.
proof fn lemma_no_survivors(column: Column, draws: DrawsView)
    requires
        forall|i: int|
            0 <= i < column.characters.len() ==> !(#[trigger] column.aged_glyph(draws, i)).visible(),
    ensures
        column.survivors(draws).len() == 0,
{
    let kept = column.survivors(draws);
    if kept.len() > 0 {
        column.aged(draws).lemma_filter_pred(is_visible(), 0);
        column.aged(draws).lemma_filter_contains_rev(is_visible(), kept[0]);
    }
}

/// Cycle law: where every glyph fades out in one tick, a fresh column of
/// `R` rows spawns row `k - 1` on its tick number `k` for every `k` up to
/// `R`, and holds nothing else then; so each row is spawned exactly once.
/// After `R` ticks the cursor is at the bottom, and after exactly one tick
/// more it is back at the top, the column empty, with the pause ahead that
/// this last tick drew.
pub proof fn law_cycle(column: Column, ticks: Seq<Tick>)
    requires
        is_fresh(column),
        single_tick_fades(column),
        ticks.len() == column.max_len + 1,
    ensures
        forall|k: int|
            0 < k <= column.max_len ==> {
                &&& (#[trigger] run(column, ticks.take(k))).current_index == k
                &&& run(column, ticks.take(k)).characters.len() == 1
                &&& run(column, ticks.take(k)).characters[0].y == (k - 1) * column.pitch()
                &&& run(column, ticks.take(k)).characters[0].alpha == OPAQUE
            },
        run(column, ticks.drop_last()).current_index == column.max_len,
        run(column, ticks).current_index == 0,
        run(column, ticks).characters.len() == 0,
        run(column, ticks).delay_ms == ticks.last().draws.delay_ms,
{
    assert forall|k: int| 0 < k <= column.max_len implies {
        &&& (#[trigger] run(column, ticks.take(k))).current_index == k
        &&& run(column, ticks.take(k)).characters.len() == 1
        &&& run(column, ticks.take(k)).characters[0].y == (k - 1) * column.pitch()
        &&& run(column, ticks.take(k)).characters[0].alpha == OPAQUE
    } by {
        let part = ticks.take(k);
        law_sweep(column, part);
        law_sweep(column, part.drop_last());
        law_sweep_single(column, part);
        law_run_keeps_invariant(column, part.drop_last());
        law_spawn(run(column, part.drop_last()), part.last().elapsed_ms, part.last().draws);
    }
    let sweep = ticks.drop_last();
    let before = run(column, sweep);
    let t = ticks.last();
    law_sweep(column, sweep);
    law_run_keeps_invariant(column, sweep);
    if sweep.len() > 0 {
        law_sweep_single(column, sweep);
        law_run_keeps_invariant(column, sweep.drop_last());
    }
    lemma_no_survivors(before, t.draws);
}

/// Geometry law: a canvas `width` by `height` pixels holds one column per
/// whole font width and one row per whole row pitch plus one; column `i`
/// stands at `i` font widths from the left; and the last row starts inside
/// the canvas.
pub proof fn law_geometry(cfg: &Config, width: u32, height: u32, i: int)
    requires
        cfg.valid(),
        0 <= i < column_count(cfg, width),
    ensures
        column_count(cfg, width) == width as int / cfg.font_size as int,
        row_count(cfg, height) == height as int / (cfg.font_size + cfg.spaceing) + 1,
        fresh_column(cfg, i, height).x == i * cfg.font_size,
        fresh_column(cfg, i, height).x + cfg.font_size <= width,
        (row_count(cfg, height) - 1) * (cfg.font_size + cfg.spaceing) <= height,
        row_count(cfg, height) * (cfg.font_size + cfg.spaceing) > height,
        is_fresh(fresh_column(cfg, i, height)),
{
    let fs = cfg.font_size as int;
    let pitch = cfg.font_size + cfg.spaceing;
    assert((i + 1) * fs <= width) by (nonlinear_arith)
        requires
            0 <= i < width as int / fs,
            fs > 0,
    ;
    assert((i + 1) * fs == i * fs + fs) by (nonlinear_arith);
    assert(i * fs >= 0) by (nonlinear_arith)
        requires
            i >= 0,
            fs > 0,
    ;
    assert((height as int / pitch) * pitch <= height) by (nonlinear_arith)
        requires
            pitch > 0,
    ;
    assert(height as int / pitch >= 0) by (nonlinear_arith)
        requires
            pitch > 0,
    ;
    assert((height as int / pitch + 1) * pitch > height) by (nonlinear_arith)
        requires
            pitch > 0,
    ;
}

/// Two settings that agree in font size and row spacing give the same
/// geometry on the same canvas, whatever else they hold.
pub proof fn law_same_geometry(a: &Config, b: &Config, width: u32, height: u32)
    requires
        a.font_size == b.font_size,
        a.spaceing == b.spaceing,
    ensures
        column_count(a, width) == column_count(b, width),
        row_count(a, height) == row_count(b, height),
        forall|i: int| fresh_column(a, i, height).x == fresh_column(b, i, height).x,
{
}

} // verus!
