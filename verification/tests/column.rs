use matrix_rain::characters::{
    Character, CharacterString, Draws, GlyphDraw, Outcome, Stroke, IDLE_MAX_MS, IDLE_MIN_MS,
    RATE_SCALE,
};
use matrix_rain::color::Color;

const GREEN: Color = Color { a: 255, r: 0, g: 255, b: 70 };
const WHITE: Color = Color { a: 255, r: 255, g: 255, b: 255 };

fn column(max_len: u64, fade_speed: u32, light_speed: u32, rate: u32) -> CharacterString {
    CharacterString::new(max_len, 32, 16, 2, fade_speed, light_speed, rate, GREEN, WHITE, vec!['a', 'b', 'c'])
}

fn draws(glyphs: Vec<(u32, usize)>, spawn: usize, delay_ms: u64) -> Draws {
    Draws {
        glyphs: glyphs.into_iter().map(|(roll, pick)| GlyphDraw { roll, pick }).collect(),
        spawn,
        delay_ms,
    }
}

fn quiet(column: &CharacterString, spawn: usize) -> Draws {
    draws(vec![(RATE_SCALE - 1, 0); column.characters.len()], spawn, 1500)
}

fn fresh(tile: char, y: u32, fade_speed: u32, light_speed: u32) -> Character {
    Character {
        x: 32,
        y,
        font_size: 16,
        tile,
        color: GREEN,
        light_color: WHITE,
        alpha: 255,
        light_alpha: 255,
        fade_speed,
        light_speed,
    }
}

#[test]
fn new_column_is_empty_at_the_top_without_pause() {
    let c = column(3, 100, 255, 0);
    assert!(c.characters.is_empty());
    assert_eq!(c.max_len, 3);
    assert_eq!(c.current_index, 0);
    assert_eq!(c.delay_ms(), 0);
    assert_eq!(c.x, 32);
    assert_eq!(c.font_size, 16);
    assert_eq!(c.spacing, 2);
    assert_eq!(c.fade_speed, 100);
    assert_eq!(c.light_speed, 255);
    assert_eq!(c.mutation_rate, 0);
    assert_eq!(c.color, GREEN);
    assert_eq!(c.light_color, WHITE);
    assert_eq!(c.tiles, vec!['a', 'b', 'c']);
    assert!(c.is_wf());
}

#[test]
fn invariant_check_rejects_broken_columns() {
    let empty_alphabet = CharacterString::new(3, 0, 16, 0, 1, 1, 0, GREEN, WHITE, vec![]);
    assert!(!empty_alphabet.is_wf());
    let rate_off_scale = CharacterString::new(3, 0, 16, 0, 1, 1, RATE_SCALE + 1, GREEN, WHITE, vec!['a']);
    assert!(!rate_off_scale.is_wf());
    let rows_off_canvas = CharacterString::new(u64::MAX, 0, 16, 0, 1, 1, 0, GREEN, WHITE, vec!['a']);
    assert!(!rows_off_canvas.is_wf());
    let mut cursor_below_bottom = column(3, 1, 1, 0);
    cursor_below_bottom.current_index = 4;
    assert!(!cursor_below_bottom.is_wf());
    let mut glyph_before_cursor = column(3, 1, 1, 0);
    glyph_before_cursor.characters.push(fresh('a', 0, 1, 1));
    assert!(!glyph_before_cursor.is_wf());
    let no_rows = CharacterString::new(0, 0, 16, 0, 1, 1, 0, GREEN, WHITE, vec!['a']);
    assert!(no_rows.is_wf());
    let last_row_fits = CharacterString::new(2, 0, u32::MAX, 0, 1, 1, 0, GREEN, WHITE, vec!['a']);
    assert!(last_row_fits.is_wf());
    let last_row_overflows = CharacterString::new(3, 0, u32::MAX, 0, 1, 1, 0, GREEN, WHITE, vec!['a']);
    assert!(!last_row_overflows.is_wf());
}

#[test]
fn accepts_checks_length_and_picks() {
    let mut c = column(3, 100, 255, 0);
    assert!(c.accepts(&draws(vec![], 2, 0)));
    assert!(!c.accepts(&draws(vec![], 3, 0)));
    assert!(!c.accepts(&draws(vec![(0, 0)], 0, 0)));
    c.tick(0, &draws(vec![], 0, 0));
    assert!(c.accepts(&draws(vec![(0, 2)], 0, 0)));
    assert!(!c.accepts(&draws(vec![(0, 3)], 0, 0)));
    assert!(!c.accepts(&draws(vec![], 0, 0)));
    assert!(!c.accepts(&draws(vec![(0, 0), (0, 0)], 0, 0)));
}

#[test]
fn first_tick_spawns_at_row_zero() {
    let mut c = column(3, 100, 255, 0);
    let outcome = c.tick(0, &draws(vec![], 1, 1500));
    assert_eq!(outcome, Outcome::Spawned);
    assert_eq!(c.current_index, 1);
    assert_eq!(c.characters, vec![fresh('b', 0, 100, 255)]);
    assert_eq!(c.delay_ms(), 0);
    assert!(c.is_wf());
}

#[test]
fn a_column_runs_through_spawning_draining_and_restart() {
    let mut c = column(3, 100, 255, 0);
    assert_eq!(c.tick(0, &draws(vec![], 1, 1500)), Outcome::Spawned);
    assert_eq!(c.tick(0, &draws(vec![(0, 2)], 0, 1500)), Outcome::Spawned);
    assert_eq!(c.current_index, 2);
    assert_eq!(
        c.characters,
        vec![
            Character { alpha: 155, light_alpha: 0, ..fresh('b', 0, 100, 255) },
            fresh('a', 18, 100, 255),
        ]
    );
    assert_eq!(c.tick(0, &draws(vec![(0, 2), (0, 2)], 2, 1500)), Outcome::Spawned);
    assert_eq!(c.current_index, 3);
    assert_eq!(
        c.characters,
        vec![
            Character { alpha: 55, light_alpha: 0, ..fresh('b', 0, 100, 255) },
            Character { alpha: 155, light_alpha: 0, ..fresh('a', 18, 100, 255) },
            fresh('c', 36, 100, 255),
        ]
    );
    assert_eq!(c.tick(0, &draws(vec![(0, 0), (0, 0), (0, 0)], 0, 1500)), Outcome::Draining);
    assert_eq!(c.current_index, 3);
    assert_eq!(
        c.characters,
        vec![
            Character { alpha: 55, light_alpha: 0, ..fresh('a', 18, 100, 255) },
            Character { alpha: 155, light_alpha: 0, ..fresh('c', 36, 100, 255) },
        ]
    );
    assert_eq!(c.tick(0, &draws(vec![(0, 0), (0, 0)], 0, 1500)), Outcome::Draining);
    assert_eq!(c.characters, vec![Character { alpha: 55, light_alpha: 0, ..fresh('c', 36, 100, 255) }]);
    assert_eq!(c.delay_ms(), 0);
    assert_eq!(c.tick(0, &draws(vec![(0, 0)], 0, 1500)), Outcome::Restarted);
    assert!(c.characters.is_empty());
    assert_eq!(c.current_index, 0);
    assert_eq!(c.delay_ms(), 1500);
    assert!(c.is_wf());
}

fn drained(delay_ms: u64) -> CharacterString {
    let mut c = column(2, 255, 255, 0);
    assert_eq!(c.tick(0, &quiet(&c, 0)), Outcome::Spawned);
    assert_eq!(c.tick(0, &quiet(&c, 0)), Outcome::Spawned);
    let last = draws(vec![(0, 0)], 0, delay_ms);
    assert_eq!(c.tick(0, &last), Outcome::Restarted);
    c
}

#[test]
fn no_glyph_appears_while_the_pause_is_pending() {
    let mut c = drained(3000);
    for elapsed in [0u64, 1, 1500, 2999] {
        assert_eq!(c.tick(elapsed, &quiet(&c, 1)), Outcome::Idle);
        assert!(c.characters.is_empty());
        assert_eq!(c.current_index, 0);
        assert_eq!(c.delay_ms(), 3000);
    }
}

#[test]
fn spawning_resumes_at_row_zero_when_the_pause_is_over() {
    let mut c = drained(3000);
    assert_eq!(c.tick(2999, &quiet(&c, 1)), Outcome::Idle);
    assert_eq!(c.tick(3000, &quiet(&c, 1)), Outcome::Spawned);
    assert_eq!(c.current_index, 1);
    assert_eq!(c.characters, vec![fresh('b', 0, 255, 255)]);
    let mut late = drained(3000);
    assert_eq!(late.tick(u64::MAX, &quiet(&late, 2)), Outcome::Spawned);
    assert_eq!(late.characters, vec![fresh('c', 0, 255, 255)]);
}

#[test]
fn an_idle_tick_neither_ages_nor_mutates() {
    let mut c = CharacterString::new(4, 32, 16, 2, 10, 10, RATE_SCALE, GREEN, WHITE, vec!['a', 'b', 'c']);
    c.current_index = 4;
    assert_eq!(c.tick(0, &draws(vec![], 0, 2000)), Outcome::Restarted);
    assert_eq!(c.delay_ms(), 2000);
    let glyph = Character { alpha: 200, light_alpha: 100, ..fresh('a', 0, 10, 10) };
    c.characters = vec![glyph];
    c.current_index = 1;
    assert!(c.is_wf());
    assert_eq!(c.tick(1999, &draws(vec![(0, 2)], 1, 5000)), Outcome::Idle);
    assert_eq!(c.characters, vec![glyph]);
    assert_eq!(c.current_index, 1);
    assert_eq!(c.delay_ms(), 2000);
    assert_eq!(c.tick(2000, &draws(vec![(0, 2)], 1, 5000)), Outcome::Spawned);
    assert_eq!(
        c.characters,
        vec![
            Character { tile: 'c', alpha: 190, light_alpha: 90, ..fresh('a', 0, 10, 10) },
            fresh('b', 18, 10, 10),
        ]
    );
    assert_eq!(c.delay_ms(), 2000);
}

#[test]
fn single_tick_fades_sweep_the_rows_once_and_restart_one_tick_later() {
    let rows: u64 = 4;
    let mut c = column(rows, 255, 255, 0);
    for k in 0..rows {
        assert_eq!(c.current_index, k);
        assert_eq!(c.tick(0, &quiet(&c, 0)), Outcome::Spawned);
        assert_eq!(c.characters, vec![fresh('a', (k as u32) * 18, 255, 255)]);
    }
    assert_eq!(c.current_index, rows);
    assert_eq!(c.tick(0, &draws(vec![(0, 0)], 0, 6999)), Outcome::Restarted);
    assert_eq!(c.current_index, 0);
    assert!(c.characters.is_empty());
    assert_eq!(c.delay_ms(), 6999);
}

#[test]
fn a_column_without_rows_restarts_at_once() {
    let mut c = column(0, 255, 255, 0);
    assert_eq!(c.tick(0, &draws(vec![], 0, 1000)), Outcome::Restarted);
    assert_eq!(c.current_index, 0);
    assert!(c.characters.is_empty());
    assert_eq!(c.delay_ms(), 1000);
    assert_eq!(c.tick(999, &draws(vec![], 0, 2000)), Outcome::Idle);
    assert_eq!(c.tick(1000, &draws(vec![], 0, 2000)), Outcome::Restarted);
    assert_eq!(c.delay_ms(), 2000);
}

#[test]
fn glyphs_leave_exactly_when_both_opacities_are_zero() {
    let mut c = column(10, 100, 255, 0);
    c.characters = vec![
        Character { alpha: 100, light_alpha: 0, ..fresh('a', 0, 100, 255) },
        Character { alpha: 101, light_alpha: 0, ..fresh('b', 18, 100, 255) },
        Character { alpha: 0, light_alpha: 255, ..fresh('c', 36, 100, 255) },
        Character { alpha: 0, light_alpha: 255, ..fresh('a', 54, 100, 254) },
        Character { alpha: 0, light_alpha: 0, ..fresh('b', 72, 100, 255) },
        Character { alpha: 1, light_alpha: 1, ..fresh('c', 90, 0, 0) },
    ];
    c.current_index = 10;
    assert!(c.is_wf());
    assert_eq!(c.tick(0, &quiet(&c, 0)), Outcome::Draining);
    assert_eq!(
        c.characters,
        vec![
            Character { alpha: 1, light_alpha: 0, ..fresh('b', 18, 100, 255) },
            Character { alpha: 0, light_alpha: 1, ..fresh('a', 54, 100, 254) },
            Character { alpha: 1, light_alpha: 1, ..fresh('c', 90, 0, 0) },
        ]
    );
}

#[test]
fn rate_one_redraws_every_visible_glyph_each_tick() {
    let mut c = column(8, 10, 10, RATE_SCALE);
    for _ in 0..4 {
        c.tick(0, &draws(vec![(RATE_SCALE - 1, 0); c.characters.len()], 0, 1500));
    }
    assert_eq!(c.characters.iter().map(|g| g.tile).collect::<Vec<char>>(), vec!['a'; 4]);
    c.tick(0, &draws(vec![(0, 2), (RATE_SCALE - 1, 1), (17, 0), (500_000, 2)], 1, 1500));
    assert_eq!(c.characters.iter().map(|g| g.tile).collect::<Vec<char>>(), vec!['c', 'b', 'a', 'c', 'b']);
    c.tick(0, &draws(vec![(0, 1), (0, 1), (0, 1), (0, 1), (0, 1)], 2, 1500));
    assert_eq!(
        c.characters.iter().map(|g| g.tile).collect::<Vec<char>>(),
        vec!['b', 'b', 'b', 'b', 'b', 'c']
    );
}

#[test]
fn rate_zero_never_changes_a_character() {
    let mut c = column(8, 10, 10, 0);
    let mut spawn = 0;
    for _ in 0..8 {
        c.tick(0, &draws(vec![(0, 2); c.characters.len()], spawn % 3, 1500));
        spawn += 1;
    }
    let tiles: Vec<char> = c.characters.iter().map(|g| g.tile).collect();
    assert_eq!(tiles, vec!['a', 'b', 'c', 'a', 'b', 'c', 'a', 'b']);
    for _ in 0..10 {
        assert_eq!(c.tick(0, &draws(vec![(0, 2); c.characters.len()], 0, 1500)), Outcome::Draining);
        let now: Vec<char> = c.characters.iter().map(|g| g.tile).collect();
        assert_eq!(now, tiles);
    }
}

#[test]
fn mutation_takes_the_roll_against_the_rate() {
    let mut c = column(8, 10, 10, 250_000);
    c.tick(0, &draws(vec![], 0, 1500));
    c.tick(0, &draws(vec![(250_000, 2)], 0, 1500));
    assert_eq!(c.characters[0].tile, 'a');
    c.tick(0, &draws(vec![(249_999, 2), (250_001, 1)], 0, 1500));
    assert_eq!(c.characters[0].tile, 'c');
    assert_eq!(c.characters[1].tile, 'a');
}

#[test]
fn column_draws_its_glyphs_in_order() {
    let mut c = column(3, 100, 255, 0);
    c.tick(0, &draws(vec![], 1, 1500));
    c.tick(0, &draws(vec![(0, 0)], 2, 1500));
    let mut canvas: Vec<Stroke> = Vec::new();
    let count = c.draw(&mut canvas);
    assert_eq!(count, 3);
    assert_eq!(
        canvas,
        vec![
            Stroke { tile: 'b', x: 32, y: 0, font_size: 16, color: Color { a: 155, ..GREEN } },
            Stroke { tile: 'c', x: 32, y: 18, font_size: 16, color: GREEN },
            Stroke { tile: 'c', x: 32, y: 18, font_size: 16, color: WHITE },
        ]
    );
    let mut empty_canvas: Vec<Stroke> = Vec::new();
    assert_eq!(column(3, 1, 1, 0).draw(&mut empty_canvas), 0);
    assert!(empty_canvas.is_empty());
}

#[test]
fn rolled_draws_fit_the_column_and_lie_in_range() {
    let mut c = column(6, 10, 10, 1000);
    for _ in 0..200 {
        let d = c.roll();
        assert_eq!(d.glyphs.len(), c.characters.len());
        assert!(d.spawn < 3);
        assert!(IDLE_MIN_MS <= d.delay_ms && d.delay_ms < IDLE_MAX_MS);
        for g in &d.glyphs {
            assert!(g.roll < RATE_SCALE);
            assert!(g.pick < 3);
        }
        assert!(c.accepts(&d));
        c.tick(0, &d);
    }
}

#[test]
fn rolls_vary() {
    let mut c = column(6, 10, 10, 1000);
    let mut delays = std::collections::BTreeSet::new();
    for _ in 0..50 {
        delays.insert(c.roll().delay_ms);
    }
    assert!(delays.len() > 1);
}

#[test]
fn roll_leaves_the_column_as_it_is() {
    let mut c = column(6, 10, 10, 1000);
    c.tick(0, &draws(vec![], 1, 1500));
    let glyphs = c.characters.clone();
    c.roll();
    assert_eq!(c.characters, glyphs);
    assert_eq!(c.current_index, 1);
    assert_eq!(c.delay_ms(), 0);
}

#[test]
fn update_spawns_down_the_column_then_pauses() {
    let mut c = column(3, 255, 255, 0);
    for k in 0..3u64 {
        c.update();
        assert_eq!(c.current_index, k + 1);
        assert_eq!(c.characters.len(), 1);
        assert_eq!(c.characters[0].y, (k as u32) * 18);
        assert!(['a', 'b', 'c'].contains(&c.characters[0].tile));
    }
    c.update();
    assert_eq!(c.current_index, 0);
    assert!(c.characters.is_empty());
    assert!(IDLE_MIN_MS <= c.delay_ms() && c.delay_ms() < IDLE_MAX_MS);
    let pause = c.delay_ms();
    c.update();
    assert!(c.characters.is_empty());
    assert_eq!(c.current_index, 0);
    assert_eq!(c.delay_ms(), pause);
    assert!(c.is_wf());
}

#[test]
fn update_resumes_after_the_pause() {
    let mut c = column(1, 255, 255, 0);
    c.update();
    c.update();
    assert_eq!(c.current_index, 0);
    let pause = c.delay_ms();
    let start = std::time::Instant::now();
    while start.elapsed() < std::time::Duration::from_millis(pause + 50) {
        std::hint::spin_loop();
    }
    c.update();
    assert_eq!(c.current_index, 1);
    assert_eq!(c.characters.len(), 1);
}
