use matrix_rain::characters::{fade, Character, Stroke};
use matrix_rain::color::Color;

fn glyph(fade_speed: u32, light_speed: u32) -> Character {
    Character {
        x: 32,
        y: 48,
        font_size: 16,
        tile: 'k',
        color: Color { a: 255, r: 0, g: 255, b: 70 },
        light_color: Color { a: 255, r: 255, g: 255, b: 255 },
        alpha: 255,
        light_alpha: 255,
        fade_speed,
        light_speed,
    }
}

#[test]
fn default_glyph_is_a_white_opaque_a() {
    let c = Character::default();
    assert_eq!(c.x, 0);
    assert_eq!(c.y, 0);
    assert_eq!(c.font_size, 14);
    assert_eq!(c.tile, 'A');
    assert_eq!(c.color, Color { a: 255, r: 255, g: 255, b: 255 });
    assert_eq!(c.light_color, Color { a: 255, r: 255, g: 255, b: 255 });
    assert_eq!(c.alpha, 255);
    assert_eq!(c.light_alpha, 255);
    assert_eq!(c.fade_speed, 10);
    assert_eq!(c.light_speed, 200);
}

#[test]
fn fade_subtracts_and_stops_at_zero() {
    assert_eq!(fade(255, 10), 245);
    assert_eq!(fade(10, 10), 0);
    assert_eq!(fade(9, 10), 0);
    assert_eq!(fade(0, 10), 0);
    assert_eq!(fade(200, 0), 200);
    assert_eq!(fade(255, 255), 0);
    assert_eq!(fade(255, 4_000_000_000), 0);
    assert_eq!(fade(1, 1), 0);
    assert_eq!(fade(2, 1), 1);
}

#[test]
fn opacity_after_n_updates_follows_the_formula() {
    let mut c = glyph(10, 200);
    let mut n: i64 = 0;
    while n < 40 {
        let ink = std::cmp::max(0, 255 - n * 10);
        let flash = std::cmp::max(0, 255 - n * 200);
        assert_eq!(c.alpha as i64, ink);
        assert_eq!(c.light_alpha as i64, flash);
        c.update();
        n += 1;
    }
    assert_eq!(c.alpha, 0);
    assert_eq!(c.light_alpha, 0);
}

#[test]
fn exact_opacities_of_the_first_updates() {
    let mut c = glyph(10, 200);
    c.update();
    assert_eq!((c.alpha, c.light_alpha), (245, 55));
    c.update();
    assert_eq!((c.alpha, c.light_alpha), (235, 0));
    c.update();
    assert_eq!((c.alpha, c.light_alpha), (225, 0));
}

#[test]
fn update_changes_nothing_but_the_opacities() {
    let before = glyph(7, 9);
    let mut c = before;
    c.update();
    assert_eq!(c, Character { alpha: 248, light_alpha: 246, ..before });
}

#[test]
fn opacity_never_rises() {
    let mut c = glyph(37, 91);
    let mut last = (c.alpha, c.light_alpha);
    for _ in 0..20 {
        c.update();
        assert!(c.alpha <= last.0);
        assert!(c.light_alpha <= last.1);
        last = (c.alpha, c.light_alpha);
    }
}

#[test]
fn full_steps_finish_a_fresh_glyph_in_one_update() {
    let mut c = glyph(255, 255);
    assert!(!c.is_finished());
    c.update();
    assert_eq!(c.alpha, 0);
    assert_eq!(c.light_alpha, 0);
    assert!(c.is_finished());
}

#[test]
fn passes_fade_independently() {
    let mut ink_first = glyph(255, 100);
    ink_first.update();
    assert_eq!((ink_first.alpha, ink_first.light_alpha), (0, 155));
    assert!(!ink_first.is_finished());
    let mut flash_first = glyph(100, 255);
    flash_first.update();
    assert_eq!((flash_first.alpha, flash_first.light_alpha), (155, 0));
    assert!(!flash_first.is_finished());
    flash_first.update();
    flash_first.update();
    assert!(flash_first.is_finished());
}

#[test]
fn a_finished_glyph_stays_finished() {
    let mut c = glyph(255, 255);
    c.update();
    let done = c;
    c.update();
    assert_eq!(c, done);
}

#[test]
fn zero_speed_never_fades() {
    let mut c = glyph(0, 0);
    for _ in 0..10 {
        c.update();
    }
    assert_eq!((c.alpha, c.light_alpha), (255, 255));
}

#[test]
fn fresh_glyph_draws_ink_then_flash() {
    let c = glyph(10, 200);
    let mut canvas: Vec<Stroke> = Vec::new();
    let count = c.draw(&mut canvas);
    assert_eq!(count, 2);
    assert_eq!(
        canvas,
        vec![
            Stroke { tile: 'k', x: 32, y: 48, font_size: 16, color: Color { a: 255, r: 0, g: 255, b: 70 } },
            Stroke { tile: 'k', x: 32, y: 48, font_size: 16, color: Color { a: 255, r: 255, g: 255, b: 255 } },
        ]
    );
}

#[test]
fn draw_uses_the_current_opacity() {
    let mut c = glyph(10, 200);
    c.update();
    let mut canvas: Vec<Stroke> = Vec::new();
    assert_eq!(c.draw(&mut canvas), 2);
    assert_eq!(canvas[0].color, Color { a: 245, r: 0, g: 255, b: 70 });
    assert_eq!(canvas[1].color, Color { a: 55, r: 255, g: 255, b: 255 });
}

#[test]
fn ink_only_glyph_draws_one_pass() {
    let mut c = glyph(10, 200);
    c.update();
    c.update();
    let mut canvas: Vec<Stroke> = Vec::new();
    assert_eq!(c.draw(&mut canvas), 1);
    assert_eq!(
        canvas,
        vec![Stroke { tile: 'k', x: 32, y: 48, font_size: 16, color: Color { a: 235, r: 0, g: 255, b: 70 } }]
    );
}

#[test]
fn flash_only_glyph_draws_one_pass() {
    let mut c = glyph(255, 100);
    c.update();
    let mut canvas: Vec<Stroke> = Vec::new();
    assert_eq!(c.draw(&mut canvas), 1);
    assert_eq!(
        canvas,
        vec![Stroke { tile: 'k', x: 32, y: 48, font_size: 16, color: Color { a: 155, r: 255, g: 255, b: 255 } }]
    );
}

#[test]
fn finished_glyph_draws_nothing() {
    let mut c = glyph(255, 255);
    c.update();
    let mut canvas: Vec<Stroke> = Vec::new();
    assert_eq!(c.draw(&mut canvas), 0);
    assert!(canvas.is_empty());
}

#[test]
fn draw_appends_to_what_is_on_the_canvas() {
    let first = Stroke { tile: 'q', x: 1, y: 2, font_size: 3, color: Color { a: 4, r: 5, g: 6, b: 7 } };
    let mut canvas = vec![first];
    let c = glyph(10, 200);
    assert_eq!(c.draw(&mut canvas), 2);
    assert_eq!(canvas.len(), 3);
    assert_eq!(canvas[0], first);
    assert_eq!(canvas[1].tile, 'k');
}

#[test]
fn mutation_happens_when_the_roll_is_below_the_rate() {
    let mut c = glyph(10, 200);
    c.maybe_mutate(999, 1000, 'z');
    assert_eq!(c.tile, 'z');
    assert_eq!(Character { tile: 'k', ..c }, glyph(10, 200));
}

#[test]
fn mutation_does_not_happen_at_or_above_the_rate() {
    let mut c = glyph(10, 200);
    c.maybe_mutate(1000, 1000, 'z');
    assert_eq!(c, glyph(10, 200));
    c.maybe_mutate(1001, 1000, 'z');
    assert_eq!(c, glyph(10, 200));
    c.maybe_mutate(0, 0, 'z');
    assert_eq!(c, glyph(10, 200));
}

#[test]
fn a_finished_glyph_does_not_mutate() {
    let mut c = glyph(255, 255);
    c.update();
    c.maybe_mutate(0, 1_000_000, 'z');
    assert_eq!(c.tile, 'k');
}

#[test]
fn a_half_faded_glyph_still_mutates() {
    let mut c = glyph(255, 100);
    c.update();
    c.maybe_mutate(0, 1, 'z');
    assert_eq!(c.tile, 'z');
}
