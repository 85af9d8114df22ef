use wobbly_bars::bar::Bar;
use wobbly_bars::config::Config;
use wobbly_bars::physics::{after_publish, initial_bars, pacing_delay, physics_tick, standard_palette, InputState, TickOutcome};

fn bar_at(lpos: usize, width: usize, height: usize, velocity: i64) -> Bar {
    Bar { width, lpos, height, velocity, colour: 0x123456, debug: false }
}

fn damp(v: i64, d: i64) -> i64 {
    let loss = v * d;
    let t = if loss >= 0 { loss / 1000 } else { -((-loss) / 1000) };
    v - t
}

#[test]
fn standard_config_values() {
    let cfg = Config::standard();
    assert_eq!(cfg.screen_width, 1024);
    assert_eq!(cfg.screen_height, 768);
    assert_eq!(cfg.bar_count, 16);
    assert_eq!(cfg.centre_height, 256);
    assert_eq!(cfg.bar_width_px(), 64);
    assert_eq!(cfg.frame_len_px(), 1024 * 768);
}

#[test]
fn push_adds_acceleration_then_damps() {
    let cfg = Config::standard();
    let mut b = bar_at(0, 64, 256, 0);
    b.update_bar(&cfg, 32, true);
    assert_eq!(b.velocity, 5580);
    assert_eq!(b.velocity, damp(0 + 6000, 70));
    let mut b = bar_at(0, 64, 256, 1000);
    let trace = b.update_bar(&cfg, 32, true);
    assert_eq!(trace, 257);
    assert_eq!(b.velocity, 6510);
    assert_eq!(b.height, 257);
}

#[test]
fn right_edge_does_not_push() {
    let cfg = Config::standard();
    let mut b = bar_at(0, 64, 256, 0);
    b.update_bar(&cfg, 64, true);
    assert_eq!(b.velocity, 0);
    let mut inside = bar_at(0, 64, 256, 0);
    inside.update_bar(&cfg, 63, true);
    assert_eq!(inside.velocity, 5580);
}

#[test]
fn left_edge_pushes() {
    let cfg = Config::standard();
    let mut b = bar_at(64, 64, 256, 0);
    b.update_bar(&cfg, 64, true);
    assert_eq!(b.velocity, 5580);
    let mut left = bar_at(64, 64, 256, 0);
    left.update_bar(&cfg, 63, true);
    assert_eq!(left.velocity, 0);
}

#[test]
fn button_up_leaves_bar_to_spring() {
    let cfg = Config::standard();
    let mut b = bar_at(0, 64, 300, 0);
    b.update_bar(&cfg, 32, false);
    assert_eq!(b.velocity, -819);
    assert_eq!(b.height, 300);
}

#[test]
fn negative_provisional_height_is_traced_and_clamped() {
    let cfg = Config::standard();
    let mut b = bar_at(0, 64, 0, -5500);
    let trace = b.update_bar(&cfg, 500, false);
    assert_eq!(trace, -5);
    assert_eq!(b.velocity, -261);
    assert_eq!(b.height, 0);
}

#[test]
fn height_clamps_to_screen() {
    let cfg = Config::standard();
    let mut up = bar_at(0, 64, 700, 1_000_000_000_000);
    up.update_bar(&cfg, 0, false);
    assert_eq!(up.height, 768);
    let mut down = bar_at(0, 64, 10, -1_000_000_000_000);
    down.update_bar(&cfg, 0, false);
    assert_eq!(down.height, 0);
}

#[test]
fn heights_stay_on_screen_over_many_ticks() {
    let cfg = Config::standard();
    let mut bars = initial_bars(&cfg, &standard_palette());
    for t in 0..3000i64 {
        let input = InputState { mouse_x: (t * 37) % 1100 - 20, button_down: (t / 50) % 3 != 0 };
        physics_tick(&cfg, &mut bars, Some(input));
        for b in bars.iter() {
            assert!(b.height <= cfg.screen_height);
        }
    }
}

#[test]
fn rest_at_centre_stays() {
    let cfg = Config::standard();
    let mut b = bar_at(0, 64, 256, 0);
    for _ in 0..100 {
        b.update_bar(&cfg, 500, true);
        assert_eq!(b.height, 256);
        assert_eq!(b.velocity, 0);
    }
}

#[test]
fn released_bar_settles_near_centre() {
    let cfg = Config::standard();
    let mut b = bar_at(0, 64, 0, 0);
    let mut highest = 0usize;
    for _ in 0..1000 {
        b.update_bar(&cfg, 0, false);
        highest = highest.max(b.height);
    }
    assert!(highest > 256);
    assert!(b.height >= 254 && b.height <= 258);
}

#[test]
fn initial_bars_cover_the_screen() {
    let cfg = Config::standard();
    let palette = standard_palette();
    assert_eq!(palette.len(), 16);
    assert_eq!(palette[0], 0x0000CC);
    assert_eq!(palette[15], 0xCC00CC);
    let bars = initial_bars(&cfg, &palette);
    assert_eq!(bars.len(), 16);
    for (i, b) in bars.iter().enumerate() {
        assert_eq!(b.width, 64);
        assert_eq!(b.lpos, 64 * i);
        assert_eq!(b.height, 256);
        assert_eq!(b.velocity, 0);
        assert_eq!(b.colour, palette[i]);
        assert!(!b.debug);
    }
}

#[test]
fn new_bar_with_uneven_width() {
    let cfg = Config { screen_width: 100, screen_height: 50, bar_count: 3, centre_height: 20, acc_rate: 0, spring_rate: 0, damping: 1, tick_period_ns: 1 };
    let b = Bar::new(&cfg, 2, 9);
    assert_eq!(b.width, 33);
    assert_eq!(b.lpos, 66);
    assert_eq!(b.height, 20);
}

#[test]
fn tick_without_input_changes_nothing() {
    let cfg = Config::standard();
    let mut bars = vec![bar_at(0, 64, 100, 4000), bar_at(64, 64, 300, -2000)];
    let trace = physics_tick(&cfg, &mut bars, None);
    assert!(trace.is_empty());
    assert_eq!(bars[0].height, 100);
    assert_eq!(bars[0].velocity, 4000);
    assert_eq!(bars[1].height, 300);
    assert_eq!(bars[1].velocity, -2000);
}

#[test]
fn tick_updates_every_bar() {
    let cfg = Config::standard();
    let mut bars = vec![bar_at(0, 64, 256, 0), bar_at(64, 64, 300, 0)];
    let trace = physics_tick(&cfg, &mut bars, Some(InputState { mouse_x: 10, button_down: true }));
    assert_eq!(trace, vec![256, 300]);
    assert_eq!(bars[0].velocity, 5580);
    assert_eq!(bars[1].velocity, -819);
}

#[test]
fn pacing_never_negative() {
    assert_eq!(pacing_delay(100, 150), 0);
    assert_eq!(pacing_delay(100, 100), 0);
    assert_eq!(pacing_delay(100, 30), 70);
    assert_eq!(pacing_delay(19996667, u64::MAX), 0);
}

#[test]
fn failed_publish_terminates() {
    assert_eq!(after_publish(100, false, 10), TickOutcome::Terminate);
    assert_eq!(after_publish(100, true, 10), TickOutcome::Sleep { nanos: 90 });
    assert_eq!(after_publish(100, true, 500), TickOutcome::Sleep { nanos: 0 });
}
