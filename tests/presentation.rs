use wobbly_bars::bar::Bar;
use wobbly_bars::clock::{elapsed_between, Pacer};
use wobbly_bars::config::Config;
use wobbly_bars::frame::{next_mouse_x, render_frame};
use wobbly_bars::mailbox::{Mailbox, Received};
use wobbly_bars::physics::TickOutcome;

fn canvas(width: usize, height: usize) -> Config {
    Config { screen_width: width, screen_height: height, bar_count: 2, centre_height: 50, acc_rate: 6000, spring_rate: 20, damping: 70, tick_period_ns: 1000 }
}

#[test]
fn draw_fills_exactly_the_bar() {
    let cfg = canvas(20, 200);
    let b = Bar { width: 10, lpos: 0, height: 100, velocity: 0, colour: 0xABCDEF, debug: false };
    let mut buffer = vec![7u32; 20 * 200];
    b.draw_bar(&cfg, &mut buffer);
    let mut set = 0;
    for y in 0..200 {
        for x in 0..20 {
            let cell = buffer[x + 20 * y];
            if x < 10 && y >= 100 {
                assert_eq!(cell, 0xABCDEF);
                set += 1;
            } else {
                assert_eq!(cell, 7);
            }
        }
    }
    assert_eq!(set, 1000);
}

#[test]
fn draw_zero_height_writes_nothing() {
    let cfg = canvas(20, 200);
    let b = Bar { width: 10, lpos: 10, height: 0, velocity: 0, colour: 1, debug: false };
    let mut buffer = vec![3u32; 20 * 200];
    b.draw_bar(&cfg, &mut buffer);
    assert!(buffer.iter().all(|c| *c == 3));
}

#[test]
fn render_clears_then_draws_all_bars() {
    let cfg = canvas(4, 3);
    let bars = vec![
        Bar { width: 2, lpos: 0, height: 1, velocity: 0, colour: 5, debug: false },
        Bar { width: 2, lpos: 2, height: 3, velocity: 0, colour: 9, debug: false },
    ];
    let mut buffer = vec![42u32; 12];
    render_frame(&cfg, &bars, &mut buffer);
    assert_eq!(buffer, vec![0, 0, 9, 9, 0, 0, 9, 9, 5, 5, 9, 9]);
}

#[test]
fn mouse_reading_kept_when_missing() {
    assert_eq!(next_mouse_x(40, None), 40);
    assert_eq!(next_mouse_x(40, Some(12)), 12);
}

#[test]
fn mailbox_keeps_only_latest() {
    let mut mb: Mailbox<u32> = Mailbox::new();
    assert_eq!(mb.take(), Received::Empty);
    assert!(mb.post(1));
    assert!(mb.post(2));
    assert_eq!(mb.take(), Received::Value(2));
    assert_eq!(mb.take(), Received::Empty);
}

#[test]
fn closed_mailbox_refuses_posts_and_drains() {
    let mut mb: Mailbox<u32> = Mailbox::new();
    assert!(mb.post(5));
    mb.close();
    assert!(mb.is_closed());
    assert!(!mb.post(6));
    assert_eq!(mb.take(), Received::Value(5));
    assert_eq!(mb.take(), Received::Closed);
}

#[test]
fn dropped_receiver_stops_physics() {
    let cfg = canvas(4, 3);
    let mut snapshots: Mailbox<Vec<Bar>> = Mailbox::new();
    snapshots.close();
    let pacer = Pacer::start(&cfg);
    let delivered = snapshots.post(Vec::new());
    assert!(!delivered);
    assert_eq!(pacer.finish(delivered), TickOutcome::Terminate);
}

#[test]
fn pacer_sleeps_at_most_one_period() {
    let cfg = Config::standard();
    let pacer = Pacer::start(&cfg);
    assert_eq!(pacer.period_ns, 19996667);
    match pacer.finish(true) {
        TickOutcome::Sleep { nanos } => assert!(nanos <= 19996667),
        TickOutcome::Terminate => panic!("a delivered snapshot must not stop the loop"),
    }
}

#[test]
fn elapsed_never_negative() {
    assert_eq!(elapsed_between(100, 250), 150);
    assert_eq!(elapsed_between(250, 100), 0);
}
