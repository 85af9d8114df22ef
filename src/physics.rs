//! The physics loop's decisions: the initial bars, one tick over all bars,
//! and what to do once a snapshot has been offered.
use vstd::prelude::*;
use crate::bar::Bar;
use crate::config::Config;
use crate::mailbox::Mailbox;

verus! {

/// What the presentation loop hands the physics loop: the mouse column and
/// whether the left button is held.
#[derive(Clone, Copy)]
pub struct InputState {
    pub mouse_x: i64,
    pub button_down: bool,
}

/// Every bar lies on the screen with its state in range.
pub open spec fn all_wf(cfg: Config, bars: Seq<Bar>) -> bool {
    forall|i: int| 0 <= i < bars.len() ==> (#[trigger] bars[i]).wf(cfg)
}

/// The colours of the standard sixteen bars, left to right.
pub open spec fn standard_colours() -> Seq<u32> {
    seq![
        0x0000CCu32, 0xCC00CCu32, 0x99004Cu32, 0x00CC66u32,
        0x0000FFu32, 0x00FF00u32, 0x808080u32, 0x009900u32,
        0xCCCC00u32, 0x009900u32, 0x808080u32, 0x00FF00u32,
        0x0000FFu32, 0x00CC66u32, 0x99004Cu32, 0xCC00CCu32,
    ]
}

/// The standard palette, one colour per bar.
pub fn standard_palette() -> (r: Vec<u32>)
    ensures
        r@ == standard_colours(),
{
    let r = vec![
        0x0000CCu32, 0xCC00CCu32, 0x99004Cu32, 0x00CC66u32,
        0x0000FFu32, 0x00FF00u32, 0x808080u32, 0x009900u32,
        0xCCCC00u32, 0x009900u32, 0x808080u32, 0x00FF00u32,
        0x0000FFu32, 0x00CC66u32, 0x99004Cu32, 0xCC00CCu32,
    ];
    assert(r@ =~= standard_colours());
    r
}

/// One bar per column, left to right, each at rest at the equilibrium height
/// and coloured from `palette` in order.
pub fn initial_bars(cfg: &Config, palette: &Vec<u32>) -> (bars: Vec<Bar>)
    requires
        cfg.wf(),
        palette@.len() == cfg.bar_count,
    ensures
        bars@.len() == cfg.bar_count,
        forall|i: int|
            0 <= i < bars@.len() ==> #[trigger] bars@[i] == Bar::fresh(*cfg, i, palette@[i]),
        all_wf(*cfg, bars@),
{
    let mut bars: Vec<Bar> = Vec::new();
    let mut i: usize = 0;
    while i < cfg.bar_count
        invariant
            cfg.wf(),
            palette@.len() == cfg.bar_count,
            i <= cfg.bar_count,
            bars@.len() == i,
            forall|k: int| 0 <= k < i ==> #[trigger] bars@[k] == Bar::fresh(*cfg, k, palette@[k]),
            all_wf(*cfg, bars@),
        decreases cfg.bar_count - i,
    {
        let b = Bar::new(cfg, i, palette[i]);
        bars.push(b);
        i = i + 1;
    }
    bars
}

/// Advances every bar by one tick. With no input (the input channel has
/// closed) nothing moves. Returns each bar's height before clamping, in
/// order, for tracing; nothing when no bar moved.
pub fn physics_tick(cfg: &Config, bars: &mut Vec<Bar>, input: Option<InputState>) -> (trace: Vec<
    i64,
>)
    requires
        cfg.wf(),
        all_wf(*cfg, old(bars)@),
    ensures
        all_wf(*cfg, final(bars)@),
        final(bars)@.len() == old(bars)@.len(),
        input is None ==> final(bars)@ == old(bars)@ && trace@.len() == 0,
        input matches Some(inp) ==> trace@.len() == old(bars)@.len() && forall|i: int|
            0 <= i < old(bars)@.len() ==> {
                &&& #[trigger] final(bars)@[i] == old(bars)@[i].stepped(
                    *cfg,
                    inp.mouse_x as int,
                    inp.button_down,
                )
                &&& trace@[i] == old(bars)@[i].provisional()
            },
{
    let mut trace: Vec<i64> = Vec::new();
    match input {
        None => trace,
        Some(inp) => {
            let ghost orig = bars@;
            let mut i: usize = 0;
            while i < bars.len()
                invariant
                    cfg.wf(),
                    bars@.len() == orig.len(),
                    all_wf(*cfg, orig),
                    all_wf(*cfg, bars@),
                    i <= bars@.len(),
                    trace@.len() == i,
                    forall|k: int|
                        i <= k < bars@.len() ==> #[trigger] bars@[k] == orig[k],
                    forall|k: int|
                        0 <= k < i ==> {
                            &&& #[trigger] bars@[k] == orig[k].stepped(
                                *cfg,
                                inp.mouse_x as int,
                                inp.button_down,
                            )
                            &&& trace@[k] == orig[k].provisional()
                        },
                decreases bars@.len() - i,
            {
                let mut b = bars[i];
                let p = b.update_bar(cfg, inp.mouse_x, inp.button_down);
                bars.set(i, b);
                trace.push(p);
                i = i + 1;
            }
            trace
        },
    }
}

/// What the physics loop does after offering a snapshot.
#[derive(Clone, Copy, PartialEq, Eq, Structural, Debug)]
pub enum TickOutcome {
    /// Wait this many nanoseconds, then run the next tick.
    Sleep { nanos: u64 },
    /// The presentation loop is gone: stop.
    Terminate,
}

/// The rest of the target period, or nothing once it has passed.
pub open spec fn remaining_period(period_ns: u64, elapsed_ns: u64) -> u64 {
    if elapsed_ns < period_ns {
        (period_ns - elapsed_ns) as u64
    } else {
        0
    }
}

/// The decision at the end of a tick.
pub open spec fn outcome_of(period_ns: u64, published: bool, elapsed_ns: u64) -> TickOutcome {
    if published {
        TickOutcome::Sleep { nanos: remaining_period(period_ns, elapsed_ns) }
    } else {
        TickOutcome::Terminate
    }
}

/// How long to sleep so that a tick that took `elapsed_ns` lasts
/// `period_ns`: never less than zero, and zero when the tick overran.
pub fn pacing_delay(period_ns: u64, elapsed_ns: u64) -> (r: u64)
    ensures
        r == remaining_period(period_ns, elapsed_ns),
        r <= period_ns,
        elapsed_ns >= period_ns ==> r == 0,
        elapsed_ns < period_ns ==> r + elapsed_ns == period_ns,
{
    if elapsed_ns < period_ns {
        period_ns - elapsed_ns
    } else {
        0
    }
}

/// What to do after offering a snapshot: stop if it could not be delivered
/// (the receiving side was dropped), else sleep out the rest of the period.
pub fn after_publish(period_ns: u64, published: bool, elapsed_ns: u64) -> (r: TickOutcome)
    ensures
        r == outcome_of(period_ns, published, elapsed_ns),
        !published ==> r == TickOutcome::Terminate,
{
    if published {
        TickOutcome::Sleep { nanos: pacing_delay(period_ns, elapsed_ns) }
    } else {
        TickOutcome::Terminate
    }
}

/// Once the snapshot mailbox is closed, offering a snapshot fails, and the
/// physics loop then stops instead of sleeping: the tick in progress is its
/// last.
pub proof fn lemma_closed_snapshot_mailbox_stops<T>(
    mailbox: Mailbox<T>,
    period_ns: u64,
    elapsed_ns: u64,
)
    requires
        !mailbox.accepting(),
    ensures
        outcome_of(period_ns, mailbox.accepting(), elapsed_ns) == TickOutcome::Terminate,
{
}

} // verus!
