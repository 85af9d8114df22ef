//! The presentation loop's decisions: what a frame shows, and which mouse
//! column it reports.
use vstd::prelude::*;
use crate::bar::Bar;
use crate::config::Config;
use crate::physics::all_wf;

verus! {

/// The colour of cell `i` once every bar of `bars` has been drawn, in order,
/// over a cleared frame: that of the last bar covering it, or black.
pub open spec fn painted(cfg: Config, bars: Seq<Bar>, i: int) -> u32
    decreases bars.len(),
{
    if bars.len() == 0 {
        0
    } else if bars.last().covers_cell(cfg, i) {
        bars.last().colour
    } else {
        painted(cfg, bars.drop_last(), i)
    }
}

/// Clears `buffer` and draws every bar of the snapshot into it.
pub fn render_frame(cfg: &Config, bars: &Vec<Bar>, buffer: &mut Vec<u32>)
    requires
        cfg.wf(),
        all_wf(*cfg, bars@),
        old(buffer)@.len() == cfg.frame_len(),
    ensures
        final(buffer)@.len() == cfg.frame_len(),
        forall|i: int|
            0 <= i < cfg.frame_len() ==> #[trigger] final(buffer)@[i] == painted(*cfg, bars@, i),
{
    let mut i: usize = 0;
    while i < buffer.len()
        invariant
            i <= buffer@.len(),
            buffer@.len() == cfg.frame_len(),
            forall|k: int| 0 <= k < i ==> #[trigger] buffer@[k] == 0u32,
        decreases buffer@.len() - i,
    {
        buffer.set(i, 0);
        i = i + 1;
    }
    let mut n: usize = 0;
    while n < bars.len()
        invariant
            cfg.wf(),
            all_wf(*cfg, bars@),
            n <= bars@.len(),
            buffer@.len() == cfg.frame_len(),
            forall|k: int|
                0 <= k < cfg.frame_len() ==> #[trigger] buffer@[k] == painted(
                    *cfg,
                    bars@.subrange(0, n as int),
                    k,
                ),
        decreases bars@.len() - n,
    {
        let b = &bars[n];
        assert(b.wf(*cfg));
        b.draw_bar(cfg, buffer);
        proof {
            let prefix = bars@.subrange(0, n + 1);
            assert(prefix.drop_last() =~= bars@.subrange(0, n as int));
            assert(prefix.last() == bars@[n as int]);
        }
        n = n + 1;
    }
    assert(bars@.subrange(0, bars@.len() as int) =~= bars@);
}

/// The mouse column to report this frame: the new reading if there is one,
/// else the last known column.
pub fn next_mouse_x(previous: i64, reading: Option<i64>) -> (r: i64)
    ensures
        r == match reading {
            Some(x) => x,
            None => previous,
        },
{
    match reading {
        Some(x) => x,
        None => previous,
    }
}

} // verus!
