//! A model of what one recorded render pass does to its color attachment,
//! pixel by pixel, and proofs that the baseline pass clears every pixel to
//! the configured color and that successive frames are independent.

use vstd::prelude::*;
use crate::config::{baseline_pass_config, clear_color, Color, LoadOp, RenderPassConfig};

verus! {

/// The contents of the color attachment after a pass with the given
/// configuration runs over a target with the given prior contents, one entry
/// per pixel. Meaningful only for passes that issue no draw call, as the
/// baseline pass does: what a draw writes is not modeled.
pub open spec fn pass_output(cfg: RenderPassConfig, target: Seq<Color>) -> Seq<Color>
    recommends
        cfg.draw_count == 0,
{
    match cfg.load {
        LoadOp::Clear(c) => Seq::new(target.len(), |i: int| c),
        LoadOp::Load => target,
    }
}

/// Computes the attachment contents a draw-free pass leaves behind.
pub fn simulate_pass(cfg: &RenderPassConfig, target: &Vec<Color>) -> (out: Vec<Color>)
    requires
        cfg.draw_count == 0,
    ensures
        out@ =~= pass_output(*cfg, target@),
{
    match cfg.load {
        LoadOp::Clear(c) => {
            let mut out: Vec<Color> = Vec::new();
            let mut i: usize = 0;
            while i < target.len()
                invariant
                    i <= target@.len(),
                    out@.len() == i,
                    forall|j: int| 0 <= j < i ==> out@[j] == c,
                decreases target@.len() - i,
            {
                out.push(c);
                i = i + 1;
            }
            out
        },
        LoadOp::Load => {
            let mut out: Vec<Color> = Vec::new();
            let mut i: usize = 0;
            while i < target.len()
                invariant
                    i <= target@.len(),
                    out@ =~= target@.subrange(0, i as int),
                decreases target@.len() - i,
            {
                out.push(target[i]);
                i = i + 1;
            }
            out
        },
    }
}

/// The baseline frame fills its whole target with the clear color: after the
/// pass, every pixel equals opaque green, and no pixel was drawn over beyond
/// the clear, whatever the target held before.
pub proof fn lemma_frame_clears_target(target: Seq<Color>)
    ensures
        pass_output(baseline_pass_config(), target).len() == target.len(),
        forall|i: int|
            0 <= i < target.len() ==> pass_output(baseline_pass_config(), target)[i]
                == clear_color(),
{
}

/// Two successive baseline frames are independent: each fills its own target
/// with the clear color, and the second frame's output is determined by its
/// own target alone, never by the first frame's target or output.
pub proof fn lemma_frames_independent(first: Seq<Color>, second: Seq<Color>)
    ensures
        forall|i: int|
            0 <= i < first.len() ==> pass_output(baseline_pass_config(), first)[i]
                == clear_color(),
        forall|i: int|
            0 <= i < second.len() ==> pass_output(baseline_pass_config(), second)[i]
                == clear_color(),
        first.len() == second.len() ==> pass_output(baseline_pass_config(), first)
            =~= pass_output(baseline_pass_config(), second),
{
}

} // verus!
