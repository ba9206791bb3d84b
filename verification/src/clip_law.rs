use vstd::prelude::*;

use crate::paint::CLIP_DEPTH_LIMIT;
use crate::paint::ClipBox;
use crate::paint::ClipKind;
use crate::paint::HostOp;
use crate::paint::PaintContext;
use crate::paint::glyph_clip_push_ops;
use crate::paint::glyph_clip_pop_ops;
use crate::paint::sat_inc;

verus! {

/// One clip operation of a paint-tree walk.
#[derive(Clone, Copy, PartialEq, Eq, Structural, Debug)]
pub enum ClipOp {
    PushGlyph(u32),
    PushBox(ClipBox),
    Pop,
}

/// The host ops one clip operation emits, from a given clip state.
pub open spec fn clip_op_emitted(stack: Seq<ClipKind>, dropped: nat, op: ClipOp) -> Seq<HostOp> {
    match op {
        ClipOp::PushGlyph(g) => if dropped == 0 && stack.len() < CLIP_DEPTH_LIMIT {
            glyph_clip_push_ops(g)
        } else {
            Seq::empty()
        },
        ClipOp::PushBox(b) => if dropped == 0 && stack.len() < CLIP_DEPTH_LIMIT {
            seq![HostOp::PushClipBox(b)]
        } else {
            Seq::empty()
        },
        ClipOp::Pop => if dropped > 0 {
            Seq::empty()
        } else if stack.len() > 0 {
            if stack.last() is GlyphShaped {
                glyph_clip_pop_ops()
            } else {
                seq![HostOp::PopClip]
            }
        } else {
            Seq::empty()
        },
    }
}

/// The clip state one clip operation leaves behind.
pub open spec fn clip_state_step(stack: Seq<ClipKind>, dropped: nat, op: ClipOp) -> (
    Seq<ClipKind>,
    nat,
) {
    match op {
        ClipOp::PushGlyph(_) => if dropped == 0 && stack.len() < CLIP_DEPTH_LIMIT {
            (stack.push(ClipKind::GlyphShaped), dropped)
        } else {
            (stack, sat_inc(dropped))
        },
        ClipOp::PushBox(_) => if dropped == 0 && stack.len() < CLIP_DEPTH_LIMIT {
            (stack.push(ClipKind::BoxShaped), dropped)
        } else {
            (stack, sat_inc(dropped))
        },
        ClipOp::Pop => if dropped > 0 {
            (stack, (dropped - 1) as nat)
        } else if stack.len() > 0 {
            (stack.drop_last(), 0)
        } else {
            (stack, 0)
        },
    }
}

/// The host ops a whole run of clip operations emits.
pub open spec fn clip_run_emitted(stack: Seq<ClipKind>, dropped: nat, ops: Seq<ClipOp>) -> Seq<
    HostOp,
>
    decreases ops.len(),
{
    if ops.len() == 0 {
        Seq::empty()
    } else {
        let next = clip_state_step(stack, dropped, ops.first());
        clip_op_emitted(stack, dropped, ops.first()) + clip_run_emitted(
            next.0,
            next.1,
            ops.drop_first(),
        )
    }
}

/// The clip state a whole run of clip operations leaves behind.
pub open spec fn clip_run_state(stack: Seq<ClipKind>, dropped: nat, ops: Seq<ClipOp>) -> (
    Seq<ClipKind>,
    nat,
)
    decreases ops.len(),
{
    if ops.len() == 0 {
        (stack, dropped)
    } else {
        let next = clip_state_step(stack, dropped, ops.first());
        clip_run_state(next.0, next.1, ops.drop_first())
    }
}

/// How many transform pops a run of host ops contains.
pub open spec fn count_pop_transforms(s: Seq<HostOp>) -> nat
    decreases s.len(),
{
    if s.len() == 0 {
        0
    } else {
        count_pop_transforms(s.drop_last()) + (if s.last() is PopTransform {
            1nat
        } else {
            0nat
        })
    }
}

/// The ideal clip stack: unbounded bracket matching over the same run,
/// with no depth ceiling. A pop with an empty stack matches no push and
/// leaves the stack empty.
pub open spec fn ideal_clip_step(stack: Seq<ClipKind>, op: ClipOp) -> Seq<ClipKind> {
    match op {
        ClipOp::PushGlyph(_) => stack.push(ClipKind::GlyphShaped),
        ClipOp::PushBox(_) => stack.push(ClipKind::BoxShaped),
        ClipOp::Pop => if stack.len() > 0 {
            stack.drop_last()
        } else {
            stack
        },
    }
}

/// How many pops in the run close a glyph-shaped push: each pop matches
/// the innermost open push, which is exactly what the stack's last entry
/// records.
pub open spec fn ideal_glyph_pops(stack: Seq<ClipKind>, ops: Seq<ClipOp>) -> nat
    decreases ops.len(),
{
    if ops.len() == 0 {
        0
    } else {
        let here: nat = if ops.first() is Pop && stack.len() > 0 && stack.last() is GlyphShaped {
            1nat
        } else {
            0nat
        };
        here + ideal_glyph_pops(ideal_clip_step(stack, ops.first()), ops.drop_first())
    }
}

/// Whether the run's nesting depth stays within `max` at every step.
pub open spec fn clip_depth_bounded(stack: Seq<ClipKind>, ops: Seq<ClipOp>, max: nat) -> bool
    decreases ops.len(),
{
    stack.len() <= max && (ops.len() == 0 || clip_depth_bounded(
        ideal_clip_step(stack, ops.first()),
        ops.drop_first(),
        max,
    ))
}

/// How many clip pushes, glyph- or box-shaped, a run of host ops contains.
pub open spec fn count_clip_pushes(s: Seq<HostOp>) -> nat
    decreases s.len(),
{
    if s.len() == 0 {
        0
    } else {
        count_clip_pushes(s.drop_last()) + (if s.last() is PushClipGlyph || s.last()
            is PushClipBox {
            1nat
        } else {
            0nat
        })
    }
}

/// How many clip pops a run of host ops contains.
pub open spec fn count_clip_pops(s: Seq<HostOp>) -> nat
    decreases s.len(),
{
    if s.len() == 0 {
        0
    } else {
        count_clip_pops(s.drop_last()) + (if s.last() is PopClip {
            1nat
        } else {
            0nat
        })
    }
}

/// How many transform pushes of any kind a run of host ops contains.
pub open spec fn count_transform_pushes(s: Seq<HostOp>) -> nat
    decreases s.len(),
{
    if s.len() == 0 {
        0
    } else {
        count_transform_pushes(s.drop_last()) + (if s.last() is PushTransform || s.last()
            is PushInverseFontTransform || s.last() is PushFontTransform {
            1nat
        } else {
            0nat
        })
    }
}

/// How many of the open clips on a stack are glyph-shaped.
pub open spec fn glyph_depth(s: Seq<ClipKind>) -> nat
    decreases s.len(),
{
    if s.len() == 0 {
        0
    } else {
        glyph_depth(s.drop_last()) + (if s.last() is GlyphShaped {
            1nat
        } else {
            0nat
        })
    }
}

/// Counting transform pops distributes over concatenation.
proof fn lemma_count_pop_transforms_concat(a: Seq<HostOp>, b: Seq<HostOp>)
    ensures
        count_pop_transforms(a + b) == count_pop_transforms(a) + count_pop_transforms(b),
    decreases b.len(),
{
    if b.len() == 0 {
        assert(a + b =~= a);
    } else {
        lemma_count_pop_transforms_concat(a, b.drop_last());
        assert((a + b).drop_last() =~= a + b.drop_last());
        assert((a + b).last() == b.last());
    }
}

/// The transform pops inside the three-op glyph-clip opener: none.
proof fn lemma_count_glyph_push(g: u32)
    ensures
        count_pop_transforms(glyph_clip_push_ops(g)) == 0,
{
    reveal_with_fuel(count_pop_transforms, 4);
    let s = glyph_clip_push_ops(g);
    assert(s.drop_last() =~= seq![HostOp::PushInverseFontTransform, HostOp::PushClipGlyph(g)]);
    assert(s.drop_last().drop_last() =~= seq![HostOp::PushInverseFontTransform]);
    assert(s.drop_last().drop_last().drop_last() =~= Seq::<HostOp>::empty());
}

/// The transform pops inside the three-op glyph-clip closer: exactly two.
proof fn lemma_count_glyph_pop()
    ensures
        count_pop_transforms(glyph_clip_pop_ops()) == 2,
{
    reveal_with_fuel(count_pop_transforms, 4);
    let s = glyph_clip_pop_ops();
    assert(s.drop_last() =~= seq![HostOp::PopTransform, HostOp::PopClip]);
    assert(s.drop_last().drop_last() =~= seq![HostOp::PopTransform]);
    assert(s.drop_last().drop_last().drop_last() =~= Seq::<HostOp>::empty());
}

/// The transform pops inside a one-op emission: none.
proof fn lemma_count_single_non_pop(op: HostOp)
    requires
        !(op is PopTransform),
    ensures
        count_pop_transforms(seq![op]) == 0,
{
    reveal_with_fuel(count_pop_transforms, 2);
    assert(seq![op].drop_last() =~= Seq::<HostOp>::empty());
}

/// Counting clip pushes, clip pops and transform pushes distributes
/// over concatenation.
proof fn lemma_count_concat(a: Seq<HostOp>, b: Seq<HostOp>)
    ensures
        count_clip_pushes(a + b) == count_clip_pushes(a) + count_clip_pushes(b),
        count_clip_pops(a + b) == count_clip_pops(a) + count_clip_pops(b),
        count_transform_pushes(a + b) == count_transform_pushes(a) + count_transform_pushes(b),
    decreases b.len(),
{
    if b.len() == 0 {
        assert(a + b =~= a);
    } else {
        lemma_count_concat(a, b.drop_last());
        assert((a + b).drop_last() =~= a + b.drop_last());
        assert((a + b).last() == b.last());
    }
}

/// The counts of the three-op glyph-clip opener: one clip push between
/// two transform pushes.
proof fn lemma_counts_glyph_push(g: u32)
    ensures
        count_clip_pushes(glyph_clip_push_ops(g)) == 1,
        count_clip_pops(glyph_clip_push_ops(g)) == 0,
        count_transform_pushes(glyph_clip_push_ops(g)) == 2,
{
    reveal_with_fuel(count_clip_pushes, 4);
    reveal_with_fuel(count_clip_pops, 4);
    reveal_with_fuel(count_transform_pushes, 4);
    let s = glyph_clip_push_ops(g);
    assert(s.drop_last() =~= seq![HostOp::PushInverseFontTransform, HostOp::PushClipGlyph(g)]);
    assert(s.drop_last().drop_last() =~= seq![HostOp::PushInverseFontTransform]);
    assert(s.drop_last().drop_last().drop_last() =~= Seq::<HostOp>::empty());
}

/// The counts of the three-op glyph-clip closer: one clip pop between
/// two transform pops.
proof fn lemma_counts_glyph_pop()
    ensures
        count_clip_pushes(glyph_clip_pop_ops()) == 0,
        count_clip_pops(glyph_clip_pop_ops()) == 1,
        count_transform_pushes(glyph_clip_pop_ops()) == 0,
{
    reveal_with_fuel(count_clip_pushes, 4);
    reveal_with_fuel(count_clip_pops, 4);
    reveal_with_fuel(count_transform_pushes, 4);
    let s = glyph_clip_pop_ops();
    assert(s.drop_last() =~= seq![HostOp::PopTransform, HostOp::PopClip]);
    assert(s.drop_last().drop_last() =~= seq![HostOp::PopTransform]);
    assert(s.drop_last().drop_last().drop_last() =~= Seq::<HostOp>::empty());
}

/// The counts of a one-op emission.
proof fn lemma_counts_single(op: HostOp)
    ensures
        count_clip_pushes(seq![op]) == (if op is PushClipGlyph || op is PushClipBox {
            1nat
        } else {
            0nat
        }),
        count_clip_pops(seq![op]) == (if op is PopClip {
            1nat
        } else {
            0nat
        }),
        count_transform_pushes(seq![op]) == (if op is PushTransform || op
            is PushInverseFontTransform || op is PushFontTransform {
            1nat
        } else {
            0nat
        }),
        count_pop_transforms(seq![op]) == (if op is PopTransform {
            1nat
        } else {
            0nat
        }),
{
    reveal_with_fuel(count_clip_pushes, 2);
    reveal_with_fuel(count_clip_pops, 2);
    reveal_with_fuel(count_transform_pushes, 2);
    reveal_with_fuel(count_pop_transforms, 2);
    assert(seq![op].drop_last() =~= Seq::<HostOp>::empty());
}

proof fn lemma_clip_run_balance_rec(stack: Seq<ClipKind>, ops: Seq<ClipOp>)
    requires
        clip_depth_bounded(stack, ops, CLIP_DEPTH_LIMIT as nat),
    ensures
        ({
            let emitted = clip_run_emitted(stack, 0, ops);
            let fin = clip_run_state(stack, 0, ops).0;
            count_clip_pushes(emitted) + stack.len() == count_clip_pops(emitted) + fin.len()
                && count_transform_pushes(emitted) + 2 * glyph_depth(stack)
                == count_pop_transforms(emitted) + 2 * glyph_depth(fin)
        }),
    decreases ops.len(),
{
    if ops.len() == 0 {
    } else {
        let op = ops.first();
        let rest = ops.drop_first();
        let next = ideal_clip_step(stack, op);
        assert(clip_depth_bounded(next, rest, CLIP_DEPTH_LIMIT as nat));
        match op {
            ClipOp::PushGlyph(g) => {
                assert(next.len() <= CLIP_DEPTH_LIMIT);
                assert(stack.len() < CLIP_DEPTH_LIMIT);
                assert(clip_state_step(stack, 0, op) == (next, 0nat));
                assert(next.drop_last() =~= stack);
                lemma_counts_glyph_push(g);
                lemma_count_glyph_push(g);
            },
            ClipOp::PushBox(b) => {
                assert(next.len() <= CLIP_DEPTH_LIMIT);
                assert(stack.len() < CLIP_DEPTH_LIMIT);
                assert(clip_state_step(stack, 0, op) == (next, 0nat));
                assert(next.drop_last() =~= stack);
                lemma_counts_single(HostOp::PushClipBox(b));
            },
            ClipOp::Pop => {
                assert(clip_state_step(stack, 0, op) == (next, 0nat));
                if stack.len() > 0 {
                    assert(stack =~= next.push(stack.last()));
                    assert(stack.drop_last() =~= next);
                    if stack.last() is GlyphShaped {
                        lemma_counts_glyph_pop();
                        lemma_count_glyph_pop();
                    } else {
                        lemma_counts_single(HostOp::PopClip);
                    }
                }
            },
        }
        lemma_clip_run_balance_rec(next, rest);
        lemma_count_concat(clip_op_emitted(stack, 0, op), clip_run_emitted(next, 0, rest));
        lemma_count_pop_transforms_concat(
            clip_op_emitted(stack, 0, op),
            clip_run_emitted(next, 0, rest),
        );
    }
}

/// Law: the emitted run is strictly stack-balanced. A run of clip
/// operations inside the depth ceiling that closes every clip it opened
/// emits exactly as many clip pops as clip pushes, and exactly as many
/// transform pops as transform pushes.
pub proof fn lemma_clip_run_strictly_balanced(ops: Seq<ClipOp>)
    requires
        clip_depth_bounded(Seq::empty(), ops, CLIP_DEPTH_LIMIT as nat),
        clip_run_state(Seq::empty(), 0, ops).0.len() == 0,
    ensures
        count_clip_pushes(clip_run_emitted(Seq::empty(), 0, ops)) == count_clip_pops(
            clip_run_emitted(Seq::empty(), 0, ops),
        ),
        count_transform_pushes(clip_run_emitted(Seq::empty(), 0, ops)) == count_pop_transforms(
            clip_run_emitted(Seq::empty(), 0, ops),
        ),
{
    lemma_clip_run_balance_rec(Seq::empty(), ops);
}

proof fn lemma_clip_balance_rec(stack: Seq<ClipKind>, ops: Seq<ClipOp>)
    requires
        clip_depth_bounded(stack, ops, CLIP_DEPTH_LIMIT as nat),
    ensures
        count_pop_transforms(clip_run_emitted(stack, 0, ops)) == 2 * ideal_glyph_pops(stack, ops),
    decreases ops.len(),
{
    if ops.len() == 0 {
    } else {
        let op = ops.first();
        let rest = ops.drop_first();
        let next = ideal_clip_step(stack, op);
        // a push is never dropped: the bound on the next step's depth rules
        // a full stack out
        assert(clip_depth_bounded(next, rest, CLIP_DEPTH_LIMIT as nat));
        match op {
            ClipOp::PushGlyph(g) => {
                assert(next.len() <= CLIP_DEPTH_LIMIT);
                assert(stack.len() < CLIP_DEPTH_LIMIT);
                assert(clip_state_step(stack, 0, op) == (next, 0nat));
                lemma_count_glyph_push(g);
            },
            ClipOp::PushBox(b) => {
                assert(next.len() <= CLIP_DEPTH_LIMIT);
                assert(stack.len() < CLIP_DEPTH_LIMIT);
                assert(clip_state_step(stack, 0, op) == (next, 0nat));
                lemma_count_single_non_pop(HostOp::PushClipBox(b));
            },
            ClipOp::Pop => {
                assert(clip_state_step(stack, 0, op) == (next, 0nat));
                if stack.len() > 0 {
                    if stack.last() is GlyphShaped {
                        lemma_count_glyph_pop();
                    } else {
                        lemma_count_single_non_pop(HostOp::PopClip);
                    }
                }
            },
        }
        lemma_clip_balance_rec(next, rest);
        lemma_count_pop_transforms_concat(
            clip_op_emitted(stack, 0, op),
            clip_run_emitted(next, 0, rest),
        );
    }
}

/// Law: over every run of clip operations whose nesting depth never
/// exceeds the 64-deep clip ceiling, the translator emits exactly twice
/// as many transform pops as there are pops that close a glyph-shaped
/// clip: each glyph clip is wrapped in two transforms and each box clip
/// in none, so only reached glyph closers pop transforms.
pub proof fn lemma_clip_transform_pop_balance(ops: Seq<ClipOp>)
    requires
        ops.len() <= 128,
        clip_depth_bounded(Seq::empty(), ops, CLIP_DEPTH_LIMIT as nat),
    ensures
        count_pop_transforms(clip_run_emitted(Seq::empty(), 0, ops)) == 2 * ideal_glyph_pops(
            Seq::empty(),
            ops,
        ),
{
    lemma_clip_balance_rec(Seq::empty(), ops);
}

impl PaintContext {
    /// Performs one clip operation of a walk.
    pub fn apply_clip_op(&mut self, op: &ClipOp)
        requires
            old(self).wf(),
        ensures
            final(self).wf(),
            final(self).same_palette(*old(self)),
            final(self).mode_stack@ == old(self).mode_stack@,
            (final(self).clip_stack@, final(self).dropped_clips as nat) == clip_state_step(
                old(self).clip_stack@,
                old(self).dropped_clips as nat,
                *op,
            ),
            final(self).ops@ == old(self).ops@ + clip_op_emitted(
                old(self).clip_stack@,
                old(self).dropped_clips as nat,
                *op,
            ),
    {
        match op {
            ClipOp::PushGlyph(g) => {
                self.push_clip_glyph(*g);
            },
            ClipOp::PushBox(b) => {
                self.push_clip_box(*b);
            },
            ClipOp::Pop => {
                self.pop_clip();
            },
        }
        proof {
            assert(self.ops@ =~= old(self).ops@ + clip_op_emitted(
                old(self).clip_stack@,
                old(self).dropped_clips as nat,
                *op,
            ));
        }
    }

    /// Performs a whole run of clip operations, in order.
    pub fn apply_clip_ops(&mut self, ops: &Vec<ClipOp>)
        requires
            old(self).wf(),
        ensures
            final(self).wf(),
            final(self).same_palette(*old(self)),
            final(self).mode_stack@ == old(self).mode_stack@,
            (final(self).clip_stack@, final(self).dropped_clips as nat) == clip_run_state(
                old(self).clip_stack@,
                old(self).dropped_clips as nat,
                ops@,
            ),
            final(self).ops@ == old(self).ops@ + clip_run_emitted(
                old(self).clip_stack@,
                old(self).dropped_clips as nat,
                ops@,
            ),
    {
        let ghost s0 = old(self).clip_stack@;
        let ghost d0 = old(self).dropped_clips as nat;
        let ghost ops0 = old(self).ops@;
        let ghost whole = clip_run_emitted(s0, d0, ops@);
        let ghost endstate = clip_run_state(s0, d0, ops@);
        let mut i: usize = 0;
        proof {
            assert(ops@.skip(0) =~= ops@);
        }
        while i < ops.len()
            invariant
                i <= ops@.len(),
                self.wf(),
                self.same_palette(*old(self)),
                self.mode_stack@ == old(self).mode_stack@,
                ops0 + whole == self.ops@ + clip_run_emitted(
                    self.clip_stack@,
                    self.dropped_clips as nat,
                    ops@.skip(i as int),
                ),
                endstate == clip_run_state(
                    self.clip_stack@,
                    self.dropped_clips as nat,
                    ops@.skip(i as int),
                ),
                ops0.is_prefix_of(self.ops@),
            decreases ops@.len() - i,
        {
            let ghost pre_stack = self.clip_stack@;
            let ghost pre_dropped = self.dropped_clips as nat;
            let ghost pre_ops = self.ops@;
            proof {
                assert(ops@.skip(i as int).first() == ops@[i as int]);
                assert(ops@.skip(i as int).drop_first() =~= ops@.skip(i as int + 1));
            }
            self.apply_clip_op(&ops[i]);
            proof {
                assert(ops0 + whole =~= self.ops@ + clip_run_emitted(
                    self.clip_stack@,
                    self.dropped_clips as nat,
                    ops@.skip(i as int + 1),
                )) by {
                    assert(pre_ops + (clip_op_emitted(pre_stack, pre_dropped, ops@[i as int])
                        + clip_run_emitted(
                        self.clip_stack@,
                        self.dropped_clips as nat,
                        ops@.skip(i as int + 1),
                    )) =~= self.ops@ + clip_run_emitted(
                        self.clip_stack@,
                        self.dropped_clips as nat,
                        ops@.skip(i as int + 1),
                    ));
                }
            }
            i = i + 1;
        }
        proof {
            assert(ops@.skip(ops@.len() as int) =~= Seq::<ClipOp>::empty());
            assert(self.ops@ =~= ops0 + whole);
        }
    }
}

} // verus!
