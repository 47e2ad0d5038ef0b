//! The shape of one frame of the fractal: which line strokes are drawn and in
//! which order, independent of the floating-point geometry that places them.
//!
//! The three hands are drawn first as spokes from the centre. The tips of the
//! second and minute hands are the two seed nodes of the fractal. Each level
//! applies both rotors (the second-hand rotor, then the minute-hand rotor) to
//! every node of the previous level, in order, drawing one branch per pair and
//! creating one new node per branch. Nodes are numbered globally: the seeds are
//! `0` and `1`, and the branch at position `p` of the plan creates node `p - 1`.
use vstd::arithmetic::power2::*;
use vstd::prelude::*;

verus! {

broadcast use lemma_pow2_pos;

/// Number of hands drawn as spokes from the centre.
pub const SPOKE_COUNT: usize = 3;

/// Deepest level for which the plan's length fits in any `usize`.
pub const MAX_LEVELS: usize = 30;

/// One line stroke of a frame.
#[derive(Clone, Copy, Debug, PartialEq, Eq, Structural)]
pub enum Stroke {
    /// A hand drawn from the centre to its tip at full brightness and the
    /// starting width (`hand`: 0 second, 1 minute, 2 hour).
    Spoke { hand: usize },
    /// A branch of fractal level `level >= 1`: it applies rotor `rotor` to
    /// node `parent` and is drawn with the 8-bit `luminance` of its level.
    Branch { level: usize, rotor: usize, parent: usize, luminance: u8 },
}

/// Index of the first zero entry of `lum` at or after `i`, or `depth`, or the
/// end of `lum`, whichever comes first.
pub open spec fn lit_from(depth: nat, lum: Seq<u8>, i: nat) -> nat
    decreases depth - i,
{
    if i >= depth || i >= lum.len() || lum[i as int] == 0 {
        i
    } else {
        lit_from(depth, lum, i + 1)
    }
}

/// Number of levels expanded for `depth` when level `k` (from 1) has the
/// 8-bit luminance `lum[k - 1]`: expansion stops at the first dark level.
pub open spec fn lit_levels(depth: nat, lum: Seq<u8>) -> nat {
    lit_from(depth, lum, 0)
}

/// Global number of the first node of level `k` (level 0 holds the seeds).
pub open spec fn first_node(k: nat) -> int {
    pow2(k + 1) - 2
}

/// Position in the plan of the branch that applies `rotor` to the `a`-th node
/// of level `k - 1`.
pub open spec fn branch_index(k: nat, rotor: nat, a: nat) -> int {
    pow2(k + 1) - 1 + rotor * pow2(k) + a
}

/// Number of strokes of a frame that expands `levels` levels.
pub open spec fn stroke_count(levels: nat) -> int {
    pow2(levels + 2) - 1
}

/// The stroke that a frame holds at `branch_index(k, rotor, a)`.
pub open spec fn branch_of(lum: Seq<u8>, k: nat, rotor: nat, a: nat) -> Stroke {
    Stroke::Branch {
        level: k as usize,
        rotor: rotor as usize,
        parent: (first_node((k - 1) as nat) + a) as usize,
        luminance: lum[k - 1],
    }
}

/// Fractal level of a stroke; spokes are level 0.
pub open spec fn stroke_level(s: Stroke) -> nat {
    match s {
        Stroke::Spoke { .. } => 0,
        Stroke::Branch { level, .. } => level as nat,
    }
}

/// The stroke at position `i` of a plan draws from what exists by then: a
/// spoke its own hand, a branch one of the two rotors and a node created by
/// an earlier stroke (node `n` is created at position `n + 1`, seeds aside).
pub open spec fn reads_earlier(s: Stroke, i: int) -> bool {
    match s {
        Stroke::Spoke { hand } => hand == i,
        Stroke::Branch { level, rotor, parent, .. } => level >= 1 && rotor < 2 && parent + 1 < i,
    }
}

/// The plan `s` is the frame that expands `levels` levels with luminances `lum`.
pub open spec fn is_frame_plan(s: Seq<Stroke>, lum: Seq<u8>, levels: nat) -> bool {
    &&& s.len() == stroke_count(levels)
    &&& forall|h: int| 0 <= h < SPOKE_COUNT ==> s[h] == (Stroke::Spoke { hand: h as usize })
    &&& forall|i: int| 0 <= i < s.len() ==> stroke_level(#[trigger] s[i]) <= levels && reads_earlier(s[i], i)
    &&& forall|k: nat, rotor: nat, a: nat|
        1 <= k <= levels && rotor < 2 && a < pow2(k) ==> s[branch_index(k, rotor, a)]
            == #[trigger] branch_of(lum, k, rotor, a)
}

/// Number of levels to expand: those before the first level whose luminance
/// is zero, at most `depth`, at most `level_luminance.len()`.
pub fn lit_level_count(depth: usize, level_luminance: &Vec<u8>) -> (r: usize)
    ensures
        r == lit_levels(depth as nat, level_luminance@),
        r <= depth,
        r <= level_luminance@.len(),
        forall|i: int| 0 <= i < r ==> level_luminance@[i] != 0,
        r == depth || r == level_luminance@.len() || level_luminance@[r as int] == 0,
{
    let mut l: usize = 0;
    while l < depth && l < level_luminance.len() && level_luminance[l] != 0
        invariant
            l <= depth,
            l <= level_luminance@.len(),
            lit_from(depth as nat, level_luminance@, l as nat) == lit_levels(
                depth as nat,
                level_luminance@,
            ),
            forall|i: int| 0 <= i < l ==> level_luminance@[i] != 0,
        decreases depth - l,
    {
        l = l + 1;
    }
    l
}

/// Appends `count` branches of `level` that apply `rotor` to the nodes
/// `first`, `first + 1`, ... in order.
fn push_branches(
    plan: &mut Vec<Stroke>,
    level: usize,
    rotor: usize,
    first: usize,
    count: usize,
    luminance: u8,
)
    requires
        old(plan)@.len() + count <= usize::MAX,
        first + count < old(plan)@.len(),
        level >= 1,
        rotor < 2,
    ensures
        final(plan)@.len() == old(plan)@.len() + count,
        forall|i: int| 0 <= i < old(plan)@.len() ==> final(plan)@[i] == old(plan)@[i],
        forall|i: int|
            old(plan)@.len() <= i < old(plan)@.len() + count ==> #[trigger] final(plan)@[i] == (
            Stroke::Branch { level, rotor, parent: (first + i - old(plan)@.len()) as usize, luminance }),
{
    let ghost start = plan@.len();
    let mut a: usize = 0;
    while a < count
        invariant
            a <= count,
            start == old(plan)@.len(),
            start + count <= usize::MAX,
            first + count < start,
            plan@.len() == start + a,
            forall|i: int| 0 <= i < start ==> plan@[i] == old(plan)@[i],
            forall|i: int|
                start <= i < start + a ==> #[trigger] plan@[i] == (Stroke::Branch {
                    level,
                    rotor,
                    parent: (first + i - start) as usize,
                    luminance,
                }),
        decreases count - a,
    {
        plan.push(Stroke::Branch { level, rotor, parent: first + a, luminance });
        a = a + 1;
    }
}

/// The strokes of one frame, in drawing order: the three spokes, then each
/// level in turn, stopping after `depth` levels or before the first level
/// whose luminance (`level_luminance[k - 1]` for level `k`) is zero.
pub fn frame_plan(depth: usize, level_luminance: &Vec<u8>) -> (r: Vec<Stroke>)
    requires
        level_luminance@.len() <= MAX_LEVELS,
    ensures
        is_frame_plan(r@, level_luminance@, lit_levels(depth as nat, level_luminance@)),
{
    let levels = lit_level_count(depth, level_luminance);
    let mut plan: Vec<Stroke> = Vec::new();
    plan.push(Stroke::Spoke { hand: 0 });
    plan.push(Stroke::Spoke { hand: 1 });
    plan.push(Stroke::Spoke { hand: 2 });
    proof {
        lemma2_to64();
        if levels + 2 < 32 {
            lemma_pow2_strictly_increases((levels + 2) as nat, 32);
        }
        assert(pow2(1) == 2 && pow2(2) == 4);
    }
    let mut level: usize = 1;
    let mut count: usize = 2;
    let mut first: usize = 0;
    while level <= levels
        invariant
            1 <= level <= levels + 1,
            levels <= MAX_LEVELS,
            levels <= level_luminance@.len(),
            pow2((levels + 2) as nat) <= 0x1_0000_0000,
            count == pow2(level as nat),
            first == pow2(level as nat) - 2,
            plan@.len() == stroke_count((level - 1) as nat),
            forall|h: int| 0 <= h < SPOKE_COUNT ==> plan@[h] == (Stroke::Spoke { hand: h as usize }),
            forall|i: int|
                0 <= i < plan@.len() ==> stroke_level(#[trigger] plan@[i]) < level && reads_earlier(
                    plan@[i],
                    i,
                ),
            forall|k: nat, rotor: nat, a: nat|
                1 <= k < level && rotor < 2 && a < pow2(k) ==> plan@[branch_index(k, rotor, a)]
                    == #[trigger] branch_of(level_luminance@, k, rotor, a),
        decreases levels + 1 - level,
    {
        proof {
            lemma_pow2_unfold((level + 1) as nat);
            lemma_pow2_unfold((level + 2) as nat);
            if level + 2 < levels + 2 {
                lemma_pow2_strictly_increases((level + 2) as nat, (levels + 2) as nat);
            }
        }
        let luminance = level_luminance[level - 1];
        let ghost before = plan@;
        push_branches(&mut plan, level, 0, first, count, luminance);
        let ghost middle = plan@;
        push_branches(&mut plan, level, 1, first, count, luminance);
        proof {
            assert forall|k: nat, rotor: nat, a: nat|
                1 <= k < level + 1 && rotor < 2 && a < pow2(k) implies plan@[branch_index(
                    k,
                    rotor,
                    a,
                )] == #[trigger] branch_of(level_luminance@, k, rotor, a) by {
                if k < level {
                    lemma_pow2_unfold(k + 1);
                    lemma_pow2_unfold(k + 2);
                    if k + 2 < level + 1 {
                        lemma_pow2_strictly_increases(k + 2, (level + 1) as nat);
                    }
                    assert(rotor * pow2(k) <= pow2(k)) by (nonlinear_arith)
                        requires
                            rotor < 2,
                    ;
                    assert(0 <= branch_index(k, rotor, a) < before.len());
                    assert(plan@[branch_index(k, rotor, a)] == before[branch_index(k, rotor, a)]);
                } else if rotor == 0 {
                    assert(branch_index(k, rotor, a) == before.len() + a);
                } else {
                    assert(branch_index(k, rotor, a) == middle.len() + a);
                }
            }
        }
        first = first + count;
        count = count * 2;
        level = level + 1;
    }
    plan
}

proof fn lemma_lit_from(depth: nat, lum: Seq<u8>, i: nat)
    requires
        i <= depth,
        i <= lum.len(),
    ensures
        i <= lit_from(depth, lum, i) <= depth,
        lit_from(depth, lum, i) <= lum.len(),
        forall|j: int| i <= j < lit_from(depth, lum, i) ==> lum[j] != 0,
        lit_from(depth, lum, i) == depth || lit_from(depth, lum, i) == lum.len() || lum[lit_from(
            depth,
            lum,
            i,
        ) as int] == 0,
    decreases depth - i,
{
    if !(i >= depth || i >= lum.len() || lum[i as int] == 0) {
        lemma_lit_from(depth, lum, i + 1);
    }
}

/// With no luminance given, the frame holds the three spokes alone.
pub proof fn law_depth_zero(s: Seq<Stroke>, lum: Seq<u8>)
    requires
        is_frame_plan(s, lum, lit_levels(0, lum)),
    ensures
        s.len() == SPOKE_COUNT,
        forall|h: int| 0 <= h < SPOKE_COUNT ==> s[h] == (Stroke::Spoke { hand: h as usize }),
{
    lemma2_to64();
}

/// When no level up to `depth` is dark, all `depth` levels are expanded: level
/// `k` adds `2^(k + 1)` branches (two rotors on the `2^k` nodes of the level
/// before it), so the frame holds `2^(depth + 2) - 1` strokes, spokes included.
pub proof fn law_full_expansion(s: Seq<Stroke>, depth: nat, lum: Seq<u8>)
    requires
        depth <= lum.len(),
        forall|i: int| 0 <= i < depth ==> lum[i] != 0,
        is_frame_plan(s, lum, lit_levels(depth, lum)),
    ensures
        lit_levels(depth, lum) == depth,
        s.len() == pow2(depth + 2) - 1,
        forall|k: nat| 1 <= k ==> #[trigger] stroke_count(k) - stroke_count((k - 1) as nat) == pow2(k + 1),
{
    lemma_lit_from(depth, lum, 0);
    assert forall|k: nat| 1 <= k implies #[trigger] stroke_count(k) - stroke_count((k - 1) as nat) == pow2(k + 1) by {
        lemma_pow2_unfold(k + 2);
    }
}

/// A dark level `k <= depth` ends the expansion before it: no stroke of level
/// `k` or deeper is drawn, and the frame is shorter than a full one.
pub proof fn law_dark_level_stops(s: Seq<Stroke>, depth: nat, lum: Seq<u8>, k: nat)
    requires
        1 <= k <= depth,
        k <= lum.len(),
        lum[k - 1] == 0,
        is_frame_plan(s, lum, lit_levels(depth, lum)),
    ensures
        lit_levels(depth, lum) < k,
        s.len() < stroke_count(depth),
        forall|i: int| 0 <= i < s.len() ==> stroke_level(#[trigger] s[i]) < k,
{
    lemma_lit_from(depth, lum, 0);
    lemma_pow2_strictly_increases(lit_levels(depth, lum) + 2, depth + 2);
}

} // verus!
