use vstd::prelude::*;
use crate::config::FallingConfig;
use crate::particle::{advanced, draw_of, made_from, spawned_under, DrawCommand, FallingObject};
use crate::random::in_draw_range;
use crate::scene::{culled, frame, frame_draws, live};

verus! {

/// The live set after one frame per batch of `batches`, starting from
/// `objects`, on a stage `height` high.
pub open spec fn run(
    objects: Seq<FallingObject>,
    batches: Seq<Seq<FallingObject>>,
    height: i64,
) -> Seq<FallingObject>
    decreases batches.len(),
{
    if batches.len() == 0 {
        objects
    } else {
        run(frame(objects, batches[0], height), batches.drop_first(), height)
    }
}

/// No particle is flagged deleted at the end of any of the frames of `run`.
pub open spec fn never_culled(
    objects: Seq<FallingObject>,
    batches: Seq<Seq<FallingObject>>,
    height: i64,
) -> bool
    decreases batches.len(),
{
    if batches.len() == 0 {
        true
    } else {
        let next = frame(objects, batches[0], height);
        &&& forall|i: int| 0 <= i < next.len() ==> !(#[trigger] next[i]).deleted
        &&& never_culled(next, batches.drop_first(), height)
    }
}

/// A particle spawned from a single-point range takes that range's bound, and
/// on a stage of width zero it starts at `x == 0`.
pub proof fn lemma_fixed_ranges(c: FallingConfig, width: i64, p: FallingObject)
    requires
        spawned_under(c, width, p),
    ensures
        c.min_speed == c.max_speed ==> p.speed == c.min_speed,
        c.min_angle == c.max_angle ==> p.angle == c.min_angle,
        c.min_radius == c.max_radius ==> p.radius == c.min_radius,
        width == 0 ==> p.x == 0,
{
}

/// A spawned particle's colour is an entry of the palette.
pub proof fn lemma_color_in_palette(c: FallingConfig, width: i64, p: FallingObject)
    requires
        spawned_under(c, width, p),
    ensures
        c.colors@.contains(p.color),
{
}

/// Draws within the configuration's ranges make a particle that spawning
/// could have produced.
pub proof fn lemma_draws_in_range_spawn(
    c: FallingConfig,
    width: i64,
    x: i64,
    speed: i32,
    angle: i32,
    radius: i32,
    color_index: int,
)
    requires
        0 <= color_index < c.colors@.len(),
    ensures
        in_draw_range(x as int, 0, width as int) && in_draw_range(
            speed as int,
            c.min_speed as int,
            c.max_speed as int,
        ) && in_draw_range(angle as int, c.min_angle as int, c.max_angle as int)
            && in_draw_range(radius as int, c.min_radius as int, c.max_radius as int)
            ==> spawned_under(c, width, made_from(c, x, speed, angle, radius, color_index)),
{
    let p = made_from(c, x, speed, angle, radius, color_index);
    assert(p.color == c.colors@[color_index]);
}

/// Advancing depends on the position, speed and angle alone: two particles
/// that agree on them agree on their positions after one and after two
/// advances.
pub proof fn lemma_advance_deterministic(p: FallingObject, q: FallingObject)
    requires
        p.x == q.x,
        p.y == q.y,
        p.speed == q.speed,
        p.angle == q.angle,
    ensures
        advanced(p).x == advanced(q).x,
        advanced(p).y == advanced(q).y,
        advanced(advanced(p)).x == advanced(advanced(q)).x,
        advanced(advanced(p)).y == advanced(advanced(q)).y,
{
}

/// Compaction keeps every particle that is not flagged, and nothing else
/// lands in the live set flagged.
pub proof fn lemma_live_unflagged(s: Seq<FallingObject>)
    ensures
        forall|i: int| 0 <= i < live(s).len() ==> !(#[trigger] live(s)[i]).deleted,
    decreases s.len(),
{
    if s.len() > 0 {
        lemma_live_unflagged(s.drop_last());
    }
}

/// Compaction of a sequence with no flagged particle changes nothing.
pub proof fn lemma_live_all_alive(s: Seq<FallingObject>)
    requires
        forall|i: int| 0 <= i < s.len() ==> !(#[trigger] s[i]).deleted,
    ensures
        live(s) == s,
    decreases s.len(),
{
    if s.len() > 0 {
        lemma_live_all_alive(s.drop_last());
        assert(s.drop_last().push(s.last()) =~= s);
    }
}

/// Compacting a prefix of `s` gives a prefix of the compaction of `s`.
pub proof fn lemma_live_prefix(s: Seq<FallingObject>, n: int)
    requires
        0 <= n <= s.len(),
    ensures
        live(s.subrange(0, n)).len() <= live(s).len(),
        live(s).subrange(0, live(s.subrange(0, n)).len() as int) == live(s.subrange(0, n)),
    decreases s.len(),
{
    if n == s.len() {
        assert(s.subrange(0, n) =~= s);
        assert(live(s).subrange(0, live(s).len() as int) =~= live(s));
    } else {
        lemma_live_prefix(s.drop_last(), n);
        assert(s.drop_last().subrange(0, n) =~= s.subrange(0, n));
        let l = live(s.subrange(0, n)).len() as int;
        assert(live(s).subrange(0, l) =~= live(s.drop_last()).subrange(0, l));
    }
}

/// An unflagged particle at `i` stands in the compaction at the index given
/// by the compaction of what precedes it.
proof fn lemma_live_position(s: Seq<FallingObject>, i: int)
    requires
        0 <= i < s.len(),
        !s[i].deleted,
    ensures
        live(s.subrange(0, i)).len() < live(s.subrange(0, i + 1)).len(),
        live(s.subrange(0, i + 1)).len() <= live(s).len(),
        live(s)[live(s.subrange(0, i)).len() as int] == s[i],
{
    let pre = s.subrange(0, i + 1);
    assert(pre.drop_last() =~= s.subrange(0, i));
    lemma_live_prefix(s, i + 1);
    let a = live(s.subrange(0, i)).len() as int;
    assert(live(pre)[a] == s[i]);
    assert(live(s).subrange(0, live(pre).len() as int)[a] == live(s)[a]);
}

/// Compaction keeps the relative order of the particles it keeps: two
/// unflagged particles at `i < j` stand at `a < b` in the compaction.
pub proof fn lemma_compaction_order(s: Seq<FallingObject>, i: int, j: int)
    requires
        0 <= i < j < s.len(),
        !s[i].deleted,
        !s[j].deleted,
    ensures
        exists|a: int, b: int|
            0 <= a < b < live(s).len() && #[trigger] live(s)[a] == s[i] && #[trigger] live(s)[b]
                == s[j],
{
    lemma_live_position(s, i);
    lemma_live_position(s, j);
    let t = s.subrange(0, j);
    lemma_live_prefix(t, i + 1);
    assert(t.subrange(0, i + 1) =~= s.subrange(0, i + 1));
    let a = live(s.subrange(0, i)).len() as int;
    let b = live(s.subrange(0, j)).len() as int;
    assert(0 <= a < b < live(s).len());
    assert(live(s)[a] == s[i] && live(s)[b] == s[j]);
}

/// A particle that falls below the stage during a frame is flagged deleted,
/// is still drawn in that frame, and is gone from the live set after the
/// next frame's compaction.
pub proof fn lemma_deferred_removal(
    objects: Seq<FallingObject>,
    spawned: Seq<FallingObject>,
    next_spawned: Seq<FallingObject>,
    width: i64,
    height: i64,
    i: int,
)
    requires
        0 <= i < live(objects + spawned).len(),
        advanced(live(objects + spawned)[i]).y > height,
    ensures
        frame(objects, spawned, height)[i].deleted,
        frame_draws(width, height, frame(objects, spawned, height))[i + 1] == draw_of(
            frame(objects, spawned, height)[i],
        ),
        !live(frame(objects, spawned, height) + next_spawned).contains(
            frame(objects, spawned, height)[i],
        ),
{
    let after = frame(objects, spawned, height);
    let gone = after[i];
    let next = live(after + next_spawned);
    lemma_live_unflagged(after + next_spawned);
    if next.contains(gone) {
        let k = choose|k: int| 0 <= k < next.len() && next[k] == gone;
        assert(!next[k].deleted);
    }
}

/// The first frame after a fresh scene is resized to `width` by `height`:
/// it clears the whole stage, and its live set is the spawned batch, each
/// particle started on the top edge within the stage's width, then advanced
/// and culled once.
pub proof fn lemma_first_frame(
    c: FallingConfig,
    width: i64,
    height: i64,
    spawned: Seq<FallingObject>,
)
    requires
        width >= 0,
        spawned.len() == c.frequency,
        forall|i: int| 0 <= i < spawned.len() ==> spawned_under(c, width, #[trigger] spawned[i]),
    ensures
        frame(Seq::empty(), spawned, height).len() == c.frequency,
        frame_draws(width, height, frame(Seq::empty(), spawned, height))[0] == (DrawCommand::Clear {
            width,
            height,
        }),
        forall|i: int|
            0 <= i < spawned.len() ==> {
                &&& frame(Seq::empty(), spawned, height)[i] == culled(#[trigger] spawned[i], height)
                &&& spawned[i].y == 0
                &&& (if width == 0 {
                    spawned[i].x == 0
                } else {
                    0 <= spawned[i].x < width
                })
            },
{
    assert(Seq::<FallingObject>::empty() + spawned =~= spawned);
    assert forall|i: int| 0 <= i < spawned.len() implies !(#[trigger] spawned[i]).deleted by {
        assert(spawned_under(c, width, spawned[i]));
    }
    lemma_live_all_alive(spawned);
}

/// The size of the live set after the frames of `run`, when every particle
/// handed in is unflagged and none is ever culled.
proof fn lemma_run_size(
    objects: Seq<FallingObject>,
    batches: Seq<Seq<FallingObject>>,
    k: nat,
    height: i64,
)
    requires
        forall|i: int| 0 <= i < objects.len() ==> !(#[trigger] objects[i]).deleted,
        forall|b: int| 0 <= b < batches.len() ==> (#[trigger] batches[b]).len() == k,
        forall|b: int, i: int|
            0 <= b < batches.len() && 0 <= i < batches[b].len() ==> !(#[trigger] batches[b][i]).deleted,
        never_culled(objects, batches, height),
    ensures
        run(objects, batches, height).len() == objects.len() + batches.len() * k,
    decreases batches.len(),
{
    if batches.len() > 0 {
        let joined = objects + batches[0];
        assert forall|i: int| 0 <= i < joined.len() implies !(#[trigger] joined[i]).deleted by {
            if i >= objects.len() {
                assert(joined[i] == batches[0][i - objects.len()]);
            }
        }
        lemma_live_all_alive(joined);
        let next = frame(objects, batches[0], height);
        let rest = batches.drop_first();
        assert forall|b: int, i: int|
            0 <= b < rest.len() && 0 <= i < rest[b].len() implies !(#[trigger] rest[b][i]).deleted by {
            assert(rest[b] == batches[b + 1]);
        }
        assert forall|b: int| 0 <= b < rest.len() implies (#[trigger] rest[b]).len() == k by {
            assert(rest[b] == batches[b + 1]);
        }
        lemma_run_size(next, rest, k, height);
        let n = batches.len() as int;
        assert(k + (n - 1) * k == n * k) by (nonlinear_arith);
    }
}

/// Starting from an empty live set, after one frame per batch, with `k`
/// fresh particles per frame and no particle ever falling below the stage,
/// the live set holds `k` particles per frame.
pub proof fn lemma_spawn_count(batches: Seq<Seq<FallingObject>>, k: nat, height: i64)
    requires
        forall|b: int| 0 <= b < batches.len() ==> (#[trigger] batches[b]).len() == k,
        forall|b: int, i: int|
            0 <= b < batches.len() && 0 <= i < batches[b].len() ==> !(#[trigger] batches[b][i]).deleted,
        never_culled(Seq::empty(), batches, height),
    ensures
        run(Seq::empty(), batches, height).len() == batches.len() * k,
{
    lemma_run_size(Seq::empty(), batches, k, height);
}

} // verus!
