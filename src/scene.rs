use vstd::prelude::*;
use crate::config::FallingConfig;
use crate::particle::{advanced, draw_of, spawned_under, DrawCommand, FallingObject};

verus! {

/// The simulation state of one mounted effect: its configuration, the stage
/// size and the live particles, in order.
pub struct Scene {
    pub config: FallingConfig,
    pub objects: Vec<FallingObject>,
    pub stage_width: i64,
    pub stage_height: i64,
}

/// The particles of `s` that are not flagged deleted, in their order.
pub open spec fn live(s: Seq<FallingObject>) -> Seq<FallingObject>
    decreases s.len(),
{
    if s.len() == 0 {
        Seq::empty()
    } else {
        let rest = live(s.drop_last());
        if s.last().deleted {
            rest
        } else {
            rest.push(s.last())
        }
    }
}

/// A particle advanced one frame and flagged deleted once below `height`.
pub open spec fn culled(p: FallingObject, height: i64) -> FallingObject {
    FallingObject { deleted: p.deleted || advanced(p).y > height, ..advanced(p) }
}

/// Every particle of `s` advanced and culled against `height`.
pub open spec fn culled_all(s: Seq<FallingObject>, height: i64) -> Seq<FallingObject> {
    s.map_values(|p: FallingObject| culled(p, height))
}

/// The draw commands of the particles of `s`, in order.
pub open spec fn draws_of(s: Seq<FallingObject>) -> Seq<DrawCommand> {
    s.map_values(|p: FallingObject| draw_of(p))
}

/// The live set after one frame: `spawned` appended to `objects`, the deleted
/// ones dropped, the rest advanced and culled.
pub open spec fn frame(
    objects: Seq<FallingObject>,
    spawned: Seq<FallingObject>,
    height: i64,
) -> Seq<FallingObject> {
    culled_all(live(objects + spawned), height)
}

/// What one frame draws: a clear of the whole stage, then each particle of
/// `after` (the live set at the end of the frame), in order.
pub open spec fn frame_draws(width: i64, height: i64, after: Seq<FallingObject>) -> Seq<DrawCommand> {
    seq![DrawCommand::Clear { width, height }] + draws_of(after)
}

impl Scene {
    pub open spec fn wf(&self) -> bool {
        &&& self.config.wf()
        &&& self.stage_width >= 0
        &&& self.stage_height >= 0
    }

    /// A scene with no particles and a stage of size zero, until `resize`.
    pub fn new(config: FallingConfig) -> (r: Scene)
        requires
            config.wf(),
        ensures
            r.wf(),
            r.config == config,
            r.objects@ == Seq::<FallingObject>::empty(),
            r.stage_width == 0,
            r.stage_height == 0,
    {
        Scene { config, objects: Vec::new(), stage_width: 0, stage_height: 0 }
    }

    /// Takes the mount element's new content size as the stage size; the
    /// particles are left where they are.
    pub fn resize(&mut self, width: i64, height: i64)
        requires
            old(self).wf(),
            width >= 0,
            height >= 0,
        ensures
            final(self).wf(),
            final(self).config == old(self).config,
            final(self).objects@ == old(self).objects@,
            final(self).stage_width == width,
            final(self).stage_height == height,
    {
        self.stage_width = width;
        self.stage_height = height;
    }

    /// Drops the particles flagged deleted, keeping the order of the rest.
    pub fn compact(&mut self)
        ensures
            final(self).objects@ == live(old(self).objects@),
            final(self).config == old(self).config,
            final(self).stage_width == old(self).stage_width,
            final(self).stage_height == old(self).stage_height,
    {
        let mut kept: Vec<FallingObject> = Vec::new();
        let n = self.objects.len();
        let mut i: usize = 0;
        while i < n
            invariant
                n == self.objects@.len(),
                0 <= i <= n,
                kept@ == live(self.objects@.subrange(0, i as int)),
            decreases n - i,
        {
            let ghost before = self.objects@.subrange(0, i as int);
            let ghost after = self.objects@.subrange(0, i as int + 1);
            assert(after.drop_last() =~= before);
            if !self.objects[i].deleted {
                kept.push(self.objects[i].copy());
            }
            i = i + 1;
        }
        assert(self.objects@.subrange(0, n as int) =~= self.objects@);
        self.objects = kept;
    }

    /// Advances every particle, flags those now below the stage as deleted,
    /// and returns the command that draws each of them, flagged or not.
    pub fn advance_all(&mut self) -> (r: Vec<DrawCommand>)
        ensures
            final(self).objects@ == culled_all(old(self).objects@, old(self).stage_height),
            r@ == draws_of(final(self).objects@),
            final(self).config == old(self).config,
            final(self).stage_width == old(self).stage_width,
            final(self).stage_height == old(self).stage_height,
    {
        let h = self.stage_height;
        let n = self.objects.len();
        let mut moved: Vec<FallingObject> = Vec::new();
        let mut draws: Vec<DrawCommand> = Vec::new();
        let mut i: usize = 0;
        while i < n
            invariant
                n == self.objects@.len(),
                h == self.stage_height,
                0 <= i <= n,
                moved@.len() == i,
                draws@.len() == i,
                forall|j: int| 0 <= j < i ==> moved@[j] == culled(#[trigger] self.objects@[j], h),
                forall|j: int| 0 <= j < i ==> draws@[j] == draw_of(#[trigger] moved@[j]),
            decreases n - i,
        {
            let mut p = self.objects[i].copy();
            let y = p.update();
            if y > h {
                p.deleted = true;
            }
            draws.push(p.render());
            moved.push(p);
            i = i + 1;
        }
        assert(moved@ =~= culled_all(self.objects@, h));
        assert(draws@ =~= draws_of(moved@));
        self.objects = moved;
        draws
    }

    /// One frame from particles already spawned: clears the stage, appends
    /// `spawned`, compacts, then advances, culls and draws every particle.
    pub fn step(&mut self, spawned: Vec<FallingObject>) -> (r: Vec<DrawCommand>)
        ensures
            final(self).objects@ == frame(old(self).objects@, spawned@, old(self).stage_height),
            r@ == frame_draws(old(self).stage_width, old(self).stage_height, final(self).objects@),
            final(self).config == old(self).config,
            final(self).stage_width == old(self).stage_width,
            final(self).stage_height == old(self).stage_height,
    {
        let mut spawned = spawned;
        let mut draws: Vec<DrawCommand> = Vec::new();
        draws.push(DrawCommand::Clear { width: self.stage_width, height: self.stage_height });
        self.objects.append(&mut spawned);
        self.compact();
        let mut drawn = self.advance_all();
        draws.append(&mut drawn);
        assert(draws@ =~= frame_draws(self.stage_width, self.stage_height, self.objects@));
        draws
    }

    /// `frequency` new particles spawned on the current stage.
    pub fn spawn_batch(&self) -> (r: Vec<FallingObject>)
        requires
            self.wf(),
        ensures
            r@.len() == self.config.frequency,
            forall|i: int|
                0 <= i < r@.len() ==> spawned_under(self.config, self.stage_width, #[trigger] r@[i]),
    {
        let mut batch: Vec<FallingObject> = Vec::new();
        let mut k: u8 = 0;
        while k < self.config.frequency
            invariant
                self.wf(),
                k <= self.config.frequency,
                batch@.len() == k,
                forall|i: int|
                    0 <= i < batch@.len() ==> spawned_under(
                        self.config,
                        self.stage_width,
                        #[trigger] batch@[i],
                    ),
            decreases self.config.frequency - k,
        {
            batch.push(FallingObject::new(self));
            k = k + 1;
        }
        batch
    }

    /// One animation frame: spawns `frequency` particles, then runs `step`
    /// on them; returns what to draw.
    pub fn render(&mut self) -> (r: Vec<DrawCommand>)
        requires
            old(self).wf(),
        ensures
            final(self).wf(),
            final(self).config == old(self).config,
            final(self).stage_width == old(self).stage_width,
            final(self).stage_height == old(self).stage_height,
            exists|spawned: Seq<FallingObject>|
                {
                    &&& spawned.len() == old(self).config.frequency
                    &&& forall|i: int|
                        0 <= i < spawned.len() ==> spawned_under(
                            old(self).config,
                            old(self).stage_width,
                            #[trigger] spawned[i],
                        )
                    &&& final(self).objects@ == frame(
                        old(self).objects@,
                        spawned,
                        old(self).stage_height,
                    )
                },
            r@ == frame_draws(old(self).stage_width, old(self).stage_height, final(self).objects@),
    {
        let batch = self.spawn_batch();
        let ghost sp = batch@;
        let r = self.step(batch);
        assert(sp.len() == self.config.frequency);
        r
    }
}

} // verus!
