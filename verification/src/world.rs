//! The scene: a flat, unordered set of live entities with unique ids. Each
//! tick advances every timer by the tick's elapsed time, evaluates the
//! completions, and only then applies the batched creations and removals —
//! iteration over the tick's entities is never perturbed by entities created
//! or removed within the same tick.

use vstd::prelude::*;
use crate::emitter::Tower;
use crate::emitter::spec_spawn_position;
use crate::emitter::spawn_position;
use crate::geom::Point3;
use crate::lifetime::LifeTime;

verus! {

/// A stationary emitter in the scene.
#[derive(Clone, Copy, PartialEq, Eq, Structural, Debug)]
pub struct EmitterEntity {
    pub id: u64,
    pub position: Point3,
    pub tower: Tower,
}

/// A short-lived projectile in the scene.
#[derive(Clone, Copy, PartialEq, Eq, Structural, Debug)]
pub struct Projectile {
    pub id: u64,
    pub position: Point3,
    pub life_time: LifeTime,
}

impl EmitterEntity {
    /// Id below the scene's id watermark, bounded position, sound timer.
    pub open spec fn wf(self, id_bound: u64) -> bool {
        &&& self.id < id_bound
        &&& self.position.in_bounds()
        &&& self.tower.wf()
    }

    /// The entity after its timer absorbed this tick's elapsed time.
    pub open spec fn spec_tick(self, delta: u64) -> EmitterEntity {
        (EmitterEntity {
            id: self.id,
            position: self.position,
            tower: Tower { shooting_timer: self.tower.shooting_timer.spec_advance(delta) },
        })
    }
}

impl Projectile {
    /// Id below the scene's id watermark, bounded position, sound timer.
    pub open spec fn wf(self, id_bound: u64) -> bool {
        &&& self.id < id_bound
        &&& self.position.in_bounds()
        &&& self.life_time.wf()
    }

    /// The entity after its timer absorbed this tick's elapsed time.
    pub open spec fn spec_tick(self, delta: u64) -> Projectile {
        (Projectile {
            id: self.id,
            position: self.position,
            life_time: LifeTime { timer: self.life_time.timer.spec_advance(delta) },
        })
    }
}

/// All emitters, each advanced by this tick's elapsed time.
pub open spec fn spec_tick_emitters(s: Seq<EmitterEntity>, delta: u64) -> Seq<EmitterEntity> {
    Seq::new(s.len(), |i: int| s[i].spec_tick(delta))
}

/// The spawn positions requested this tick, one per emitter whose timer
/// completed, in emitter order.
pub open spec fn spec_spawn_positions(s: Seq<EmitterEntity>, delta: u64) -> Seq<Point3>
    decreases s.len(),
{
    if s.len() == 0 {
        Seq::empty()
    } else {
        let pre = spec_spawn_positions(s.drop_last(), delta);
        if s.last().spec_tick(delta).tower.shooting_timer.just_completed {
            pre.push(spec_spawn_position(s.last().position))
        } else {
            pre
        }
    }
}

/// The projectiles that survive this tick: each advanced, and those whose
/// lifetime completed dropped, keeping the original order.
pub open spec fn spec_survivors(s: Seq<Projectile>, delta: u64) -> Seq<Projectile>
    decreases s.len(),
{
    if s.len() == 0 {
        Seq::empty()
    } else {
        let pre = spec_survivors(s.drop_last(), delta);
        let p = s.last().spec_tick(delta);
        if p.life_time.timer.just_completed {
            pre
        } else {
            pre.push(p)
        }
    }
}

/// The projectiles created this tick: one per requested position, with fresh
/// consecutive ids starting at `first_id`.
pub open spec fn spec_new_projectiles(ps: Seq<Point3>, first_id: u64) -> Seq<Projectile> {
    Seq::new(
        ps.len(),
        |i: int|
            (Projectile {
                id: (first_id + i) as u64,
                position: ps[i],
                life_time: LifeTime::spec_for_projectile(),
            }),
    )
}

/// The entities with the given id removed; all others kept, in order.
pub open spec fn spec_remove_emitters(s: Seq<EmitterEntity>, id: u64) -> Seq<EmitterEntity>
    decreases s.len(),
{
    if s.len() == 0 {
        Seq::empty()
    } else {
        let pre = spec_remove_emitters(s.drop_last(), id);
        if s.last().id == id {
            pre
        } else {
            pre.push(s.last())
        }
    }
}

/// The entities with the given id removed; all others kept, in order.
pub open spec fn spec_remove_projectiles(s: Seq<Projectile>, id: u64) -> Seq<Projectile>
    decreases s.len(),
{
    if s.len() == 0 {
        Seq::empty()
    } else {
        let pre = spec_remove_projectiles(s.drop_last(), id);
        if s.last().id == id {
            pre
        } else {
            pre.push(s.last())
        }
    }
}

/// Some projectile in `s` carries the id.
pub open spec fn spec_has_projectile_id(s: Seq<Projectile>, id: u64) -> bool {
    exists|i: int| 0 <= i < s.len() && s[i].id == id
}

/// Some emitter in `s` carries the id.
pub open spec fn spec_has_emitter_id(s: Seq<EmitterEntity>, id: u64) -> bool {
    exists|i: int| 0 <= i < s.len() && s[i].id == id
}

/// The shared scene state: live entities and the watermark below which all
/// ids have been handed out.
pub struct World {
    pub next_id: u64,
    pub emitters: Vec<EmitterEntity>,
    pub projectiles: Vec<Projectile>,
}

impl World {
    /// Every entity is well formed against the id watermark and no two
    /// entities share an id.
    pub open spec fn wf(self) -> bool {
        &&& forall|i: int|
            0 <= i < self.emitters@.len() ==> (#[trigger] self.emitters@[i]).wf(self.next_id)
        &&& forall|i: int|
            0 <= i < self.projectiles@.len() ==> (#[trigger] self.projectiles@[i]).wf(self.next_id)
        &&& forall|i: int, j: int|
            0 <= i < j < self.emitters@.len() ==> #[trigger] self.emitters@[i].id
                != #[trigger] self.emitters@[j].id
        &&& forall|i: int, j: int|
            0 <= i < j < self.projectiles@.len() ==> #[trigger] self.projectiles@[i].id
                != #[trigger] self.projectiles@[j].id
        &&& forall|i: int, j: int|
            0 <= i < self.emitters@.len() && 0 <= j < self.projectiles@.len()
                ==> #[trigger] self.emitters@[i].id != #[trigger] self.projectiles@[j].id
    }

    /// An empty scene.
    pub fn new() -> (w: World)
        ensures
            w.next_id == 0,
            w.emitters@ == Seq::<EmitterEntity>::empty(),
            w.projectiles@ == Seq::<Projectile>::empty(),
            w.wf(),
    {
        let w = World { next_id: 0, emitters: Vec::new(), projectiles: Vec::new() };
        proof {
            assert(w.emitters@ =~= Seq::<EmitterEntity>::empty());
            assert(w.projectiles@ =~= Seq::<Projectile>::empty());
        }
        w
    }

    /// Creates one emitter at the given position (clamped into bounds) with a
    /// fresh repeating timer, and returns its id.
    pub fn spawn_emitter(&mut self, position: Point3) -> (id: u64)
        requires
            old(self).wf(),
            old(self).next_id < u64::MAX,
        ensures
            id == old(self).next_id,
            final(self).next_id == old(self).next_id + 1,
            final(self).emitters@ == old(self).emitters@.push(
                (EmitterEntity {
                    id: old(self).next_id,
                    position: position.spec_clamped(),
                    tower: Tower::spec_new(),
                }),
            ),
            final(self).projectiles@ == old(self).projectiles@,
            final(self).wf(),
    {
        let id = self.next_id;
        let ent = EmitterEntity { id, position: position.clamped(), tower: Tower::new() };
        self.emitters.push(ent);
        self.next_id = self.next_id + 1;
        id
    }

    /// Sets up the initial scene: one emitter standing atop the unit cube at
    /// the origin. Static decorations (ground plane, light) carry no behavior
    /// and are not tracked by the core.
    pub fn spawn_scene(&mut self) -> (id: u64)
        requires
            old(self).wf(),
            old(self).next_id < u64::MAX,
        ensures
            id == old(self).next_id,
            final(self).next_id == old(self).next_id + 1,
            final(self).emitters@ == old(self).emitters@.push(
                (EmitterEntity {
                    id: old(self).next_id,
                    position: Point3 { x: 0, y: 500, z: 0 },
                    tower: Tower::spec_new(),
                }),
            ),
            final(self).projectiles@ == old(self).projectiles@,
            final(self).wf(),
    {
        self.spawn_emitter(Point3 { x: 0, y: 500, z: 0 })
    }

    /// One simulation tick: advances every timer by `delta` milliunits,
    /// evaluates the completions, then applies the batched changes — the
    /// projectiles whose lifetime completed are removed, and one fresh
    /// projectile is created per emitter whose period completed, at the fixed
    /// offset from its emitter, with a fresh one-shot lifetime.
    pub fn tick(&mut self, delta: u64)
        requires
            old(self).wf(),
            old(self).next_id + old(self).emitters@.len() <= u64::MAX,
        ensures
            final(self).emitters@ == spec_tick_emitters(old(self).emitters@, delta),
            final(self).projectiles@ == spec_survivors(old(self).projectiles@, delta)
                + spec_new_projectiles(
                spec_spawn_positions(old(self).emitters@, delta),
                old(self).next_id,
            ),
            final(self).next_id == old(self).next_id + spec_spawn_positions(
                old(self).emitters@,
                delta,
            ).len(),
            final(self).wf(),
    {
        let ghost old_em = old(self).emitters@;
        let ghost old_pr = old(self).projectiles@;
        // Advance emitter timers, batching the spawn requests.
        let mut spawn_positions: Vec<Point3> = Vec::new();
        let mut i: usize = 0;
        while i < self.emitters.len()
            invariant
                old(self).wf(),
                old_em == old(self).emitters@,
                old_pr == old(self).projectiles@,
                i <= old_em.len(),
                self.next_id == old(self).next_id,
                self.projectiles@ == old_pr,
                self.emitters@.len() == old_em.len(),
                forall|k: int|
                    0 <= k < i ==> self.emitters@[k] == (#[trigger] old_em[k]).spec_tick(delta),
                forall|k: int| i <= k < old_em.len() ==> self.emitters@[k] == #[trigger] old_em[k],
                spawn_positions@ == spec_spawn_positions(old_em.take(i as int), delta),
            decreases old_em.len() - i,
        {
            let mut ent = self.emitters[i];
            proof {
                assert(old_em[i as int].wf(old(self).next_id));
            }
            let spawn = ent.tower.tick(delta);
            self.emitters.set(i, ent);
            if spawn {
                spawn_positions.push(spawn_position(ent.position));
            }
            proof {
                assert(old_em.take(i + 1).drop_last() =~= old_em.take(i as int));
                assert(old_em.take(i + 1).last() == old_em[i as int]);
                assert(self.emitters@[i as int] == old_em[i as int].spec_tick(delta));
            }
            i = i + 1;
        }
        proof {
            assert(old_em.take(old_em.len() as int) =~= old_em);
            assert(self.emitters@ =~= spec_tick_emitters(old_em, delta));
        }
        let ghost em_after = self.emitters@;
        // Advance lifetimes; the projectiles whose lifetime completed are the
        // batched removals, so only the survivors are kept.
        let mut kept: Vec<Projectile> = Vec::new();
        let mut j: usize = 0;
        while j < self.projectiles.len()
            invariant
                old(self).wf(),
                old_em == old(self).emitters@,
                old_pr == old(self).projectiles@,
                j <= old_pr.len(),
                self.next_id == old(self).next_id,
                self.projectiles@ == old_pr,
                self.emitters@ == em_after,
                kept@ == spec_survivors(old_pr.take(j as int), delta),
            decreases old_pr.len() - j,
        {
            let mut p = self.projectiles[j];
            proof {
                assert(old_pr[j as int].wf(old(self).next_id));
            }
            let expired = p.life_time.tick(delta);
            if !expired {
                kept.push(p);
            }
            proof {
                assert(old_pr.take(j + 1).drop_last() =~= old_pr.take(j as int));
                assert(old_pr.take(j + 1).last() == old_pr[j as int]);
                assert(p == old_pr[j as int].spec_tick(delta));
            }
            j = j + 1;
        }
        self.projectiles = kept;
        // Apply the batched creations, with fresh consecutive ids.
        let ghost spawns = spec_spawn_positions(old_em, delta);
        proof {
            assert(old_pr.take(old_pr.len() as int) =~= old_pr);
            lemma_spawn_positions_props(old_em, delta);
            assert(spec_new_projectiles(spawns.take(0), old(self).next_id)
                =~= Seq::<Projectile>::empty());
            assert(self.projectiles@ =~= spec_survivors(old_pr, delta) + spec_new_projectiles(
                spawns.take(0),
                old(self).next_id,
            ));
        }
        let mut k: usize = 0;
        while k < spawn_positions.len()
            invariant
                old_em == old(self).emitters@,
                old_pr == old(self).projectiles@,
                spawn_positions@ == spawns,
                spawns.len() <= old_em.len(),
                old(self).next_id + old_em.len() <= u64::MAX,
                k <= spawns.len(),
                self.next_id == old(self).next_id + k,
                self.projectiles@ == spec_survivors(old_pr, delta) + spec_new_projectiles(
                    spawns.take(k as int),
                    old(self).next_id,
                ),
                self.emitters@ == em_after,
            decreases spawns.len() - k,
        {
            let pos = spawn_positions[k];
            let fresh = Projectile {
                id: self.next_id,
                position: pos,
                life_time: LifeTime::for_projectile(),
            };
            self.projectiles.push(fresh);
            self.next_id = self.next_id + 1;
            proof {
                assert(spec_new_projectiles(spawns.take(k + 1), old(self).next_id)
                    =~= spec_new_projectiles(spawns.take(k as int), old(self).next_id).push(fresh));
                assert(spec_survivors(old_pr, delta) + spec_new_projectiles(
                    spawns.take(k + 1),
                    old(self).next_id,
                ) =~= (spec_survivors(old_pr, delta) + spec_new_projectiles(
                    spawns.take(k as int),
                    old(self).next_id,
                )).push(fresh));
            }
            k = k + 1;
        }
        proof {
            assert(spawns.take(spawns.len() as int) =~= spawns);
            self.lemma_tick_wf(old_em, old_pr, old(self).next_id, delta);
        }
    }

    /// The scene produced by a tick is well formed: ids stay distinct and
    /// every entity stays within the watermark and the position bound.
    proof fn lemma_tick_wf(self, old_em: Seq<EmitterEntity>, old_pr: Seq<Projectile>, old_next: u64, delta: u64)
        requires
            forall|i: int| 0 <= i < old_em.len() ==> (#[trigger] old_em[i]).wf(old_next),
            forall|i: int| 0 <= i < old_pr.len() ==> (#[trigger] old_pr[i]).wf(old_next),
            forall|i: int, j: int| 0 <= i < j < old_em.len() ==> old_em[i].id != old_em[j].id,
            forall|i: int, j: int| 0 <= i < j < old_pr.len() ==> old_pr[i].id != old_pr[j].id,
            forall|i: int, j: int|
                0 <= i < old_em.len() && 0 <= j < old_pr.len() ==> old_em[i].id != old_pr[j].id,
            old_next + old_em.len() <= u64::MAX,
            self.emitters@ == spec_tick_emitters(old_em, delta),
            self.projectiles@ == spec_survivors(old_pr, delta) + spec_new_projectiles(
                spec_spawn_positions(old_em, delta),
                old_next,
            ),
            self.next_id == old_next + spec_spawn_positions(old_em, delta).len(),
        ensures
            self.wf(),
    {
        let spawns = spec_spawn_positions(old_em, delta);
        let surv = spec_survivors(old_pr, delta);
        let born = spec_new_projectiles(spawns, old_next);
        lemma_spawn_positions_props(old_em, delta);
        lemma_survivors_props(old_pr, delta, old_next);
        assert forall|i: int|
            0 <= i < self.emitters@.len() implies (#[trigger] self.emitters@[i]).wf(
            self.next_id,
        ) by {
            assert(old_em[i].wf(old_next));
        }
        assert forall|i: int|
            0 <= i < self.projectiles@.len() implies (#[trigger] self.projectiles@[i]).wf(
            self.next_id,
        ) by {
            if i < surv.len() {
                assert(surv[i].wf(old_next));
            } else {
                assert(self.projectiles@[i] == born[i - surv.len()]);
            }
        }
        assert forall|i: int, j: int|
            0 <= i < j < self.projectiles@.len() implies #[trigger] self.projectiles@[i].id
            != #[trigger] self.projectiles@[j].id by {
            if i < surv.len() && j < surv.len() {
                assert(surv[i].id != surv[j].id);
            } else if i < surv.len() {
                assert(surv[i].wf(old_next));
                assert(self.projectiles@[j] == born[j - surv.len()]);
            } else {
                assert(self.projectiles@[i] == born[i - surv.len()]);
                assert(self.projectiles@[j] == born[j - surv.len()]);
            }
        }
        assert forall|i: int, j: int|
            0 <= i < self.emitters@.len() && 0 <= j < self.projectiles@.len()
            implies #[trigger] self.emitters@[i].id != #[trigger] self.projectiles@[j].id by {
            assert(self.emitters@[i].id == old_em[i].id);
            assert(old_em[i].wf(old_next));
            if j < surv.len() {
                assert(spec_has_projectile_id(old_pr, surv[j].id));
                let w = choose|m: int| 0 <= m < old_pr.len() && old_pr[m].id == surv[j].id;
                assert(old_em[i].id != old_pr[w].id);
            } else {
                assert(self.projectiles@[j] == born[j - surv.len()]);
            }
        }
    }

    /// Whether some live entity carries the given id.
    pub fn contains(&self, id: u64) -> (r: bool)
        ensures
            r == (spec_has_emitter_id(self.emitters@, id) || spec_has_projectile_id(
                self.projectiles@,
                id,
            )),
    {
        let mut i: usize = 0;
        while i < self.emitters.len()
            invariant
                i <= self.emitters@.len(),
                forall|k: int| 0 <= k < i ==> (#[trigger] self.emitters@[k]).id != id,
            decreases self.emitters@.len() - i,
        {
            if self.emitters[i].id == id {
                return true;
            }
            i = i + 1;
        }
        let mut j: usize = 0;
        while j < self.projectiles.len()
            invariant
                j <= self.projectiles@.len(),
                forall|k: int| 0 <= k < j ==> (#[trigger] self.projectiles@[k]).id != id,
                forall|k: int| 0 <= k < self.emitters@.len() ==> (#[trigger] self.emitters@[k]).id
                    != id,
            decreases self.projectiles@.len() - j,
        {
            if self.projectiles[j].id == id {
                return true;
            }
            j = j + 1;
        }
        false
    }

    /// Removes the entity with the given id, if any. Removing an absent or
    /// already-removed id is a no-op; no other entity is affected. Entities
    /// in this core own no sub-entities, so removing the id alone is already
    /// the recursive removal.
    pub fn despawn(&mut self, id: u64)
        requires
            old(self).wf(),
        ensures
            final(self).next_id == old(self).next_id,
            final(self).emitters@ == spec_remove_emitters(old(self).emitters@, id),
            final(self).projectiles@ == spec_remove_projectiles(old(self).projectiles@, id),
            final(self).wf(),
    {
        let mut kept_e: Vec<EmitterEntity> = Vec::new();
        let mut i: usize = 0;
        while i < self.emitters.len()
            invariant
                i <= old(self).emitters@.len(),
                *self == *old(self),
                kept_e@ == spec_remove_emitters(old(self).emitters@.take(i as int), id),
            decreases old(self).emitters@.len() - i,
        {
            let e = self.emitters[i];
            if e.id != id {
                kept_e.push(e);
            }
            proof {
                assert(old(self).emitters@.take(i + 1).drop_last() =~= old(self).emitters@.take(
                    i as int,
                ));
            }
            i = i + 1;
        }
        let mut kept_p: Vec<Projectile> = Vec::new();
        let mut j: usize = 0;
        while j < self.projectiles.len()
            invariant
                j <= old(self).projectiles@.len(),
                *self == *old(self),
                kept_p@ == spec_remove_projectiles(old(self).projectiles@.take(j as int), id),
            decreases old(self).projectiles@.len() - j,
        {
            let p = self.projectiles[j];
            if p.id != id {
                kept_p.push(p);
            }
            proof {
                assert(old(self).projectiles@.take(j + 1).drop_last()
                    =~= old(self).projectiles@.take(j as int));
            }
            j = j + 1;
        }
        proof {
            assert(old(self).emitters@.take(old(self).emitters@.len() as int)
                =~= old(self).emitters@);
            assert(old(self).projectiles@.take(old(self).projectiles@.len() as int)
                =~= old(self).projectiles@);
            lemma_remove_emitters_props(old(self).emitters@, id, old(self).next_id);
            lemma_remove_projectiles_props(old(self).projectiles@, id, old(self).next_id);
        }
        self.emitters = kept_e;
        self.projectiles = kept_p;
    }
}

/// At most one spawn is requested per emitter per tick, and every requested
/// position lies within the position bound.
pub proof fn lemma_spawn_positions_props(s: Seq<EmitterEntity>, delta: u64)
    ensures
        spec_spawn_positions(s, delta).len() <= s.len(),
        forall|k: int|
            0 <= k < spec_spawn_positions(s, delta).len() ==> (#[trigger] spec_spawn_positions(
                s,
                delta,
            )[k]).in_bounds(),
    decreases s.len(),
{
    if s.len() > 0 {
        lemma_spawn_positions_props(s.drop_last(), delta);
    }
}

/// The survivors of a tick are advanced originals: no more of them than
/// before, each well formed, with distinct ids all drawn from the originals.
pub proof fn lemma_survivors_props(s: Seq<Projectile>, delta: u64, bound: u64)
    requires
        forall|i: int| 0 <= i < s.len() ==> (#[trigger] s[i]).wf(bound),
        forall|i: int, j: int| 0 <= i < j < s.len() ==> s[i].id != s[j].id,
    ensures
        spec_survivors(s, delta).len() <= s.len(),
        forall|k: int|
            0 <= k < spec_survivors(s, delta).len() ==> (#[trigger] spec_survivors(
                s,
                delta,
            )[k]).wf(bound),
        forall|k: int|
            0 <= k < spec_survivors(s, delta).len() ==> spec_has_projectile_id(
                s,
                (#[trigger] spec_survivors(s, delta)[k]).id,
            ),
        forall|k: int, l: int|
            0 <= k < l < spec_survivors(s, delta).len() ==> spec_survivors(s, delta)[k].id
                != spec_survivors(s, delta)[l].id,
    decreases s.len(),
{
    if s.len() > 0 {
        lemma_survivors_props(s.drop_last(), delta, bound);
        let pre = spec_survivors(s.drop_last(), delta);
        assert forall|k: int| 0 <= k < pre.len() implies spec_has_projectile_id(
            s,
            pre[k].id,
        ) && pre[k].id != s.last().id by {
            assert(spec_has_projectile_id(s.drop_last(), pre[k].id));
            let w = choose|i: int|
                0 <= i < s.drop_last().len() && s.drop_last()[i].id == pre[k].id;
            assert(s[w].id == pre[k].id);
        }
    }
}

/// Every entity kept by a removal is one of the originals (same index order
/// is not stated; membership and distinctness are).
pub proof fn lemma_remove_emitters_props(s: Seq<EmitterEntity>, id: u64, bound: u64)
    ensures
        spec_remove_emitters(s, id).len() <= s.len(),
        forall|k: int|
            0 <= k < spec_remove_emitters(s, id).len() ==> spec_has_emitter_id(
                s,
                (#[trigger] spec_remove_emitters(s, id)[k]).id,
            ),
        forall|k: int|
            0 <= k < spec_remove_emitters(s, id).len() ==> exists|i: int|
                0 <= i < s.len() && s[i] == #[trigger] spec_remove_emitters(s, id)[k],
        (forall|i: int| 0 <= i < s.len() ==> (#[trigger] s[i]).wf(bound)) ==> forall|k: int|
            0 <= k < spec_remove_emitters(s, id).len() ==> (#[trigger] spec_remove_emitters(
                s,
                id,
            )[k]).wf(bound),
        (forall|i: int, j: int| 0 <= i < j < s.len() ==> s[i].id != s[j].id) ==> forall|
            k: int,
            l: int,
        |
            0 <= k < l < spec_remove_emitters(s, id).len() ==> spec_remove_emitters(s, id)[k].id
                != spec_remove_emitters(s, id)[l].id,
    decreases s.len(),
{
    if s.len() > 0 {
        lemma_remove_emitters_props(s.drop_last(), id, bound);
        assert forall|k: int|
            0 <= k < spec_remove_emitters(s.drop_last(), id).len() implies spec_has_emitter_id(
            s,
            spec_remove_emitters(s.drop_last(), id)[k].id,
        ) by {
            assert(spec_has_emitter_id(s.drop_last(), spec_remove_emitters(s.drop_last(), id)[k].id));
            let w = choose|i: int|
                0 <= i < s.drop_last().len() && s.drop_last()[i].id == spec_remove_emitters(
                    s.drop_last(),
                    id,
                )[k].id;
            assert(s[w].id == spec_remove_emitters(s.drop_last(), id)[k].id);
        }
    }
}

/// Every projectile kept by a removal is one of the originals.
pub proof fn lemma_remove_projectiles_props(s: Seq<Projectile>, id: u64, bound: u64)
    ensures
        spec_remove_projectiles(s, id).len() <= s.len(),
        forall|k: int|
            0 <= k < spec_remove_projectiles(s, id).len() ==> spec_has_projectile_id(
                s,
                (#[trigger] spec_remove_projectiles(s, id)[k]).id,
            ),
        forall|k: int|
            0 <= k < spec_remove_projectiles(s, id).len() ==> exists|i: int|
                0 <= i < s.len() && s[i] == #[trigger] spec_remove_projectiles(s, id)[k],
        (forall|i: int| 0 <= i < s.len() ==> (#[trigger] s[i]).wf(bound)) ==> forall|k: int|
            0 <= k < spec_remove_projectiles(s, id).len() ==> (#[trigger] spec_remove_projectiles(
                s,
                id,
            )[k]).wf(bound),
        (forall|i: int, j: int| 0 <= i < j < s.len() ==> s[i].id != s[j].id) ==> forall|
            k: int,
            l: int,
        |
            0 <= k < l < spec_remove_projectiles(s, id).len() ==> spec_remove_projectiles(
                s,
                id,
            )[k].id != spec_remove_projectiles(s, id)[l].id,
    decreases s.len(),
{
    if s.len() > 0 {
        lemma_remove_projectiles_props(s.drop_last(), id, bound);
        assert forall|k: int|
            0 <= k < spec_remove_projectiles(s.drop_last(), id).len() implies spec_has_projectile_id(
            s,
            spec_remove_projectiles(s.drop_last(), id)[k].id,
        ) by {
            assert(spec_has_projectile_id(
                s.drop_last(),
                spec_remove_projectiles(s.drop_last(), id)[k].id,
            ));
            let w = choose|i: int|
                0 <= i < s.drop_last().len() && s.drop_last()[i].id == spec_remove_projectiles(
                    s.drop_last(),
                    id,
                )[k].id;
            assert(s[w].id == spec_remove_projectiles(s.drop_last(), id)[k].id);
        }
    }
}

/// Law: removal is idempotent. Removing an id leaves no entity with that id
/// behind, so removing it again changes nothing — and a removal never touches
/// entities with other ids (they are kept, in order, by definition).
pub proof fn lemma_despawn_idempotent(w: World, id: u64)
    ensures
        spec_remove_emitters(spec_remove_emitters(w.emitters@, id), id) == spec_remove_emitters(
            w.emitters@,
            id,
        ),
        spec_remove_projectiles(spec_remove_projectiles(w.projectiles@, id), id)
            == spec_remove_projectiles(w.projectiles@, id),
{
    lemma_remove_emitters_keeps_others(w.emitters@, id);
    lemma_remove_projectiles_keeps_others(w.projectiles@, id);
    lemma_remove_emitters_noop(spec_remove_emitters(w.emitters@, id), id);
    lemma_remove_projectiles_noop(spec_remove_projectiles(w.projectiles@, id), id);
}

/// After a removal, no entity with the removed id remains.
pub proof fn lemma_remove_emitters_keeps_others(s: Seq<EmitterEntity>, id: u64)
    ensures
        forall|k: int|
            0 <= k < spec_remove_emitters(s, id).len() ==> (#[trigger] spec_remove_emitters(
                s,
                id,
            )[k]).id != id,
    decreases s.len(),
{
    if s.len() > 0 {
        lemma_remove_emitters_keeps_others(s.drop_last(), id);
    }
}

/// After a removal, no entity with the removed id remains.
pub proof fn lemma_remove_projectiles_keeps_others(s: Seq<Projectile>, id: u64)
    ensures
        forall|k: int|
            0 <= k < spec_remove_projectiles(s, id).len() ==> (#[trigger] spec_remove_projectiles(
                s,
                id,
            )[k]).id != id,
    decreases s.len(),
{
    if s.len() > 0 {
        lemma_remove_projectiles_keeps_others(s.drop_last(), id);
    }
}

/// Removing an id that no entity carries is a no-op.
pub proof fn lemma_remove_emitters_noop(s: Seq<EmitterEntity>, id: u64)
    requires
        forall|i: int| 0 <= i < s.len() ==> (#[trigger] s[i]).id != id,
    ensures
        spec_remove_emitters(s, id) == s,
    decreases s.len(),
{
    if s.len() == 0 {
        assert(spec_remove_emitters(s, id) =~= s);
    } else {
        lemma_remove_emitters_noop(s.drop_last(), id);
        assert(s.drop_last().push(s.last()) =~= s);
    }
}

/// Removing an id that no entity carries is a no-op.
pub proof fn lemma_remove_projectiles_noop(s: Seq<Projectile>, id: u64)
    requires
        forall|i: int| 0 <= i < s.len() ==> (#[trigger] s[i]).id != id,
    ensures
        spec_remove_projectiles(s, id) == s,
    decreases s.len(),
{
    if s.len() == 0 {
        assert(spec_remove_projectiles(s, id) =~= s);
    } else {
        lemma_remove_projectiles_noop(s.drop_last(), id);
        assert(s.drop_last().push(s.last()) =~= s);
    }
}

} // verus!
