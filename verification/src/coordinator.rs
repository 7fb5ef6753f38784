use vstd::prelude::*;
use std::collections::HashMap;
use crate::error::MapError;
use crate::generator::generation_of;
use crate::generator::Generation;
use crate::map_data::next_version;
use crate::map_data::ChangeObserver;
use crate::map_data::MapData;

verus! {

broadcast use vstd::std_specs::hash::group_hash_axioms;

/// Milliseconds between two ticks of the regeneration schedule.
pub const TICK_INTERVAL_MILLIS: u32 = 100;

/// Where a map entity stands with respect to the asset store.
#[derive(Clone, Copy, Debug, PartialEq, Eq, Structural)]
pub enum Phase {
    /// Nothing was published for the entity yet.
    Unpublished,
    /// The store shows the content of the last regeneration.
    Published,
    /// A change was observed and the store does not show it yet.
    Stale,
}

/// The two places in the asset store that belong to one map entity. They are
/// handed out once, when the entity is created, and never exchanged.
#[derive(Clone, Copy, Debug, PartialEq, Eq, Structural)]
pub struct AssetHandles {
    pub geometry: u64,
    pub material: u64,
}

/// What the asset store says of a publication before anything is written:
/// which handles the entity holds now, and whether each of them still leads to
/// content.
#[derive(Clone, Copy, Debug, PartialEq, Eq, Structural)]
pub struct StoreReply {
    /// The handles that the entity holds.
    pub handles: AssetHandles,
    /// Whether the store has content behind the geometry handle.
    pub geometry_found: bool,
    /// Whether the store has content behind the material handle.
    pub material_found: bool,
}

impl StoreReply {
    /// Whether the store takes a publication for `handles`: the handles are
    /// the entity's own and both lead to content. A publication is taken whole
    /// or not at all.
    pub open spec fn accepts(self, handles: AssetHandles) -> bool {
        self.handles == handles && self.geometry_found && self.material_found
    }

    /// Tells whether the store takes a publication for `handles`.
    pub fn check(&self, handles: AssetHandles) -> (accepted: bool)
        ensures
            accepted == self.accepts(handles),
    {
        self.handles.geometry == handles.geometry && self.handles.material == handles.material
            && self.geometry_found && self.material_found
    }
}

/// What the coordinator remembers of one published map entity.
#[derive(Clone, Copy, Debug, PartialEq, Eq)]
pub struct Tracking {
    /// Where the entity's content lives in the asset store.
    pub handles: AssetHandles,
    /// The last version of the map that a tick has looked at.
    pub observer: ChangeObserver,
    /// Whether the store is behind the map.
    pub stale: bool,
    /// Whether a publication was handed out and its outcome is not known yet.
    pub in_flight: bool,
}

impl Tracking {
    /// A publication is only ever in flight for a stale entity.
    pub open spec fn is_consistent(self) -> bool {
        self.in_flight ==> self.stale
    }

    /// The record of an entity whose first content has just been stored.
    pub open spec fn fresh(handles: AssetHandles) -> Tracking {
        Tracking {
            handles,
            observer: ChangeObserver { seen: None },
            stale: false,
            in_flight: false,
        }
    }

    /// The phase of the entity.
    pub open spec fn spec_phase(&self) -> Phase {
        if self.stale {
            Phase::Stale
        } else {
            Phase::Published
        }
    }

    /// Whether a tick that sees the map at `version` regenerates it: no
    /// publication is in flight, and the entity is stale or the map was
    /// edited since the last tick looked.
    pub open spec fn needs_regeneration(self, version: u64) -> bool {
        !self.in_flight && (self.stale || self.observer.reports(version))
    }

    /// The record after a tick that sees the map at `version`.
    pub open spec fn after_poll(self, version: u64) -> Tracking {
        if self.in_flight {
            self
        } else {
            Tracking {
                handles: self.handles,
                observer: self.observer.after_check(version),
                stale: self.needs_regeneration(version),
                in_flight: self.needs_regeneration(version),
            }
        }
    }

    /// The record after the store has applied (`applied`) or refused the
    /// publication in flight.
    pub open spec fn after_settle(self, applied: bool) -> Tracking {
        if self.in_flight {
            Tracking {
                handles: self.handles,
                observer: self.observer,
                stale: !applied,
                in_flight: false,
            }
        } else {
            self
        }
    }

    /// Starts the record of an entity whose first content has just been
    /// stored under `handles`.
    pub fn new(handles: AssetHandles) -> (t: Tracking)
        ensures
            t == Tracking::fresh(handles),
    {
        Tracking { handles, observer: ChangeObserver::new(), stale: false, in_flight: false }
    }

    /// Reads the phase of the entity.
    #[verifier::when_used_as_spec(spec_phase)]
    pub fn phase(&self) -> (phase: Phase)
        ensures
            phase == self.phase(),
    {
        if self.stale {
            Phase::Stale
        } else {
            Phase::Published
        }
    }

    /// One tick for this entity: looks at `data` and tells whether the entity
    /// is to be regenerated and published now.
    pub fn poll(&mut self, data: &MapData) -> (regenerate: bool)
        ensures
            regenerate == old(self).needs_regeneration(data.version()),
            *final(self) == old(self).after_poll(data.version()),
    {
        if self.in_flight {
            return false;
        }
        let changed: bool = self.observer.check(data);
        let regenerate: bool = self.stale || changed;
        self.stale = regenerate;
        self.in_flight = regenerate;
        regenerate
    }

    /// Records the outcome of the publication in flight. A refused
    /// publication is reported as an error and leaves the entity stale.
    pub fn settle(&mut self, applied: bool) -> (r: Result<(), MapError>)
        ensures
            *final(self) == old(self).after_settle(applied),
            r.is_err() <==> old(self).in_flight && !applied,
            r.is_err() ==> r == Err::<(), MapError>(MapError::PublishFailure),
    {
        if !self.in_flight {
            return Ok(());
        }
        self.in_flight = false;
        self.stale = !applied;
        if applied {
            Ok(())
        } else {
            Err(MapError::PublishFailure)
        }
    }
}

/// The phase that `tracking` gives to `entity`: unpublished while the entity
/// is not tracked.
pub open spec fn phase_in(tracking: Map<u64, Tracking>, entity: u64) -> Phase {
    if tracking.contains_key(entity) {
        tracking[entity].phase()
    } else {
        Phase::Unpublished
    }
}

/// Every record in `records` is consistent.
pub open spec fn all_consistent(records: Map<u64, Tracking>) -> bool {
    forall|entity: u64| #[trigger]
        records.contains_key(entity) ==> records[entity].is_consistent()
}

/// The count after one more regeneration; it stops at the end of `u64`.
pub open spec fn counted(count: u64) -> u64 {
    if count == u64::MAX {
        count
    } else {
        (count + 1) as u64
    }
}

/// One logical update of the asset store: the surface and the material of one
/// generation, and the two handles whose content they replace. Both are to be
/// stored, or neither.
#[derive(Debug, PartialEq, Eq)]
pub struct Publication {
    /// The map entity that the update is for.
    pub entity: u64,
    /// The handles that were stored when the entity was created.
    pub handles: AssetHandles,
    /// The content for both handles.
    pub generation: Generation,
}

/// Decides, tick by tick, which map entities are regenerated, and keeps what
/// is known of each.
#[derive(Debug)]
pub struct Coordinator {
    maps: HashMap<u64, Tracking>,
    regenerations: u64,
}

impl Coordinator {
    /// The records of all published entities, by entity.
    pub closed spec fn tracking(&self) -> Map<u64, Tracking> {
        self.maps@
    }

    /// Every record is consistent. This holds of a new coordinator, and every
    /// operation keeps it.
    pub open spec fn is_consistent(&self) -> bool {
        all_consistent(self.tracking())
    }

    /// How often the generator has run on behalf of a tick.
    pub closed spec fn spec_regenerations(&self) -> u64 {
        self.regenerations
    }

    /// A coordinator that tracks no entity.
    pub fn new() -> (c: Coordinator)
        ensures
            c.tracking() == Map::<u64, Tracking>::empty(),
            c.regenerations() == 0,
            c.is_consistent(),
    {
        Coordinator { maps: HashMap::new(), regenerations: 0 }
    }

    /// Reads how often the generator has run on behalf of a tick.
    #[verifier::when_used_as_spec(spec_regenerations)]
    pub fn regenerations(&self) -> (count: u64)
        ensures
            count == self.regenerations(),
    {
        self.regenerations
    }

    /// Reads the record of `entity`, if it is tracked.
    pub fn lookup(&self, entity: u64) -> (t: Option<Tracking>)
        ensures
            t is Some <==> self.tracking().contains_key(entity),
            t is Some ==> t->0 == self.tracking()[entity],
    {
        match self.maps.get(&entity) {
            Some(t) => Some(*t),
            None => None,
        }
    }

    /// Reads the phase of `entity`.
    pub fn phase_of(&self, entity: u64) -> (phase: Phase)
        ensures
            phase == phase_in(self.tracking(), entity),
    {
        match self.lookup(entity) {
            Some(t) => t.phase(),
            None => Phase::Unpublished,
        }
    }

    /// Reads the handles of `entity`, if it is tracked.
    pub fn handles_of(&self, entity: u64) -> (handles: Option<AssetHandles>)
        ensures
            handles is Some <==> self.tracking().contains_key(entity),
            handles is Some ==> handles->0 == self.tracking()[entity].handles,
    {
        match self.lookup(entity) {
            Some(t) => Some(t.handles),
            None => None,
        }
    }

    /// Takes note that the first content of `entity` was stored under
    /// `handles`: the entity is published from now on. Returns whether the
    /// entity was new; one that is tracked already keeps its record and its
    /// handles.
    pub fn attach(&mut self, entity: u64, handles: AssetHandles) -> (attached: bool)
        ensures
            attached == !old(self).tracking().contains_key(entity),
            attached ==> final(self).tracking() == old(self).tracking().insert(
                entity,
                Tracking::fresh(handles),
            ),
            !attached ==> final(self).tracking() == old(self).tracking(),
            final(self).regenerations() == old(self).regenerations(),
            old(self).is_consistent() ==> final(self).is_consistent(),
    {
        if self.maps.contains_key(&entity) {
            false
        } else {
            self.maps.insert(entity, Tracking::new(handles));
            proof {
                if old(self).is_consistent() {
                    lemma_insert_keeps_consistent(
                        old(self).tracking(),
                        entity,
                        Tracking::fresh(handles),
                    );
                }
            }
            true
        }
    }

    /// One tick for `entity`, whose map is `data`.
    ///
    /// Where the entity is tracked, has no publication in flight, and is
    /// stale or was edited since the last tick looked, the generator runs
    /// once and its result is returned for the store; the entity is stale
    /// until `settle` reports that the store took it. In every other case the
    /// generator does not run and nothing is returned.
    pub fn poll(&mut self, entity: u64, data: &MapData) -> (publication: Option<Publication>)
        ensures
            final(self).tracking() == (if old(self).tracking().contains_key(entity) {
                old(self).tracking().insert(
                    entity,
                    old(self).tracking()[entity].after_poll(data.version()),
                )
            } else {
                old(self).tracking()
            }),
            publication is Some <==> old(self).tracking().contains_key(entity) && old(
                self,
            ).tracking()[entity].needs_regeneration(data.version()),
            publication is Some ==> {
                &&& publication->0.entity == entity
                &&& publication->0.handles == old(self).tracking()[entity].handles
                &&& publication->0.generation@ == generation_of(data.params())
                &&& publication->0.generation@.is_consistent()
            },
            final(self).regenerations() == (if publication is Some {
                counted(old(self).regenerations())
            } else {
                old(self).regenerations()
            }),
            old(self).is_consistent() ==> final(self).is_consistent(),
    {
        match self.lookup(entity) {
            None => None,
            Some(found) => {
                let mut tracking: Tracking = found;
                let regenerate: bool = tracking.poll(data);
                self.maps.insert(entity, tracking);
                proof {
                    if old(self).is_consistent() {
                        lemma_insert_keeps_consistent(old(self).tracking(), entity, tracking);
                    }
                }
                if regenerate {
                    self.regenerations = self.regenerations.saturating_add(1);
                    let generation: Generation = data.generate();
                    Some(Publication { entity, handles: tracking.handles, generation })
                } else {
                    None
                }
            },
        }
    }

    /// Records what the store said of the publication that `poll` handed out
    /// for `entity`.
    ///
    /// Where the store takes the publication, the entity becomes published and
    /// its content is to be written behind both handles. Where it does not,
    /// nothing is to be written; this is reported as an error and leaves the
    /// entity stale, so that the next tick regenerates it. Without a
    /// publication in flight nothing changes. Returns the phase that the
    /// entity is in afterwards.
    pub fn settle(&mut self, entity: u64, reply: StoreReply) -> (r: Result<Phase, MapError>)
        ensures
            final(self).tracking() == (if old(self).tracking().contains_key(entity) {
                old(self).tracking().insert(
                    entity,
                    old(self).tracking()[entity].after_settle(
                        reply.accepts(old(self).tracking()[entity].handles),
                    ),
                )
            } else {
                old(self).tracking()
            }),
            final(self).regenerations() == old(self).regenerations(),
            r.is_err() <==> old(self).tracking().contains_key(entity) && old(
                self,
            ).tracking()[entity].in_flight && !reply.accepts(
                old(self).tracking()[entity].handles,
            ),
            match r {
                Ok(phase) => phase == phase_in(final(self).tracking(), entity),
                Err(e) => e == MapError::PublishFailure,
            },
            old(self).is_consistent() ==> final(self).is_consistent(),
    {
        match self.lookup(entity) {
            None => Ok(Phase::Unpublished),
            Some(found) => {
                let mut tracking: Tracking = found;
                let applied: bool = reply.check(tracking.handles);
                let outcome: Result<(), MapError> = tracking.settle(applied);
                self.maps.insert(entity, tracking);
                proof {
                    if old(self).is_consistent() {
                        lemma_insert_keeps_consistent(old(self).tracking(), entity, tracking);
                    }
                }
                match outcome {
                    Ok(()) => Ok(tracking.phase()),
                    Err(e) => Err(e),
                }
            },
        }
    }
}

/// Consistent records stay consistent when a consistent record is put in.
proof fn lemma_insert_keeps_consistent(records: Map<u64, Tracking>, entity: u64, t: Tracking)
    requires
        all_consistent(records),
        t.is_consistent(),
    ensures
        all_consistent(records.insert(entity, t)),
{
    assert forall|e: u64| #[trigger]
        records.insert(entity, t).contains_key(e) implies records.insert(
        entity,
        t,
    )[e].is_consistent() by {
        if e != entity {
            assert(records.contains_key(e));
        }
    }
}

/// Every step keeps a record consistent and keeps its handles.
pub proof fn lemma_steps_preserve(t: Tracking, handles: AssetHandles, version: u64, applied: bool)
    requires
        t.is_consistent(),
    ensures
        Tracking::fresh(handles).is_consistent(),
        Tracking::fresh(handles).phase() == Phase::Published,
        t.after_poll(version).is_consistent(),
        t.after_settle(applied).is_consistent(),
        t.after_poll(version).handles == t.handles,
        t.after_settle(applied).handles == t.handles,
{
}

/// A tick does nothing for a map that was not edited since the last tick:
/// once a tick has run and the store has applied what it handed out, a
/// further tick at the same version does not regenerate and leaves the record
/// as it is.
pub proof fn lemma_idle_without_edit(t: Tracking, version: u64)
    requires
        !t.in_flight,
    ensures
        !t.after_poll(version).after_settle(true).needs_regeneration(version),
        t.after_poll(version).after_settle(true).after_poll(version) == t.after_poll(
            version,
        ).after_settle(true),
        t.after_poll(version).after_settle(true).phase() == Phase::Published,
{
}

/// The first tick after an entity was attached regenerates it, whatever the
/// version of its map.
pub proof fn lemma_first_tick_regenerates(handles: AssetHandles, version: u64)
    ensures
        Tracking::fresh(handles).needs_regeneration(version),
{
}

/// An accepted edit of a published map makes the next tick regenerate it,
/// and the tick leaves the entity stale until the store has taken the result.
pub proof fn lemma_edit_triggers_regeneration(t: Tracking, version: u64)
    requires
        !t.in_flight,
    ensures
        t.after_poll(version).after_settle(true).needs_regeneration(next_version(version)),
        t.after_poll(version).after_settle(true).after_poll(next_version(version)).phase()
            == Phase::Stale,
        t.after_poll(version).after_settle(true).after_poll(next_version(version)).after_settle(
            true,
        ).phase() == Phase::Published,
{
}

/// A refused publication leaves the entity stale, and the next tick
/// regenerates it whether or not the map was edited again.
pub proof fn lemma_refusal_is_retried(t: Tracking, version: u64, later: u64)
    requires
        t.needs_regeneration(version),
    ensures
        t.after_poll(version).in_flight,
        t.after_poll(version).after_settle(false).phase() == Phase::Stale,
        t.after_poll(version).after_settle(false).needs_regeneration(later),
{
}

/// While a publication is in flight a tick neither regenerates nor looks at
/// the map, so an edit made meanwhile is picked up by a later tick.
pub proof fn lemma_in_flight_coalesces(t: Tracking, version: u64, later: u64)
    requires
        t.needs_regeneration(version),
        later != version,
    ensures
        !t.after_poll(version).needs_regeneration(later),
        t.after_poll(version).after_poll(later) == t.after_poll(version),
        t.after_poll(version).after_settle(true).needs_regeneration(later),
{
}

/// A publication is taken whole or not at all: an entity leaves a publication
/// in flight as published only where the store had content behind both of the
/// entity's own handles.
pub proof fn lemma_published_whole(t: Tracking, reply: StoreReply)
    requires
        t.in_flight,
    ensures
        t.after_settle(reply.accepts(t.handles)).phase() == Phase::Published <==> reply.handles
            == t.handles && reply.geometry_found && reply.material_found,
        t.after_settle(reply.accepts(t.handles)).phase() == Phase::Stale <==> !(reply.handles
            == t.handles && reply.geometry_found && reply.material_found),
{
}

/// One thing that can happen to a record.
pub ghost enum Step {
    /// A tick that sees the map at the given version.
    Poll(u64),
    /// The store's answer to the publication in flight: applied or refused.
    Settle(bool),
}

/// The record after `step`.
pub open spec fn stepped(t: Tracking, step: Step) -> Tracking {
    match step {
        Step::Poll(version) => t.after_poll(version),
        Step::Settle(applied) => t.after_settle(applied),
    }
}

/// The record after all of `steps`, in order.
pub open spec fn run(t: Tracking, steps: Seq<Step>) -> Tracking
    decreases steps.len(),
{
    if steps.len() == 0 {
        t
    } else {
        stepped(run(t, steps.drop_last()), steps.last())
    }
}

/// Whatever happens to an entity after it was attached, in whatever order, its
/// record stays consistent and its handles stay the ones it was attached
/// with.
pub proof fn lemma_handles_are_stable(handles: AssetHandles, steps: Seq<Step>)
    ensures
        run(Tracking::fresh(handles), steps).is_consistent(),
        run(Tracking::fresh(handles), steps).handles == handles,
    decreases steps.len(),
{
    if steps.len() > 0 {
        lemma_handles_are_stable(handles, steps.drop_last());
    }
}

} // verus!
