//! The simulation: the entity store together with the phase of the game and
//! the explosion timer, and the systems that run on it once a tick.
//!
//! A tick runs four systems in a fixed order: the ship's controls and the
//! drift of everything that moves, the wrap at the arena's edges, the
//! collisions, and the countdown from the explosion to the menu.

use crate::angle::{steer, steered};
use crate::arena::Viewport;
use crate::chance::Drift;
use crate::entity::{Entity, EntityId, Role};
use crate::motion::Controls;
use crate::store::EntityStore;
use crate::timer::{OnceTimer, EXPLOSION_NANOS};
use crate::vector::Vec2;
use vstd::prelude::*;

verus! {

/// The coarse state of the game.
#[derive(Clone, Copy, Debug, PartialEq, Eq, Hash, Structural)]
pub enum Phase {
    Splash,
    Menu,
    Gameplay,
}

/// What the simulation is, as mathematics: the live entities by handle, every
/// handle ever given out, the phase, the ship if there is one, and the
/// explosion timer if it runs.
pub struct SimState {
    pub entities: Map<EntityId, Entity>,
    pub issued: Set<EntityId>,
    pub phase: Phase,
    pub player: Option<EntityId>,
    pub timer: Option<OnceTimer>,
}

/// What a tick is given: the keys held, the unit vector along which the ship
/// faces once this tick's turn is made, the time since the last tick in
/// nanoseconds, and the size of the arena if there is one.
#[derive(Clone, Copy, Debug, PartialEq, Eq)]
pub struct TickInput {
    pub controls: Controls,
    pub forward: Vec2,
    pub elapsed: u64,
    pub viewport: Option<Viewport>,
}

/// What a tick reports: the explosion that a collision left behind, and
/// whether the game went back to the menu.
#[derive(Clone, Copy, Debug, PartialEq, Eq)]
pub struct TickReport {
    pub explosion: Option<EntityId>,
    pub to_menu: bool,
}

/// The handles of a freshly spawned level.
#[derive(Clone, Copy, Debug, PartialEq, Eq)]
pub struct Level {
    pub player: EntityId,
    pub thrust_indicator: EntityId,
    pub asteroids: [EntityId; 4],
}

/// How far from the centre the asteroids start, sideways: three hundred
/// units.
pub const SPAWN_X: i32 = 300_000;

/// How far from the centre the asteroids start, up or down: two hundred
/// units.
pub const SPAWN_Y: i32 = 200_000;

/// Where the asteroid number `k` of a wave starts: one in each quadrant, the
/// two on the left first, of each side the upper one first.
pub open spec fn quadrant(k: int) -> Vec2 {
    Vec2 {
        x: if k < 2 {
            (-SPAWN_X) as i32
        } else {
            SPAWN_X
        },
        y: if k % 2 == 0 {
            SPAWN_Y
        } else {
            (-SPAWN_Y) as i32
        },
    }
}

impl Level {
    /// The six handles of the level: the ship, its flame, the four asteroids.
    pub open spec fn handles(self) -> Seq<EntityId> {
        seq![
            self.player,
            self.thrust_indicator,
            self.asteroids[0],
            self.asteroids[1],
            self.asteroids[2],
            self.asteroids[3],
        ]
    }

    /// Whether the level's handles are six different ones, none of which was
    /// given out before.
    pub open spec fn fresh_for(self, issued: Set<EntityId>) -> bool {
        &&& self.handles().no_duplicates()
        &&& forall|k: int| 0 <= k < 6 ==> !issued.contains(#[trigger] self.handles()[k])
    }

    /// The entities of the level, by handle.
    pub open spec fn entities(self, wave: [Drift; 4]) -> Map<EntityId, Entity> {
        Map::<EntityId, Entity>::empty().insert(self.player, Entity::spec_player()).insert(
            self.thrust_indicator,
            Entity::spec_thrust_indicator(self.player),
        ).insert(
            self.asteroids[0],
            Entity::spec_asteroid(quadrant(0), wave[0].velocity, wave[0].spin),
        ).insert(
            self.asteroids[1],
            Entity::spec_asteroid(quadrant(1), wave[1].velocity, wave[1].spin),
        ).insert(
            self.asteroids[2],
            Entity::spec_asteroid(quadrant(2), wave[2].velocity, wave[2].spin),
        ).insert(
            self.asteroids[3],
            Entity::spec_asteroid(quadrant(3), wave[3].velocity, wave[3].spin),
        )
    }
}

/// The simulation context that every system works on.
pub struct Simulation {
    store: EntityStore,
    phase: Phase,
    player: Option<EntityId>,
    timer: Option<OnceTimer>,
}

/// One sweep over all entities: what it does to each.
enum Pass {
    Control { player: EntityId, controls: Controls, forward: Vec2, elapsed: u64 },
    Slide,
    Wrap { viewport: Option<Viewport> },
}

impl Pass {
    /// Whether the pass can run on the state `s`: the controls are for the
    /// ship of that state.
    spec fn fits(self, s: SimState) -> bool {
        self matches Pass::Control { player, .. } ==> s.player == Some(player)
    }

    /// The entity `e` with the handle `id` after the pass.
    spec fn applied(self, id: EntityId, e: Entity) -> Entity {
        match self {
            Pass::Control { player, controls, forward, elapsed } => SimState::controlled_one(
                player,
                controls,
                forward,
                elapsed,
                id,
                e,
            ),
            Pass::Slide => e.slid(),
            Pass::Wrap { viewport } => e.wrapped(viewport),
        }
    }

    /// A pass keeps an entity well-formed and leaves its role, its parent, its
    /// radius and the presence of a velocity alone.
    proof fn lemma_applied(self, id: EntityId, e: Entity)
        requires
            e.wf(),
        ensures
            self.applied(id, e).wf(),
            self.applied(id, e).role == e.role,
            self.applied(id, e).parent == e.parent,
            self.applied(id, e).radius == e.radius,
            self.applied(id, e).velocity is Some <==> e.velocity is Some,
    {
    }

    fn apply(&self, id: EntityId, e: &Entity) -> (r: Entity)
        requires
            e.wf(),
        ensures
            r == self.applied(id, *e),
            r.wf(),
            r.role == e.role,
            r.parent == e.parent,
            r.radius == e.radius,
            r.velocity is Some <==> e.velocity is Some,
    {
        match self {
            Pass::Control { player, controls, forward, elapsed } => {
                if id.index == player.index && id.generation == player.generation {
                    e.steer(controls, *forward, *elapsed)
                } else if e.has_parent(*player) {
                    e.show(controls.thrust)
                } else {
                    *e
                }
            },
            Pass::Slide => e.slide(),
            Pass::Wrap { viewport } => e.wrap(*viewport),
        }
    }
}

impl SimState {
    /// The state's invariant.
    pub open spec fn wf(self) -> bool {
        &&& forall|id: EntityId| #[trigger]
            self.entities.contains_key(id) ==> {
                &&& self.entities[id].wf()
                &&& self.issued.contains(id)
                &&& self.entities[id].role == Role::Player <==> self.player == Some(id)
            }
        &&& self.player matches Some(p) ==> self.entities.contains_key(p)
            && self.entities[p].velocity is Some
        &&& self.phase == Phase::Gameplay ==> (self.player is None <==> self.timer is Some)
        &&& self.phase != Phase::Gameplay ==> {
            &&& self.entities == Map::<EntityId, Entity>::empty()
            &&& self.player is None
            &&& self.timer is None
        }
    }

    /// Whether the ship was destroyed and the explosion is still showing.
    pub open spec fn exploding(self) -> bool {
        self.timer is Some
    }

    /// What the controls of one tick do to the entity `e` with the handle
    /// `id`, where `player` is the ship: the ship is steered, the ship's
    /// children show while the thrust key is held, and nothing else changes.
    pub open spec fn controlled_one(
        player: EntityId,
        controls: Controls,
        forward: Vec2,
        elapsed: u64,
        id: EntityId,
        e: Entity,
    ) -> Entity {
        if id == player {
            e.steered(controls, forward, elapsed)
        } else if e.is_child_of(player) {
            e.shown(controls.thrust)
        } else {
            e
        }
    }

    /// The state after the controls of one tick. Without a ship nothing
    /// changes.
    pub open spec fn controlled(self, controls: Controls, forward: Vec2, elapsed: u64) -> SimState {
        match self.player {
            Some(p) => SimState {
                entities: Map::new(
                    |id: EntityId| self.entities.contains_key(id),
                    |id: EntityId|
                        SimState::controlled_one(p, controls, forward, elapsed, id, self.entities[id]),
                ),
                ..self
            },
            None => self,
        }
    }

    /// The state after every entity has drifted for one tick.
    pub open spec fn slid(self) -> SimState {
        SimState {
            entities: Map::new(
                |id: EntityId| self.entities.contains_key(id),
                |id: EntityId| self.entities[id].slid(),
            ),
            ..self
        }
    }

    /// The state after every entity that wraps has been brought back into the
    /// arena. Without a viewport nothing changes.
    pub open spec fn wrapped(self, viewport: Option<Viewport>) -> SimState {
        SimState {
            entities: Map::new(
                |id: EntityId| self.entities.contains_key(id),
                |id: EntityId| self.entities[id].wrapped(viewport),
            ),
            ..self
        }
    }

    /// Whether `id` is an asteroid whose circle overlaps the ship's.
    pub open spec fn hits(self, id: EntityId) -> bool {
        &&& self.player matches Some(p)
        &&& self.entities.contains_key(id)
        &&& self.entities[id].role == Role::Asteroid
        &&& self.entities[p].touches(self.entities[id])
    }

    /// Whether any asteroid overlaps the ship.
    pub open spec fn struck(self) -> bool {
        exists|id: EntityId| self.hits(id)
    }

    /// Whether a collision destroys the entity `id`: the ship, the ship's
    /// children, and every asteroid that overlaps the ship.
    pub open spec fn condemns(self, id: EntityId) -> bool {
        &&& self.player matches Some(p)
        &&& self.entities.contains_key(id)
        &&& (id == p || self.entities[id].is_child_of(p) || self.hits(id))
    }

    /// Everything that a collision destroys.
    pub open spec fn doomed(self) -> Set<EntityId> {
        Set::new(|id: EntityId| self.condemns(id))
    }

    /// The state after the collisions. Where an asteroid overlaps the ship,
    /// all that is doomed goes, an explosion with the new handle `effect`
    /// takes the ship's place, and the explosion timer starts. Otherwise
    /// nothing changes.
    pub open spec fn collided(self, effect: Option<EntityId>) -> SimState {
        match (self.player, effect) {
            (Some(p), Some(x)) if self.struck() => SimState {
                entities: self.entities.remove_keys(self.doomed()).insert(
                    x,
                    Entity::spec_explosion(self.entities[p]),
                ),
                issued: self.issued.insert(x),
                phase: self.phase,
                player: None,
                timer: Some(OnceTimer::spec_start(EXPLOSION_NANOS)),
            },
            _ => self,
        }
    }

    /// The state after leaving the game for the menu: no entity is left, and
    /// no timer.
    pub open spec fn left(self) -> SimState {
        SimState {
            entities: Map::empty(),
            issued: self.issued,
            phase: Phase::Menu,
            player: None,
            timer: None,
        }
    }

    /// Whether the explosion timer fires on a tick of `elapsed` nanoseconds.
    pub open spec fn expires(self, elapsed: u64) -> bool {
        self.timer matches Some(t) && t.fires(elapsed)
    }

    /// The state after the countdown: a running timer advances, and when it
    /// fires the game leaves for the menu. Without a timer nothing changes.
    pub open spec fn cooled(self, elapsed: u64) -> SimState {
        match self.timer {
            Some(t) => if t.fires(elapsed) {
                self.left()
            } else {
                SimState { timer: t.ticked(elapsed), ..self }
            },
            None => self,
        }
    }

    /// The state after the first three systems of a tick: controls and drift,
    /// then the wrap.
    pub open spec fn moved(self, input: TickInput) -> SimState {
        self.controlled(input.controls, input.forward, input.elapsed).slid().wrapped(
            input.viewport,
        )
    }

    /// The state after a whole tick: movement, collisions, countdown, in this
    /// order. `effect` is the handle of the explosion, if the ship was hit.
    pub open spec fn ticked(self, input: TickInput, effect: Option<EntityId>) -> SimState {
        self.moved(input).collided(effect).cooled(input.elapsed)
    }

    /// The state after a level was spawned: nothing but the level's entities,
    /// the game running, the ship alive.
    pub open spec fn launched(self, level: Level, wave: [Drift; 4]) -> SimState {
        SimState {
            entities: level.entities(wave),
            issued: self.issued.insert(level.player).insert(level.thrust_indicator).insert(
                level.asteroids[0],
            ).insert(level.asteroids[1]).insert(level.asteroids[2]).insert(level.asteroids[3]),
            phase: Phase::Gameplay,
            player: Some(level.player),
            timer: None,
        }
    }

    /// The handles of the entities with the given role.
    pub open spec fn census(self, role: Role) -> Set<EntityId> {
        Set::new(|id: EntityId| self.entities.contains_key(id) && self.entities[id].role == role)
    }

    /// The state after a pass over all entities.
    spec fn swept(self, pass: Pass) -> SimState {
        SimState {
            entities: Map::new(
                |id: EntityId| self.entities.contains_key(id),
                |id: EntityId| pass.applied(id, self.entities[id]),
            ),
            ..self
        }
    }
}

impl View for Simulation {
    type V = SimState;

    closed spec fn view(&self) -> SimState {
        SimState {
            entities: self.store@,
            issued: self.store.issued(),
            phase: self.phase,
            player: self.player,
            timer: self.timer,
        }
    }
}

impl Simulation {
    /// The invariant of the parts that the view does not show.
    pub closed spec fn inv(&self) -> bool {
        self.store.wf()
    }

    /// The simulation's invariant.
    pub open spec fn wf(&self) -> bool {
        &&& self.inv()
        &&& self@.wf()
    }

    /// A simulation that shows the splash screen and holds no entity.
    pub fn new() -> (sim: Simulation)
        ensures
            sim.wf(),
            sim@.phase == Phase::Splash,
            sim@.entities == Map::<EntityId, Entity>::empty(),
            sim@.issued == Set::<EntityId>::empty(),
            sim@.player is None,
            sim@.timer is None,
    {
        Simulation { store: EntityStore::new(), phase: Phase::Splash, player: None, timer: None }
    }

    /// Runs one pass over all entities.
    fn sweep(&mut self, pass: &Pass)
        requires
            old(self).wf(),
            pass.fits(old(self)@),
        ensures
            final(self).wf(),
            final(self)@ == old(self)@.swept(*pass),
    {
        let n: usize = self.store.slot_count();
        let mut i: usize = 0;
        while i < n
            invariant
                i <= n,
                n == self.store.spec_slot_count(),
                self.store.wf(),
                self.phase == old(self).phase,
                self.player == old(self).player,
                self.timer == old(self).timer,
                self.store.issued() == old(self).store.issued(),
                old(self)@.wf(),
                pass.fits(old(self)@),
                forall|id: EntityId|
                    self.store@.contains_key(id) <==> old(self).store@.contains_key(id),
                forall|id: EntityId| #[trigger]
                    old(self).store@.contains_key(id) ==> self.store@[id] == if id.index < i {
                        pass.applied(id, old(self).store@[id])
                    } else {
                        old(self).store@[id]
                    },
            decreases n - i,
        {
            let ghost before = self.store;
            match self.store.id_at(i) {
                Some(id) => {
                    proof {
                        before.lemma_slot_is_live(i as int);
                    }
                    match self.store.get(id) {
                        Some(e) => {
                            let r = pass.apply(id, &e);
                            let _ = self.store.replace(id, r);
                        },
                        None => {},
                    }
                },
                None => {},
            }
            assert forall|id: EntityId| #[trigger]
                old(self).store@.contains_key(id) implies self.store@[id] == if id.index < i + 1 {
                pass.applied(id, old(self).store@[id])
            } else {
                old(self).store@[id]
            } by {
                before.lemma_live_in_slot(id);
            }
            i += 1;
        }
        proof {
            let ghost now = self.store;
            assert forall|id: EntityId| #[trigger] self.store@.contains_key(id) implies id.index
                < n by {
                now.lemma_live_in_slot(id);
            }
            assert(self@.entities =~= old(self)@.swept(*pass).entities);
            assert forall|id: EntityId| #[trigger] self@.entities.contains_key(id) implies {
                &&& self@.entities[id].wf()
                &&& self@.issued.contains(id)
                &&& self@.entities[id].role == Role::Player <==> self@.player == Some(id)
            } by {
                pass.lemma_applied(id, old(self)@.entities[id]);
            }
            if let Some(p) = self.player {
                pass.lemma_applied(p, old(self)@.entities[p]);
            }
            if self.phase != Phase::Gameplay {
                assert(self@.entities =~= Map::<EntityId, Entity>::empty());
            }
        }
    }

    /// The ship's controls: turns the ship by the turning keys, pushes it
    /// along `forward` while the thrust key is held, never beyond the greatest
    /// speed, and shows the ship's thrust flame exactly while that key is
    /// held. `forward` is the unit vector along which the ship faces after
    /// this tick's turn, one unit long. Without a ship nothing happens.
    pub fn control_player(&mut self, controls: &Controls, forward: Vec2, elapsed: u64)
        requires
            old(self).wf(),
        ensures
            final(self).wf(),
            final(self)@ == old(self)@.controlled(*controls, forward, elapsed),
    {
        match self.player {
            Some(player) => {
                let pass = Pass::Control { player, controls: *controls, forward, elapsed };
                self.sweep(&pass);
                assert(self@.entities =~= old(self)@.controlled(
                    *controls,
                    forward,
                    elapsed,
                ).entities);
            },
            None => {},
        }
    }

    /// The drift: moves every entity that has a velocity by that velocity.
    pub fn slide(&mut self)
        requires
            old(self).wf(),
        ensures
            final(self).wf(),
            final(self)@ == old(self)@.slid(),
    {
        self.sweep(&Pass::Slide);
        assert(self@.entities =~= old(self)@.slid().entities);
    }

    /// The wrap: brings every entity that wraps and has left the arena back
    /// in on the opposite edge. Without a viewport nothing happens.
    pub fn wrap_around(&mut self, viewport: Option<Viewport>)
        requires
            old(self).wf(),
        ensures
            final(self).wf(),
            final(self)@ == old(self)@.wrapped(viewport),
    {
        self.sweep(&Pass::Wrap { viewport });
        assert(self@.entities =~= old(self)@.wrapped(viewport).entities);
    }

    /// Whether any asteroid overlaps the ship `ship`.
    fn any_hit(&self, ship: &Entity) -> (hit: bool)
        requires
            self.wf(),
            self@.player matches Some(p) && *ship == self@.entities[p],
        ensures
            hit == self@.struck(),
    {
        let n: usize = self.store.slot_count();
        let mut i: usize = 0;
        while i < n
            invariant
                i <= n,
                n == self.store.spec_slot_count(),
                self@.player matches Some(p) && *ship == self@.entities[p],
                forall|id: EntityId| id.index < i ==> !self@.hits(id),
            decreases n - i,
        {
            match self.store.id_at(i) {
                Some(id) => {
                    proof {
                        self.store.lemma_slot_is_live(i as int);
                    }
                    match self.store.get(id) {
                        Some(e) => {
                            let asteroid: bool = match e.role {
                                Role::Asteroid => true,
                                _ => false,
                            };
                            if asteroid && ship.collides_with(&e) {
                                assert(self@.hits(id));
                                return true;
                            }
                        },
                        None => {},
                    }
                },
                None => {},
            }
            assert forall|id: EntityId| id.index < i + 1 implies !self@.hits(id) by {
                if self@.entities.contains_key(id) {
                    self.store.lemma_live_in_slot(id);
                }
            }
            i += 1;
        }
        assert forall|id: EntityId| !self@.hits(id) by {
            if self@.entities.contains_key(id) {
                self.store.lemma_live_in_slot(id);
            }
        }
        false
    }

    /// Destroys the ship `player`, its children, and every asteroid that
    /// overlaps it.
    fn remove_doomed(&mut self, player: EntityId, ship: &Entity)
        requires
            old(self).wf(),
            old(self)@.player == Some(player),
            *ship == old(self)@.entities[player],
        ensures
            final(self).store.wf(),
            final(self).store.issued() == old(self).store.issued(),
            final(self).store@ == old(self).store@.remove_keys(old(self)@.doomed()),
            final(self).phase == old(self).phase,
            final(self).player == old(self).player,
            final(self).timer == old(self).timer,
    {
        let n: usize = self.store.slot_count();
        let mut i: usize = 0;
        while i < n
            invariant
                i <= n,
                n == self.store.spec_slot_count(),
                self.store.wf(),
                self.store.issued() == old(self).store.issued(),
                self.phase == old(self).phase,
                self.player == old(self).player,
                self.timer == old(self).timer,
                n == old(self).store.spec_slot_count(),
                old(self)@.wf(),
                old(self)@.player == Some(player),
                *ship == old(self)@.entities[player],
                forall|id: EntityId|
                    #![trigger self.store@.contains_key(id)]
                    #![trigger old(self).store@.contains_key(id)]
                    self.store@.contains_key(id) <==> old(self).store@.contains_key(id) && !(
                    id.index < i && old(self)@.condemns(id)),
                forall|id: EntityId| #[trigger]
                    self.store@.contains_key(id) ==> self.store@[id] == old(self).store@[id],
            decreases n - i,
        {
            let ghost before = self.store;
            let ghost first = old(self).store;
            match self.store.id_at(i) {
                Some(id) => {
                    proof {
                        before.lemma_slot_is_live(i as int);
                    }
                    match self.store.get(id) {
                        Some(e) => {
                            let own: bool = id.index == player.index && id.generation
                                == player.generation;
                            let asteroid: bool = match e.role {
                                Role::Asteroid => true,
                                _ => false,
                            };
                            if own || e.has_parent(player) || (asteroid && ship.collides_with(&e)) {
                                let _ = self.store.despawn(id);
                            }
                        },
                        None => {},
                    }
                },
                None => {},
            }
            assert forall|id: EntityId|
                self.store@.contains_key(id) <==> old(self).store@.contains_key(id) && !(id.index
                    < i + 1 && old(self)@.condemns(id)) by {
                if first@.contains_key(id) {
                    first.lemma_live_in_slot(id);
                }
                if before@.contains_key(id) {
                    before.lemma_live_in_slot(id);
                }
            }
            i += 1;
        }
        proof {
            let ghost first = old(self).store;
            assert forall|id: EntityId| #[trigger] first@.contains_key(id) implies id.index
                < n by {
                first.lemma_live_in_slot(id);
            }
            assert(self.store@ =~= old(self).store@.remove_keys(old(self)@.doomed()));
        }
    }

    /// The collisions: where an asteroid's circle overlaps the ship's, the
    /// ship, its children and every such asteroid are destroyed, an explosion
    /// is left in the ship's place, and the explosion timer starts. Circles
    /// that only touch do not collide. Hands back the explosion's handle.
    /// Without a ship, or with nothing overlapping it, nothing happens.
    pub fn collision(&mut self) -> (effect: Option<EntityId>)
        requires
            old(self).wf(),
        ensures
            final(self).wf(),
            effect is Some <==> old(self)@.struck(),
            effect matches Some(x) ==> !old(self)@.issued.contains(x),
            final(self)@ == old(self)@.collided(effect),
    {
        let player: EntityId = match self.player {
            Some(p) => p,
            None => {
                return None;
            },
        };
        let ship: Entity = match self.store.get(player) {
            Some(e) => e,
            None => {
                return None;
            },
        };
        if !self.any_hit(&ship) {
            return None;
        }
        self.remove_doomed(player, &ship);
        let wreck = Entity::explosion(&ship);
        let x: EntityId = self.store.spawn(wreck);
        self.player = None;
        self.timer = Some(OnceTimer::start(EXPLOSION_NANOS));
        proof {
            assert(self@.entities =~= old(self)@.collided(Some(x)).entities);
        }
        Some(x)
    }

    /// Leaves the game for the menu and destroys every entity. Outside the
    /// game nothing happens.
    pub fn on_gameplay_exit(&mut self)
        requires
            old(self).wf(),
        ensures
            final(self).wf(),
            final(self)@ == if old(self)@.phase == Phase::Gameplay {
                old(self)@.left()
            } else {
                old(self)@
            },
    {
        match self.phase {
            Phase::Gameplay => {
                self.store.clear();
                self.phase = Phase::Menu;
                self.player = None;
                self.timer = None;
            },
            _ => {},
        }
    }

    /// The countdown: advances the explosion timer by `elapsed` nanoseconds
    /// and, when it fires, leaves for the menu. Says whether it did. Without a
    /// timer nothing happens.
    pub fn player_explosion(&mut self, elapsed: u64) -> (to_menu: bool)
        requires
            old(self).wf(),
        ensures
            final(self).wf(),
            to_menu == old(self)@.expires(elapsed),
            final(self)@ == old(self)@.cooled(elapsed),
    {
        match self.timer {
            Some(t) => match t.tick(elapsed) {
                Some(next) => {
                    self.timer = Some(next);
                    false
                },
                None => {
                    self.on_gameplay_exit();
                    true
                },
            },
            None => false,
        }
    }

    /// One tick: the controls and the drift, the wrap, the collisions, the
    /// countdown, in this order, each on what the one before it left.
    pub fn tick(&mut self, input: &TickInput) -> (report: TickReport)
        requires
            old(self).wf(),
        ensures
            final(self).wf(),
            report.explosion is Some <==> old(self)@.moved(*input).struck(),
            report.explosion matches Some(x) ==> !old(self)@.issued.contains(x),
            report.to_menu == old(self)@.moved(*input).collided(report.explosion).expires(
                input.elapsed,
            ),
            final(self)@ == old(self)@.ticked(*input, report.explosion),
    {
        self.control_player(&input.controls, input.forward, input.elapsed);
        self.slide();
        self.wrap_around(input.viewport);
        let explosion = self.collision();
        let to_menu = self.player_explosion(input.elapsed);
        TickReport { explosion, to_menu }
    }

    /// Enters the game afresh and spawns the level: destroys whatever there
    /// was, then creates the ship at rest at the centre with its hidden thrust
    /// flame, and four asteroids, one in each quadrant, each with the velocity
    /// and spin that `wave` gives it. Whatever `wave` holds, the level has one
    /// ship and four asteroids.
    pub fn spawn_level(&mut self, wave: &[Drift; 4]) -> (level: Level)
        requires
            old(self).wf(),
        ensures
            final(self).wf(),
            level.fresh_for(old(self)@.issued),
            final(self)@ == old(self)@.launched(level, *wave),
            final(self)@.census(Role::Player) == set![level.player],
            final(self)@.census(Role::Player).len() == 1,
            final(self)@.census(Role::Asteroid) == level.asteroids@.to_set(),
            final(self)@.census(Role::Asteroid).len() == 4,
    {
        self.store.clear();
        self.phase = Phase::Gameplay;
        self.timer = None;
        let player: EntityId = self.store.spawn(Entity::player());
        let thrust_indicator: EntityId = self.store.spawn(Entity::thrust_indicator(player));
        let first: EntityId = self.store.spawn(
            Entity::asteroid(Vec2::new(-SPAWN_X, SPAWN_Y), wave[0].velocity, wave[0].spin),
        );
        let second: EntityId = self.store.spawn(
            Entity::asteroid(Vec2::new(-SPAWN_X, -SPAWN_Y), wave[1].velocity, wave[1].spin),
        );
        let third: EntityId = self.store.spawn(
            Entity::asteroid(Vec2::new(SPAWN_X, SPAWN_Y), wave[2].velocity, wave[2].spin),
        );
        let fourth: EntityId = self.store.spawn(
            Entity::asteroid(Vec2::new(SPAWN_X, -SPAWN_Y), wave[3].velocity, wave[3].spin),
        );
        self.player = Some(player);
        let level = Level { player, thrust_indicator, asteroids: [first, second, third, fourth] };
        proof {
            assert(self@.entities =~= level.entities(*wave));
            assert(self@ == old(self)@.launched(level, *wave));
            lemma_one_ship_four_asteroids(old(self)@, level, *wave);
        }
        level
    }

    /// Leaves the splash screen for the menu once the splash screen is done.
    /// Says whether it did. In any other phase nothing happens.
    pub fn switch_to_menu(&mut self, splash_done: bool) -> (switched: bool)
        requires
            old(self).wf(),
        ensures
            final(self).wf(),
            switched == (old(self)@.phase == Phase::Splash && splash_done),
            final(self)@ == if switched {
                SimState { phase: Phase::Menu, ..old(self)@ }
            } else {
                old(self)@
            },
    {
        match self.phase {
            Phase::Splash => {
                if splash_done {
                    self.phase = Phase::Menu;
                    true
                } else {
                    false
                }
            },
            _ => false,
        }
    }

    /// Leaves the menu for the game when a key was newly pressed, and spawns
    /// the level. In any other phase, or without a key, nothing happens.
    pub fn change_to_gameplay(&mut self, key_pressed: bool, wave: &[Drift; 4]) -> (level: Option<
        Level,
    >)
        requires
            old(self).wf(),
        ensures
            final(self).wf(),
            level is Some <==> old(self)@.phase == Phase::Menu && key_pressed,
            match level {
                Some(l) => l.fresh_for(old(self)@.issued) && final(self)@ == old(self)@.launched(
                    l,
                    *wave,
                ),
                None => final(self)@ == old(self)@,
            },
    {
        match self.phase {
            Phase::Menu => {
                if key_pressed {
                    Some(self.spawn_level(wave))
                } else {
                    None
                }
            },
            _ => None,
        }
    }

    /// The phase of the game.
    pub fn phase(&self) -> (phase: Phase)
        ensures
            phase == self@.phase,
    {
        self.phase
    }

    /// The ship's handle, while there is a ship.
    pub fn player(&self) -> (player: Option<EntityId>)
        ensures
            player == self@.player,
    {
        self.player
    }

    /// The explosion timer, while it runs.
    pub fn timer(&self) -> (timer: Option<OnceTimer>)
        ensures
            timer == self@.timer,
    {
        self.timer
    }

    /// Whether the ship was destroyed and the explosion is still showing.
    pub fn exploding(&self) -> (yes: bool)
        ensures
            yes == self@.exploding(),
    {
        self.timer.is_some()
    }

    /// The components of the entity `id`, or `None` for a stale handle.
    pub fn get(&self, id: EntityId) -> (found: Option<Entity>)
        ensures
            found == if self@.entities.contains_key(id) {
                Some(self@.entities[id])
            } else {
                None
            },
    {
        self.store.get(id)
    }

    /// The handles of all live entities, or of those with the given role, in
    /// the order of their slots.
    pub fn ids(&self, role: Option<Role>) -> (found: Vec<EntityId>)
        ensures
            forall|id: EntityId|
                found@.contains(id) <==> self@.entities.contains_key(id) && (role matches Some(r)
                    ==> self@.entities[id].role == r),
            forall|j: int, k: int|
                0 <= j < k < found@.len() ==> (#[trigger] found@[j]).index < (
                #[trigger] found@[k]).index,
    {
        self.store.ids(role)
    }

    /// The angle at which the ship will face after a tick with the given keys
    /// and length: what the host needs to work out the tick's forward vector.
    /// `None` without a ship.
    pub fn heading_after(&self, controls: &Controls, elapsed: u64) -> (heading: Option<u64>)
        requires
            self.wf(),
        ensures
            heading == match self@.player {
                Some(p) => Some(
                    steered(
                        self@.entities[p].orientation as int,
                        controls.rotate_left,
                        controls.rotate_right,
                        elapsed as int,
                    ) as u64,
                ),
                None => None,
            },
    {
        match self.player {
            Some(p) => match self.store.get(p) {
                Some(ship) => Some(
                    steer(ship.orientation, controls.rotate_left, controls.rotate_right, elapsed),
                ),
                None => None,
            },
            None => None,
        }
    }
}

/// However a wave is made up, a level has exactly one ship and exactly four
/// asteroids, one in each quadrant, and besides them only the ship's flame.
pub proof fn lemma_one_ship_four_asteroids(s: SimState, level: Level, wave: [Drift; 4])
    requires
        level.handles().no_duplicates(),
    ensures
        s.launched(level, wave).census(Role::Player) == set![level.player],
        s.launched(level, wave).census(Role::Player).len() == 1,
        s.launched(level, wave).census(Role::Asteroid) == level.asteroids@.to_set(),
        s.launched(level, wave).census(Role::Asteroid).len() == 4,
        s.launched(level, wave).census(Role::ThrustIndicator) == set![level.thrust_indicator],
        s.launched(level, wave).census(Role::Effect) == Set::<EntityId>::empty(),
        forall|k: int|
            0 <= k < 4 ==> {
                &&& s.launched(level, wave).entities.contains_key(#[trigger] level.asteroids[k])
                &&& s.launched(level, wave).entities[level.asteroids[k]] == Entity::spec_asteroid(
                    quadrant(k),
                    wave[k].velocity,
                    wave[k].spin,
                )
            },
        s.launched(level, wave).entities[level.player] == Entity::spec_player(),
{
    let t = s.launched(level, wave);
    let h = level.handles();
    assert(h[0] == level.player && h[1] == level.thrust_indicator);
    assert(h[2] == level.asteroids[0] && h[3] == level.asteroids[1]);
    assert(h[4] == level.asteroids[2] && h[5] == level.asteroids[3]);
    let four = set![
        level.asteroids[0],
        level.asteroids[1],
        level.asteroids[2],
        level.asteroids[3],
    ];
    assert(t.census(Role::Player) =~= set![level.player]);
    assert(t.census(Role::ThrustIndicator) =~= set![level.thrust_indicator]);
    assert(t.census(Role::Effect) =~= Set::<EntityId>::empty());
    assert(t.census(Role::Asteroid) =~= four);
    assert(level.asteroids@.to_set() =~= four) by {
        assert forall|x: EntityId| four.contains(x) implies level.asteroids@.contains(x) by {
            let k = choose|k: int| 0 <= k < 4 && level.asteroids@[k] == x;
            assert(level.asteroids@[k] == x);
        }
    }
}

} // verus!
