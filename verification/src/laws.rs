//! What holds of the systems, whatever state they run on.

use crate::angle::steered;
use crate::arena::Viewport;
use crate::entity::{Entity, EntityId, Role};
use crate::motion::{Controls, MAX_SPEED};
use crate::simulation::{Phase, SimState, TickInput};
use crate::timer::{fire_count, lemma_fires_exactly_once, lemma_no_timer_never_fires};
use crate::vector::Vec2;
use vstd::prelude::*;

verus! {

/// Wrapping is idempotent: a second wrap with the same viewport changes
/// nothing.
pub proof fn lemma_wrap_twice(s: SimState, viewport: Option<Viewport>)
    ensures
        s.wrapped(viewport).wrapped(viewport) == s.wrapped(viewport),
{
    assert(s.wrapped(viewport).wrapped(viewport).entities =~= s.wrapped(viewport).entities);
}

/// After the wrap, every entity that wraps is inside the arena.
pub proof fn lemma_wrapped_inside(s: SimState, viewport: Viewport, id: EntityId)
    requires
        s.entities.contains_key(id),
        s.entities[id].wrap_eligible,
    ensures
        viewport.holds(s.wrapped(Some(viewport)).entities[id].position),
{
}

/// The drift moves each entity by its own velocity and by nothing else, and
/// leaves alone what has none.
pub proof fn lemma_drift_is_own_velocity(s: SimState, id: EntityId)
    requires
        s.entities.contains_key(id),
    ensures
        s.slid().entities.contains_key(id),
        s.entities[id].velocity matches Some(v) ==> s.slid().entities[id].position
            == s.entities[id].position.plus(v),
        s.entities[id].velocity is None ==> s.slid().entities[id] == s.entities[id],
        s.slid().entities[id].velocity == s.entities[id].velocity,
{
}

/// The controls turn the ship by the turning keys and the length of the tick
/// alone: the forward vector and the thrust key have no part in it.
pub proof fn lemma_heading_follows_turning_keys(
    s: SimState,
    controls: Controls,
    forward: Vec2,
    elapsed: u64,
)
    requires
        s.wf(),
        s.player is Some,
    ensures
        s.controlled(controls, forward, elapsed).entities[s.player.unwrap()].orientation
            == steered(
            s.entities[s.player.unwrap()].orientation as int,
            controls.rotate_left,
            controls.rotate_right,
            elapsed as int,
        ),
{
}

/// While there is a game there is at most one ship.
pub proof fn lemma_at_most_one_ship(s: SimState, a: EntityId, b: EntityId)
    requires
        s.wf(),
        s.entities.contains_key(a),
        s.entities.contains_key(b),
        s.entities[a].role == Role::Player,
        s.entities[b].role == Role::Player,
    ensures
        a == b,
        s.player == Some(a),
        !s.exploding(),
{
}

/// Thrust never takes the ship beyond the greatest speed.
pub proof fn lemma_ship_keeps_speed_limit(
    s: SimState,
    controls: Controls,
    forward: Vec2,
    elapsed: u64,
)
    requires
        s.wf(),
        s.player is Some,
        controls.thrust,
    ensures
        s.controlled(controls, forward, elapsed).entities[s.player.unwrap()].velocity matches Some(
            v,
        ) && v.length_squared() <= MAX_SPEED * MAX_SPEED,
{
    let p = s.player.unwrap();
    let v = s.entities[p].velocity.unwrap();
    v.plus(crate::motion::thrust_push(forward)).lemma_capped_within_limit(MAX_SPEED);
}

/// The thrust flame shows exactly while the thrust key is held.
pub proof fn lemma_flame_follows_thrust(
    s: SimState,
    controls: Controls,
    forward: Vec2,
    elapsed: u64,
    id: EntityId,
)
    requires
        s.player matches Some(p) && id != p && s.entities.contains_key(id)
            && s.entities[id].is_child_of(p),
    ensures
        s.controlled(controls, forward, elapsed).entities[id].visible == controls.thrust,
{
}

/// A collision destroys exactly the ship, its children and the asteroids that
/// overlap the ship. Every other entity stays, with all its components as they
/// were. One explosion is added, in the ship's place.
pub proof fn lemma_collision_destroys_exactly_the_doomed(s: SimState, effect: EntityId)
    requires
        s.wf(),
        s.struck(),
        !s.issued.contains(effect),
    ensures
        forall|id: EntityId| #[trigger]
            s.entities.contains_key(id) ==> (s.collided(Some(effect)).entities.contains_key(id)
                <==> !s.condemns(id)),
        forall|id: EntityId| #[trigger]
            s.entities.contains_key(id) && !s.condemns(id) ==> s.collided(
                Some(effect),
            ).entities[id] == s.entities[id],
        forall|id: EntityId|
            s.collided(Some(effect)).entities.contains_key(id) ==> id == effect
                || #[trigger] s.entities.contains_key(id),
        s.collided(Some(effect)).entities.contains_key(effect),
        s.collided(Some(effect)).entities[effect] == Entity::spec_explosion(
            s.entities[s.player.unwrap()],
        ),
        s.collided(Some(effect)).player is None,
        s.collided(Some(effect)).exploding(),
        s.collided(Some(effect)).wf(),
{
    lemma_collided_wf(s, Some(effect));
    assert(s.entities.contains_key(s.player.unwrap()));
}

/// An asteroid that is nobody's child is destroyed by a collision exactly if
/// it overlaps the ship.
pub proof fn lemma_asteroid_doomed_iff_hit(s: SimState, id: EntityId)
    requires
        s.wf(),
        s.entities.contains_key(id),
        s.entities[id].role == Role::Asteroid,
        s.entities[id].parent is None,
    ensures
        s.condemns(id) <==> s.hits(id),
{
}

/// Without a ship the first three systems of a tick do nothing but move each
/// entity by its own velocity and wrap it: the controls change nothing, and
/// nothing collides.
pub proof fn lemma_without_ship(s: SimState, input: TickInput, effect: Option<EntityId>)
    requires
        s.player is None,
    ensures
        !s.moved(input).struck(),
        s.moved(input).collided(effect) == s.slid().wrapped(input.viewport),
        forall|id: EntityId| #[trigger]
            s.entities.contains_key(id) ==> {
                &&& s.moved(input).collided(effect).entities.contains_key(id)
                &&& s.moved(input).collided(effect).entities[id] == s.entities[id].slid().wrapped(
                    input.viewport,
                )
            },
        forall|id: EntityId|
            s.moved(input).collided(effect).entities.contains_key(id)
                ==> #[trigger] s.entities.contains_key(id),
{
    assert(!s.moved(input).struck()) by {
        assert forall|id: EntityId| !s.moved(input).hits(id) by {}
    }
}

/// Outside the game a tick changes nothing and reports nothing: once the game
/// has gone back to the menu, no later tick goes there again.
pub proof fn lemma_quiet_outside_game(s: SimState, input: TickInput, effect: Option<EntityId>)
    requires
        s.wf(),
        s.phase != Phase::Gameplay,
    ensures
        !s.moved(input).struck(),
        !s.moved(input).collided(effect).expires(input.elapsed),
        s.ticked(input, effect) == s,
{
    lemma_without_ship(s, input, effect);
    assert(s.slid().wrapped(input.viewport).entities =~= s.entities);
}

/// While the explosion shows, a tick advances the timer by the tick's length;
/// the tick on which the timer fires is the one that goes back to the menu,
/// and it leaves neither an entity nor a timer behind.
pub proof fn lemma_cooldown_tick(s: SimState, input: TickInput, effect: Option<EntityId>)
    requires
        s.wf(),
        s.timer is Some,
    ensures
        s.moved(input).collided(effect).expires(input.elapsed) == s.timer.unwrap().fires(
            input.elapsed,
        ),
        s.ticked(input, effect).timer == s.timer.unwrap().ticked(input.elapsed),
        s.timer.unwrap().fires(input.elapsed) ==> s.ticked(input, effect) == s.left(),
        !s.timer.unwrap().fires(input.elapsed) ==> s.ticked(input, effect).phase
            == Phase::Gameplay,
{
    lemma_without_ship(s, input, effect);
}

/// A tick never changes what an entity is: as long as it lives it keeps its
/// role, its parent, its collision radius and whether it wraps.
pub proof fn lemma_tick_keeps_identity(
    s: SimState,
    input: TickInput,
    effect: Option<EntityId>,
    id: EntityId,
)
    requires
        s.wf(),
        s.entities.contains_key(id),
        s.ticked(input, effect).entities.contains_key(id),
        effect matches Some(x) ==> !s.issued.contains(x),
    ensures
        s.ticked(input, effect).entities[id].role == s.entities[id].role,
        s.ticked(input, effect).entities[id].parent == s.entities[id].parent,
        s.ticked(input, effect).entities[id].radius == s.entities[id].radius,
        s.ticked(input, effect).entities[id].wrap_eligible == s.entities[id].wrap_eligible,
{
}

/// Entities are destroyed at two points only: by a collision, and on leaving
/// the game. The controls, the drift and the wrap destroy nothing and create
/// nothing, nor do collisions where nothing overlaps the ship, nor does the
/// countdown before the timer fires.
pub proof fn lemma_destroyed_only_by_collision_or_exit(
    s: SimState,
    input: TickInput,
    effect: Option<EntityId>,
)
    ensures
        s.moved(input).entities.dom() == s.entities.dom(),
        !s.moved(input).struck() && !s.moved(input).expires(input.elapsed) ==> s.ticked(
            input,
            effect,
        ).entities == s.moved(input).entities,
{
    assert(s.moved(input).entities.dom() =~= s.entities.dom());
}

/// What a tick does to an entity that it does not destroy: the controls, if
/// it is the ship or a child of the ship, then the drift by its own velocity,
/// then the wrap. Nothing else touches it.
pub proof fn lemma_survivor_of_a_tick(
    s: SimState,
    input: TickInput,
    effect: Option<EntityId>,
    id: EntityId,
)
    requires
        s.wf(),
        s.entities.contains_key(id),
        s.ticked(input, effect).entities.contains_key(id),
        effect matches Some(x) ==> !s.issued.contains(x),
    ensures
        s.ticked(input, effect).entities[id] == (match s.player {
            Some(p) => SimState::controlled_one(
                p,
                input.controls,
                input.forward,
                input.elapsed,
                id,
                s.entities[id],
            ),
            None => s.entities[id],
        }).slid().wrapped(input.viewport),
{
}

/// The controls keep the state's invariant.
pub proof fn lemma_controlled_wf(s: SimState, controls: Controls, forward: Vec2, elapsed: u64)
    requires
        s.wf(),
    ensures
        s.controlled(controls, forward, elapsed).wf(),
{
    let t = s.controlled(controls, forward, elapsed);
    if s.phase != Phase::Gameplay {
        assert(t.entities =~= s.entities);
    }
}

/// The drift keeps the state's invariant.
pub proof fn lemma_slid_wf(s: SimState)
    requires
        s.wf(),
    ensures
        s.slid().wf(),
{
    if s.phase != Phase::Gameplay {
        assert(s.slid().entities =~= s.entities);
    }
}

/// The wrap keeps the state's invariant.
pub proof fn lemma_wrapped_wf(s: SimState, viewport: Option<Viewport>)
    requires
        s.wf(),
    ensures
        s.wrapped(viewport).wf(),
{
    if s.phase != Phase::Gameplay {
        assert(s.wrapped(viewport).entities =~= s.entities);
    }
}

/// The collisions keep the state's invariant, whatever handle the explosion
/// gets.
pub proof fn lemma_collided_wf(s: SimState, effect: Option<EntityId>)
    requires
        s.wf(),
    ensures
        s.collided(effect).wf(),
{
    let t = s.collided(effect);
    if t != s {
        let p = s.player.unwrap();
        assert(s.entities.contains_key(p));
        assert forall|id: EntityId| #[trigger] t.entities.contains_key(id) implies {
            &&& t.entities[id].wf()
            &&& t.issued.contains(id)
            &&& t.entities[id].role == Role::Player <==> t.player == Some(id)
        } by {
            if id != effect.unwrap() {
                assert(s.entities.contains_key(id));
                assert(!s.condemns(id));
            }
        }
    }
}

/// The countdown keeps the state's invariant.
pub proof fn lemma_cooled_wf(s: SimState, elapsed: u64)
    requires
        s.wf(),
    ensures
        s.cooled(elapsed).wf(),
{
}

/// A whole tick keeps the state's invariant: at most one ship, the timer
/// running exactly while the ship is gone, and no entity outside the game.
pub proof fn lemma_ticked_wf(s: SimState, input: TickInput, effect: Option<EntityId>)
    requires
        s.wf(),
    ensures
        s.moved(input).wf(),
        s.moved(input).collided(effect).wf(),
        s.ticked(input, effect).wf(),
{
    let a = s.controlled(input.controls, input.forward, input.elapsed);
    lemma_controlled_wf(s, input.controls, input.forward, input.elapsed);
    lemma_slid_wf(a);
    lemma_wrapped_wf(a.slid(), input.viewport);
    lemma_collided_wf(s.moved(input), effect);
    lemma_cooled_wf(s.moved(input).collided(effect), input.elapsed);
}

/// The lengths of a run of ticks.
pub open spec fn lengths(inputs: Seq<TickInput>) -> Seq<u64> {
    Seq::new(inputs.len(), |k: int| inputs[k].elapsed)
}

/// How many ticks of a run go back to the menu. The tick number `k` is given
/// `inputs[k]`, and its explosion, if it leaves one, gets the handle
/// `effects[k]`.
pub open spec fn returns_to_menu(
    s: SimState,
    inputs: Seq<TickInput>,
    effects: Seq<Option<EntityId>>,
) -> nat
    decreases inputs.len(),
{
    if inputs.len() == 0 || effects.len() != inputs.len() {
        0
    } else {
        (if s.moved(inputs[0]).collided(effects[0]).expires(inputs[0].elapsed) {
            1nat
        } else {
            0nat
        }) + returns_to_menu(
            s.ticked(inputs[0], effects[0]),
            inputs.drop_first(),
            effects.drop_first(),
        )
    }
}

/// No run of ticks goes back to the menu more than once. Outside the game none
/// does; and while the explosion shows, the run goes back exactly as often as
/// the explosion timer fires over the lengths of its ticks: once if they add
/// up to the time that was left, and else not at all.
pub proof fn lemma_returns_to_menu_once(
    s: SimState,
    inputs: Seq<TickInput>,
    effects: Seq<Option<EntityId>>,
)
    requires
        s.wf(),
        effects.len() == inputs.len(),
    ensures
        returns_to_menu(s, inputs, effects) <= 1,
        s.phase != Phase::Gameplay ==> returns_to_menu(s, inputs, effects) == 0,
        s.timer is Some ==> returns_to_menu(s, inputs, effects) == fire_count(
            s.timer,
            lengths(inputs),
        ),
    decreases inputs.len(),
{
    if inputs.len() > 0 {
        let input = inputs[0];
        let effect = effects[0];
        let next = s.ticked(input, effect);
        lemma_ticked_wf(s, input, effect);
        lemma_returns_to_menu_once(next, inputs.drop_first(), effects.drop_first());
        assert(lengths(inputs.drop_first()) =~= lengths(inputs).drop_first());
        assert(lengths(inputs)[0] == input.elapsed);
        if s.phase != Phase::Gameplay {
            lemma_quiet_outside_game(s, input, effect);
        } else if s.timer is Some {
            lemma_cooldown_tick(s, input, effect);
            lemma_no_timer_never_fires(lengths(inputs).drop_first());
        }
    }
}

/// Over a run of ticks that starts while the explosion shows, the game goes
/// back to the menu exactly once if the ticks add up to the time that was left
/// on the timer, and not at all if they do not.
pub proof fn lemma_explosion_ends_once(
    s: SimState,
    inputs: Seq<TickInput>,
    effects: Seq<Option<EntityId>>,
)
    requires
        s.wf(),
        s.timer is Some,
        effects.len() == inputs.len(),
    ensures
        returns_to_menu(s, inputs, effects) == if inputs.len() > 0 && crate::timer::total(
            lengths(inputs),
        ) >= s.timer.unwrap().spec_remaining() {
            1nat
        } else {
            0nat
        },
{
    lemma_returns_to_menu_once(s, inputs, effects);
    lemma_fires_exactly_once(s.timer.unwrap(), lengths(inputs));
}

} // verus!
