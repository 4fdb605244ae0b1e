//! Movement on the tactical layer: what a movement command does to the navigation
//! state, the per-frame navigation step, vertical motion (gravity and jumps) and the
//! log throttle of the navigation diagnostics.

use vstd::prelude::*;

verus! {

/// Navigation bookkeeping of an actor (its follow distance is kept by the caller).
#[derive(Clone, Copy, Debug, PartialEq, Eq, Structural)]
pub struct NavigationFlags {
    /// The current target was reached and its arrival announced.
    pub is_target_reached: bool,
    /// The entity followed by the last follow command.
    pub last_follow_target: Option<u64>,
    /// The navigation agent could reach its target at the last step.
    pub can_reach_target: bool,
}

/// A movement command without its coordinates.
#[derive(Clone, Copy, Debug, PartialEq, Eq, Structural)]
pub enum MovementCommandKind {
    Idle,
    MoveToPosition,
    FollowEntity { target: u64 },
    RetreatFrom { target: u64 },
    Stop,
}

/// Where the navigation agent is sent.
#[derive(Clone, Copy, Debug, PartialEq, Eq, Structural)]
pub enum NavTarget {
    /// The actor's own position (no pathfinding).
    HoldPosition,
    /// The commanded position, stopping 0.1 m from it.
    CommandedPosition,
    /// The followed entity's position, stopping at the weapon's distance.
    FollowedEntity,
}

/// What a new movement command does.
#[derive(Clone, Copy, Debug, PartialEq, Eq, Structural)]
pub struct CommandPlan {
    pub nav_target: NavTarget,
    /// Forget the follow distance adjusted for line of sight.
    pub reset_follow_distance: bool,
}

/// What the navigation does this frame.
#[derive(Clone, Copy, Debug, PartialEq, Eq, Structural)]
pub enum NavStep {
    /// No path to the target: stand still; `become_idle` when the target just became
    /// unreachable (the AI then drops back to idle).
    Unreachable { become_idle: bool },
    /// Target reached: stand still; `announce` the position once per target.
    Reached { announce: bool },
    /// The next waypoint is closer than 1 cm: stand still.
    AtWaypoint,
    /// Walk towards the next waypoint.
    Move,
}

pub open spec fn command_flags_spec(nav: NavigationFlags, command: MovementCommandKind) -> NavigationFlags {
    match command {
        MovementCommandKind::MoveToPosition => NavigationFlags { is_target_reached: false, ..nav },
        MovementCommandKind::FollowEntity { target } => if nav.last_follow_target != Some(target) {
            NavigationFlags {
                is_target_reached: false,
                last_follow_target: Some(target),
                ..nav
            }
        } else {
            nav
        },
        MovementCommandKind::RetreatFrom { .. } => NavigationFlags {
            is_target_reached: false,
            ..nav
        },
        _ => nav,
    }
}

pub open spec fn command_plan_spec(nav: NavigationFlags, command: MovementCommandKind) -> CommandPlan {
    match command {
        MovementCommandKind::MoveToPosition => CommandPlan {
            nav_target: NavTarget::CommandedPosition,
            reset_follow_distance: false,
        },
        MovementCommandKind::FollowEntity { target } => CommandPlan {
            nav_target: NavTarget::FollowedEntity,
            reset_follow_distance: nav.last_follow_target != Some(target),
        },
        _ => CommandPlan { nav_target: NavTarget::HoldPosition, reset_follow_distance: false },
    }
}

/// A follow command remembers the followed entity; following a new entity (also the
/// first one) clears the arrival flag and forgets the follow distance, following the
/// same one again changes nothing; a new position or a retreat clears the arrival flag;
/// idle and stop change nothing; no command touches reachability.
pub proof fn lemma_follow_remembers_target(nav: NavigationFlags, command: MovementCommandKind)
    ensures
        command_flags_spec(nav, command).can_reach_target == nav.can_reach_target,
        command matches MovementCommandKind::FollowEntity { target } ==> {
            &&& command_flags_spec(nav, command).last_follow_target == Some(target)
            &&& command_plan_spec(nav, command).reset_follow_distance == (nav.last_follow_target
                != Some(target))
            &&& nav.last_follow_target != Some(target) ==> !command_flags_spec(nav, command).is_target_reached
            &&& nav.last_follow_target == Some(target) ==> command_flags_spec(nav, command) == nav
        },
        command is MoveToPosition || command is RetreatFrom ==> !command_flags_spec(nav, command).is_target_reached,
        command is Idle || command is Stop ==> command_flags_spec(nav, command) == nav,
{
}

/// Applies a changed movement command: a new position target or a retreat clears the
/// "reached" flag; following a different entity clears it, remembers the entity and
/// forgets the follow distance; idle and stop keep the history. Gives where the
/// navigation agent is sent.
pub fn process_movement_command(nav: &mut NavigationFlags, command: MovementCommandKind) -> (plan: CommandPlan)
    ensures
        *final(nav) == command_flags_spec(*old(nav), command),
        plan == command_plan_spec(*old(nav), command),
        final(nav).can_reach_target == old(nav).can_reach_target,
        command matches MovementCommandKind::FollowEntity { target } ==> {
            &&& final(nav).last_follow_target == Some(target)
            &&& plan.nav_target == NavTarget::FollowedEntity
            &&& plan.reset_follow_distance == (old(nav).last_follow_target != Some(target))
            &&& old(nav).last_follow_target != Some(target) ==> !final(nav).is_target_reached
            &&& old(nav).last_follow_target == Some(target) ==> *final(nav) == *old(nav)
        },
        !(command is FollowEntity) ==> final(nav).last_follow_target == old(nav).last_follow_target
            && !plan.reset_follow_distance,
        command is MoveToPosition || command is RetreatFrom ==> !final(nav).is_target_reached,
        command is Idle || command is Stop ==> *final(nav) == *old(nav),
{
    match command {
        MovementCommandKind::Idle => CommandPlan {
            nav_target: NavTarget::HoldPosition,
            reset_follow_distance: false,
        },
        MovementCommandKind::MoveToPosition => {
            nav.is_target_reached = false;
            CommandPlan { nav_target: NavTarget::CommandedPosition, reset_follow_distance: false }
        },
        MovementCommandKind::FollowEntity { target } => {
            let changed = match nav.last_follow_target {
                Some(t) => t != target,
                None => true,
            };
            if changed {
                nav.is_target_reached = false;
                nav.last_follow_target = Some(target);
            }
            CommandPlan { nav_target: NavTarget::FollowedEntity, reset_follow_distance: changed }
        },
        MovementCommandKind::RetreatFrom { .. } => {
            nav.is_target_reached = false;
            CommandPlan { nav_target: NavTarget::HoldPosition, reset_follow_distance: false }
        },
        MovementCommandKind::Stop => CommandPlan {
            nav_target: NavTarget::HoldPosition,
            reset_follow_distance: false,
        },
    }
}

pub open spec fn step_flags_spec(nav: NavigationFlags, reachable: bool, reached: bool) -> NavigationFlags {
    if !reachable {
        NavigationFlags { can_reach_target: false, ..nav }
    } else if reached {
        NavigationFlags { can_reach_target: true, is_target_reached: true, ..nav }
    } else {
        NavigationFlags { can_reach_target: true, ..nav }
    }
}

pub open spec fn step_spec(nav: NavigationFlags, reachable: bool, reached: bool, waypoint_close: bool) -> NavStep {
    if !reachable {
        NavStep::Unreachable { become_idle: nav.can_reach_target }
    } else if reached {
        NavStep::Reached { announce: !nav.is_target_reached }
    } else if waypoint_close {
        NavStep::AtWaypoint
    } else {
        NavStep::Move
    }
}

/// One navigation frame of an actor: without a path it stands still (and drops back to
/// idle the first time); at the target it stands still and announces its position the
/// first time; next to a waypoint it stands still; otherwise it walks on.
pub fn navigation_step(nav: &mut NavigationFlags, reachable: bool, reached: bool, waypoint_close: bool) -> (step: NavStep)
    ensures
        *final(nav) == step_flags_spec(*old(nav), reachable, reached),
        step == step_spec(*old(nav), reachable, reached, waypoint_close),
        final(nav).can_reach_target == reachable,
        final(nav).last_follow_target == old(nav).last_follow_target,
        !reachable ==> step == (NavStep::Unreachable { become_idle: old(nav).can_reach_target })
            && final(nav).is_target_reached == old(nav).is_target_reached,
        reachable && reached ==> step == (NavStep::Reached {
            announce: !old(nav).is_target_reached,
        }) && final(nav).is_target_reached,
        reachable && !reached ==> final(nav).is_target_reached == old(nav).is_target_reached && (
        step == NavStep::Move <==> !waypoint_close),
{
    if !reachable {
        let become_idle = nav.can_reach_target;
        nav.can_reach_target = false;
        return NavStep::Unreachable { become_idle };
    }
    nav.can_reach_target = true;
    if reached {
        let announce = !nav.is_target_reached;
        nav.is_target_reached = true;
        return NavStep::Reached { announce };
    }
    if waypoint_close {
        NavStep::AtWaypoint
    } else {
        NavStep::Move
    }
}

/// Arrival is announced once per target: after an announcing step, no later step
/// announces again until a command clears the flag; and an actor drops back to idle only
/// on the step where its target becomes unreachable, not on the following ones.
pub proof fn lemma_announce_once(
    nav: NavigationFlags,
    reachable: bool,
    reached: bool,
    waypoint_close: bool,
    reachable2: bool,
    reached2: bool,
    waypoint_close2: bool,
)
    ensures
        ({
            let after = step_flags_spec(nav, reachable, reached);
            &&& step_spec(nav, reachable, reached, waypoint_close) == (NavStep::Reached {
                announce: true,
            }) ==> step_spec(after, reachable2, reached2, waypoint_close2) != (NavStep::Reached {
                announce: true,
            })
            &&& step_spec(nav, reachable, reached, waypoint_close) is Unreachable ==> step_spec(
                after,
                reachable2,
                reached2,
                waypoint_close2,
            ) != (NavStep::Unreachable { become_idle: true })
        }),
        nav.is_target_reached ==> step_flags_spec(nav, reachable, reached).is_target_reached,
{
}

/// Vertical motion of an actor this frame.
#[derive(Clone, Copy, Debug, PartialEq, Eq, Structural)]
pub enum VerticalMotion {
    /// On the floor with a jump request: take off at jump speed.
    Jump,
    /// On the floor: no vertical speed.
    Grounded,
    /// In the air: gravity accelerates the fall.
    Falling,
}

/// Vertical motion: on the floor an actor jumps when a jump intent names it and
/// otherwise stands; in the air it falls (jump intents are ignored).
pub fn vertical_motion(on_floor: bool, entity: u64, jumpers: &Vec<u64>) -> (motion: VerticalMotion)
    ensures
        motion == (if !on_floor {
            VerticalMotion::Falling
        } else if jumpers@.contains(entity) {
            VerticalMotion::Jump
        } else {
            VerticalMotion::Grounded
        }),
{
    if !on_floor {
        return VerticalMotion::Falling;
    }
    let mut k: usize = 0;
    while k < jumpers.len()
        invariant
            0 <= k <= jumpers.len(),
            on_floor,
            forall|j: int| 0 <= j < k ==> jumpers@[j] != entity,
        decreases jumpers.len() - k,
    {
        if jumpers[k] == entity {
            assert(jumpers@[k as int] == entity);
            assert(jumpers@.contains(entity));
            return VerticalMotion::Jump;
        }
        k = k + 1;
    }
    VerticalMotion::Grounded
}

/// Counts frames so that a diagnostic is logged every 30th frame.
pub struct FrameLogThrottle {
    pub count: u32,
}

impl FrameLogThrottle {
    /// No frame counted yet.
    pub fn new() -> (throttle: Self)
        ensures
            throttle.count == 0,
    {
        FrameLogThrottle { count: 0 }
    }

    /// Counts one frame; true on every 30th.
    pub fn tick(&mut self) -> (log_now: bool)
        requires
            old(self).count < u32::MAX,
        ensures
            final(self).count == old(self).count + 1,
            log_now == ((old(self).count + 1) % 30 == 0),
    {
        self.count = self.count + 1;
        self.count % 30 == 0
    }
}

} // verus!
