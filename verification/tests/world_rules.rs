use voidrun_godot::movement::{
    navigation_step, process_movement_command, vertical_motion, CommandPlan, FrameLogThrottle,
    MovementCommandKind, NavStep, NavTarget, NavigationFlags, VerticalMotion,
};
use voidrun_godot::schedules::{
    increment_tick_counter, run_combat_update_timer, run_slow_update_timer, FixedTickCounter,
};
use voidrun_godot::vision::VisionTracking;

fn flags(reached: bool, last: Option<u64>, can_reach: bool) -> NavigationFlags {
    NavigationFlags { is_target_reached: reached, last_follow_target: last, can_reach_target: can_reach }
}

#[test]
fn movement_commands_update_navigation() {
    let mut nav = flags(true, Some(4), true);
    let plan = process_movement_command(&mut nav, MovementCommandKind::Idle);
    assert_eq!(plan, CommandPlan { nav_target: NavTarget::HoldPosition, reset_follow_distance: false });
    assert_eq!(nav, flags(true, Some(4), true));
    let plan = process_movement_command(&mut nav, MovementCommandKind::FollowEntity { target: 4 });
    assert_eq!(plan, CommandPlan { nav_target: NavTarget::FollowedEntity, reset_follow_distance: false });
    assert_eq!(nav, flags(true, Some(4), true));
    let plan = process_movement_command(&mut nav, MovementCommandKind::FollowEntity { target: 5 });
    assert!(plan.reset_follow_distance);
    assert_eq!(nav, flags(false, Some(5), true));
    nav.is_target_reached = true;
    let plan = process_movement_command(&mut nav, MovementCommandKind::MoveToPosition);
    assert_eq!(plan.nav_target, NavTarget::CommandedPosition);
    assert!(!nav.is_target_reached);
    nav.is_target_reached = true;
    process_movement_command(&mut nav, MovementCommandKind::RetreatFrom { target: 2 });
    assert!(!nav.is_target_reached);
    nav.is_target_reached = true;
    process_movement_command(&mut nav, MovementCommandKind::Stop);
    assert!(nav.is_target_reached);
}

#[test]
fn arrival_announced_once() {
    let mut nav = flags(false, None, false);
    assert_eq!(navigation_step(&mut nav, true, false, false), NavStep::Move);
    assert_eq!(navigation_step(&mut nav, true, false, true), NavStep::AtWaypoint);
    assert_eq!(navigation_step(&mut nav, true, true, false), NavStep::Reached { announce: true });
    assert_eq!(navigation_step(&mut nav, true, true, false), NavStep::Reached { announce: false });
    assert_eq!(navigation_step(&mut nav, false, false, false), NavStep::Unreachable { become_idle: true });
    assert_eq!(navigation_step(&mut nav, false, false, false), NavStep::Unreachable { become_idle: false });
    assert!(!nav.can_reach_target);
}

#[test]
fn gravity_and_jumps() {
    let jumpers = vec![3, 8];
    assert_eq!(vertical_motion(true, 8, &jumpers), VerticalMotion::Jump);
    assert_eq!(vertical_motion(true, 4, &jumpers), VerticalMotion::Grounded);
    assert_eq!(vertical_motion(false, 8, &jumpers), VerticalMotion::Falling);
}

#[test]
fn every_thirtieth_frame_is_logged() {
    let mut throttle = FrameLogThrottle::new();
    let mut frames = Vec::new();
    for frame in 1..=90u32 {
        if throttle.tick() {
            frames.push(frame);
        }
    }
    assert_eq!(frames, vec![30, 60, 90]);
}

#[test]
fn schedules_fire_at_their_rates() {
    let mut counter = FixedTickCounter::default();
    let mut slow = 0;
    let mut combat = 0;
    for _ in 0..60 {
        increment_tick_counter(&mut counter);
        if run_slow_update_timer(&counter) {
            slow += 1;
        }
        if run_combat_update_timer(&counter) {
            combat += 1;
        }
    }
    assert_eq!(counter.tick, 60);
    assert_eq!(slow, 3);
    assert_eq!(combat, 10);
    let mut wrap = FixedTickCounter { tick: u64::MAX };
    increment_tick_counter(&mut wrap);
    assert_eq!(wrap.tick, 0);
    assert!(run_slow_update_timer(&wrap) && run_combat_update_timer(&wrap));
}

fn sorted(mut v: Vec<u64>) -> Vec<u64> {
    v.sort();
    v
}

#[test]
fn vision_reports_spotted_and_lost() {
    let mut tracking = VisionTracking::new();
    let first = tracking.poll_vision_cone(1, &vec![Some(2), None, Some(3), Some(1), Some(2)]);
    assert_eq!(sorted(first.spotted), vec![2, 3]);
    assert!(first.lost.is_empty());
    assert_eq!(sorted(tracking.seen(1)), vec![2, 3]);
    let second = tracking.poll_vision_cone(1, &vec![Some(3), Some(4)]);
    assert_eq!(second.spotted, vec![4]);
    assert_eq!(second.lost, vec![2]);
    let third = tracking.poll_vision_cone(1, &vec![Some(3), Some(4)]);
    assert!(third.spotted.is_empty() && third.lost.is_empty());
    let other = tracking.poll_vision_cone(7, &vec![Some(1)]);
    assert_eq!(other.spotted, vec![1]);
    assert_eq!(sorted(tracking.seen(1)), vec![3, 4]);
    assert!(tracking.seen(9).is_empty());
}
