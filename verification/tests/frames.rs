use flappy_core::animation::{AnimationIndices, AnimationPlugin};
use flappy_core::bird::rotate_bird;
use flappy_core::physics::Velocity;

#[test]
fn animation_steps_and_wraps() {
    let mut anim = AnimationPlugin::new(AnimationIndices { first: 0, last: 2 });
    assert_eq!(anim.index, 0);
    assert!(!anim.update_animations(150));
    assert_eq!(anim.index, 0);
    assert!(anim.update_animations(150));
    assert_eq!(anim.index, 1);
    assert!(anim.update_animations(300));
    assert_eq!(anim.index, 2);
    assert!(anim.update_animations(300));
    assert_eq!(anim.index, 0);
}

#[test]
fn animation_timer_carries_excess() {
    let mut anim = AnimationPlugin::new(AnimationIndices { first: 3, last: 5 });
    assert!(anim.update_animations(450));
    assert_eq!(anim.index, 4);
    assert_eq!(anim.timer.acc_ms, 150);
}

#[test]
fn tilt_saturates_at_forty_five_degrees() {
    let up = Velocity { x: 0, y: 300_000 };
    assert_eq!(rotate_bird(&up, 100), 45_000_000);
    let down = Velocity { x: 0, y: -900_000 };
    assert_eq!(rotate_bird(&down, 1_000), -45_000_000);
}

#[test]
fn tilt_scales_inside_the_clamp() {
    let v = Velocity { x: 0, y: -5_000 };
    assert_eq!(rotate_bird(&v, 100), -22_500_000);
    let rest = Velocity { x: 0, y: 0 };
    assert_eq!(rotate_bird(&rest, 100), 0);
}
