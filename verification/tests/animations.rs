use blutti::animation::{Animation, Animations};

#[test]
fn a_frame_lasts_one_tick_more_than_its_time() {
    let mut a = Animation::looping(vec![1, 2, 3], 2);
    assert_eq!(a.current_sprite(), 1);
    a.update();
    a.update();
    assert_eq!(a.current_sprite(), 1);
    a.update();
    assert_eq!(a.current_sprite(), 2);
    assert_eq!(a.current_frame, 1);
}

#[test]
fn a_one_shot_finishes_after_frames_times_period() {
    let frames = 4;
    let time = 5;
    let mut a = Animation::once(vec![10, 11, 12, 13], time);
    for _ in 0..frames * (time + 1) - 1 {
        a.update();
        assert!(!a.finished);
    }
    assert_eq!(a.current_sprite(), 13);
    a.update();
    assert!(a.finished);
    assert_eq!(a.current_frame, 0);
    assert_eq!(a.current_sprite(), 10);
    for _ in 0..100 {
        a.update();
        assert!(a.finished);
        assert!(a.current_frame < 4);
    }
}

#[test]
fn a_one_shot_with_one_frame_and_no_time() {
    let mut a = Animation::once(vec![7], 0);
    assert!(!a.finished);
    a.update();
    assert!(a.finished);
}

#[test]
fn a_looping_animation_never_finishes() {
    let mut a = Animation::looping(vec![1, 2], 1);
    let mut shown = Vec::new();
    for _ in 0..8 {
        shown.push(a.current_sprite());
        a.update();
        assert!(!a.finished);
    }
    assert_eq!(shown, vec![1, 1, 2, 2, 1, 1, 2, 2]);
}

#[test]
fn reset_starts_over() {
    let mut a = Animation::once(vec![1, 2], 0);
    a.update();
    a.update();
    assert!(a.finished);
    a.reset();
    assert!(!a.finished);
    assert_eq!(a.current_frame, 0);
    a.update();
    assert_eq!(a.current_sprite(), 2);
}

#[test]
fn named_animations() {
    assert_eq!(Animation::animation_idle_left().sprites, vec![116, 117]);
    assert_eq!(Animation::animation_idle_right().sprites, vec![118, 119]);
    assert_eq!(Animation::animation_running_left().sprites, vec![112, 113]);
    assert_eq!(Animation::animation_running_right().sprites, vec![114, 115]);
    assert_eq!(Animation::animation_climb_left().sprites, vec![122, 123]);
    assert_eq!(Animation::animation_climb_right().sprites, vec![120, 121]);
    assert_eq!(Animation::animation_death().sprites, vec![124, 125, 126, 127]);
    assert_eq!(Animation::animation_exit_left().sprites, vec![108, 109, 110, 111]);
    assert_eq!(Animation::animation_exit_right().sprites, vec![92, 93, 94, 95]);
    assert!(Animation::animation_idle_left().looping);
    assert!(!Animation::animation_death().looping);
    assert_eq!(Animation::animation_idle_left().time_per_frame, 10);
    assert_eq!(Animation::animation_death().time_per_frame, 5);
    assert!(Animation::animation_death().is_wf());
}

#[test]
fn a_set_of_animations_moves_together() {
    let mut set = Animations::new(vec![
        Animation::looping(vec![1, 2], 0),
        Animation::once(vec![5, 6, 7], 0),
    ]);
    assert_eq!(set.current_sprites(), vec![1, 5]);
    set.update();
    assert_eq!(set.current_sprites(), vec![2, 6]);
    set.update();
    assert_eq!(set.current_sprites(), vec![1, 7]);
    set.reset();
    assert_eq!(set.current_sprites(), vec![1, 5]);
}

#[test]
fn a_clone_is_equal_in_every_field() {
    let mut a = Animation::once(vec![1, 2, 3], 1);
    a.update();
    a.update();
    let b = a.clone();
    assert_eq!(b.sprites, a.sprites);
    assert_eq!(b.current_frame, a.current_frame);
    assert_eq!(b.frame_timer, a.frame_timer);
    assert_eq!(b.time_per_frame, a.time_per_frame);
    assert_eq!(b.looping, a.looping);
    assert_eq!(b.finished, a.finished);
}

#[test]
fn the_default_animation_has_no_frame() {
    let a = Animation::default();
    assert!(a.sprites.is_empty());
    assert!(!a.is_wf());
    assert!(!a.finished);
    let set = Animations::default();
    assert!(set.animations.is_empty());
    assert!(set.current_sprites().is_empty());
    let copy = Animations::new(vec![Animation::once(vec![4, 5], 3)]).clone();
    assert_eq!(copy.animations.len(), 1);
    assert_eq!(copy.animations[0].sprites, vec![4, 5]);
}
