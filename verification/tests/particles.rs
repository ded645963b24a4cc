use blutti::animation::Animation;
use blutti::blutti::Blutti;
use blutti::drawing::Color;
use blutti::level::{pick, Level};
use blutti::particle::{Particle, ParticleMovement};
use blutti::point_math::Point;

const HIGH: u32 = u32::MAX;
const LOW: u32 = 0;

/// A random word that scales to `value` out of 100.
fn word_for(value: u32) -> u32 {
    let word = ((value as u64) * (u32::MAX as u64) / 100 + 1) as u32;
    assert_eq!(blutti::functions::random_value(word, 100), value as i32);
    word
}

fn level(chance: i32) -> Level {
    Level::load_level(
        vec![0; 600],
        Color::Black,
        Color::White,
        1,
        Point::new(8, 8),
        chance,
        200,
        vec![],
    )
    .unwrap()
}

#[test]
fn a_drifting_particle_appears_above_the_screen() {
    let p = Particle::random(200, HIGH);
    assert_eq!(p.position, Point::new(304, -3));
    assert_eq!(p.movement, ParticleMovement::Falling);
    assert_eq!(p.animation.sprites, vec![200, 201]);
    assert!(p.animation.looping);
    assert_eq!(p.animation.time_per_frame, 15);
    assert_eq!(Particle::random(200, LOW).position, Point::new(0, -3));
    assert_eq!(Particle::random(200, u32::MAX / 2).position.x, 151);
}

#[test]
fn a_falling_particle_drifts_by_the_random_words() {
    let mut p = Particle::random(200, LOW);
    p.position = Point::new(50, 50);
    let player = Point::new(0, 0);
    p.update(player, word_for(95), word_for(95));
    assert_eq!(p.position, Point::new(51, 49));
    p.update(player, word_for(89), word_for(89));
    assert_eq!(p.position, Point::new(50, 50));
    p.update(player, word_for(60), word_for(40));
    assert_eq!(p.position, Point::new(49, 51));
    p.update(player, word_for(59), word_for(39));
    assert_eq!(p.position, Point::new(49, 51));
    p.update(player, word_for(90), word_for(90));
    assert_eq!(p.position, Point::new(50, 50));
    assert_eq!(p.animation.frame_timer, 5);
}

#[test]
fn a_following_particle_keeps_its_distance() {
    let mut p = Particle::following(Point::new(0, 0), Animation::once(vec![1, 2], 5), -8);
    p.update(Point::new(100, 40), HIGH, HIGH);
    assert_eq!(p.position, Point::new(92, 40));
    p.update(Point::new(i32::MIN + 3, 7), LOW, LOW);
    assert_eq!(p.position, Point::new(i32::MIN, 7));
}

#[test]
fn a_stationary_particle_stays() {
    let mut p = Particle::stationary(Point::new(9, 9), Animation::once(vec![1, 2], 0));
    p.update(Point::new(100, 40), HIGH, HIGH);
    assert_eq!(p.position, Point::new(9, 9));
    assert!(!p.should_be_removed());
    p.update(Point::new(100, 40), HIGH, HIGH);
    assert!(p.should_be_removed());
}

#[test]
fn a_particle_below_the_screen_is_done() {
    let mut p = Particle::new(
        Point::new(9, 160),
        Animation::looping(vec![1, 2], 0),
        ParticleMovement::Falling,
    );
    assert!(!p.should_be_removed());
    p.position.y = 161;
    assert!(p.should_be_removed());
}

#[test]
fn the_pool_of_random_words_is_used_in_a_circle() {
    let rolls = vec![10, 11, 12];
    assert_eq!(pick(&rolls, 0), 10);
    assert_eq!(pick(&rolls, 1), 11);
    assert_eq!(pick(&rolls, 2), 12);
    assert_eq!(pick(&rolls, 3), 10);
    assert_eq!(pick(&rolls, 4), 11);
    assert_eq!(pick(&rolls, u128::MAX), rolls[(u128::MAX % 3) as usize]);
}

#[test]
fn the_level_spawns_moves_and_drops_particles() {
    let mut player = Blutti::with_start_position(Point::new(100, 40));
    let mut l = level(50);
    assert_eq!(l.rolls_needed(), 4);
    // the first word decides, the second places
    l.update(&mut player, &vec![word_for(50), HIGH, LOW, LOW]);
    assert!(l.particles.is_empty());
    l.update(&mut player, &vec![word_for(49), HIGH, word_for(95), word_for(50)]);
    assert_eq!(l.particles.len(), 1);
    assert_eq!(l.particles[0].position, Point::new(305, -2));
    assert_eq!(l.rolls_needed(), 6);
    l.add_particle(Particle::following(Point::new(0, 0), Animation::once(vec![1], 0), 8));
    l.add_particle(Particle::stationary(Point::new(5, 5), Animation::once(vec![1, 2], 0)));
    l.update(
        &mut player,
        &vec![word_for(99), LOW, word_for(70), word_for(95), LOW, LOW, LOW, LOW],
    );
    // the follower has played its only frame and is dropped
    assert_eq!(l.particles.len(), 2);
    assert_eq!(l.particles[0].position, Point::new(304, -3));
    assert_eq!(l.particles[1].position, Point::new(5, 5));
    l.particles[0].position.y = 160;
    l.update(&mut player, &vec![word_for(99), LOW, LOW, word_for(50), LOW, LOW]);
    assert!(l.particles.is_empty());
}

#[test]
fn a_clone_of_a_particle_is_equal() {
    let mut p = Particle::following(Point::new(3, 4), Animation::once(vec![1, 2, 3], 2), -8);
    p.animation.update();
    let q = p.clone();
    assert_eq!(q.position, p.position);
    assert_eq!(q.movement, p.movement);
    assert_eq!(q.animation.sprites, p.animation.sprites);
    assert_eq!(q.animation.frame_timer, 1);
}
