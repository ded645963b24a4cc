use blutti::animation::Animation;
use blutti::blutti::Blutti;
use blutti::direction::StopDirection;
use blutti::drawing::Color;
use blutti::level::Level;
use blutti::monster::{clone_monsters, Monster, MonsterCollision, MonsterMovement};
use blutti::point_math::Point;
use blutti::updateable::Updateable;
use blutti::vec2::Vec2;

const FULL: i32 = 4;

fn level_with(placed: &[(usize, usize, i32)], monsters: Vec<Monster>) -> Level {
    let mut tiles = vec![0; 600];
    for &(column, row, tile) in placed {
        tiles[row * 30 + column] = tile;
    }
    Level::load_level(tiles, Color::Black, Color::White, 1, Point::new(8, 8), 0, 200, monsters)
        .unwrap()
}

fn platform() -> Vec<(usize, usize, i32)> {
    vec![(2, 10, FULL), (3, 10, FULL), (4, 10, FULL), (5, 10, FULL)]
}

fn monster(
    x: i32,
    y: i32,
    velocity: Vec2,
    movement: MonsterMovement,
    collision: MonsterCollision,
) -> Monster {
    Monster::new(
        Point::new(x, y),
        velocity,
        movement,
        collision,
        false,
        8,
        8,
        Animation::looping(vec![32, 33], 10),
        Animation::looping(vec![34, 35], 10),
    )
}

fn far_away() -> Blutti {
    Blutti::with_start_position(Point::new(200, 20))
}

#[test]
fn a_monster_turns_at_the_edge_of_its_platform() {
    let level = level_with(&platform(), vec![]);
    let mut player = far_away();
    let mut m = monster(
        38,
        72,
        Vec2::new(1000, 0),
        MonsterMovement::TurnsAtEdge,
        MonsterCollision::Deadly,
    );
    m.update(&level, &mut player);
    assert_eq!(m.position, Point::new(39, 72));
    m.update(&level, &mut player);
    assert_eq!(m.position, Point::new(40, 72));
    assert_eq!(m.velocity, Vec2::new(1000, 0));
    // the next step would leave the platform
    m.update(&level, &mut player);
    assert_eq!(m.position, Point::new(40, 72));
    assert_eq!(m.velocity, Vec2::new(-1000, 0));
    m.update(&level, &mut player);
    assert_eq!(m.position, Point::new(39, 72));
    for _ in 0..23 {
        m.update(&level, &mut player);
    }
    assert_eq!(m.position, Point::new(16, 72));
    assert_eq!(m.velocity, Vec2::new(-1000, 0));
    m.update(&level, &mut player);
    assert_eq!(m.position, Point::new(16, 72));
    assert_eq!(m.velocity, Vec2::new(1000, 0));
}

#[test]
fn a_moving_monster_walks_off_the_edge_and_stops_in_the_air() {
    let level = level_with(&platform(), vec![]);
    let mut player = far_away();
    let mut m =
        monster(40, 72, Vec2::new(1000, 0), MonsterMovement::Moving, MonsterCollision::Deadly);
    for _ in 0..8 {
        m.update(&level, &mut player);
    }
    assert_eq!(m.position, Point::new(48, 72));
    // nothing under it and no gravity: it stays
    m.update(&level, &mut player);
    assert_eq!(m.position, Point::new(48, 72));
    assert_eq!(m.velocity, Vec2::new(1000, 0));
}

#[test]
fn a_monster_turns_at_a_wall() {
    let mut placed = platform();
    placed.push((5, 9, FULL));
    let level = level_with(&placed, vec![]);
    let mut player = far_away();
    let mut m =
        monster(31, 72, Vec2::new(1000, 0), MonsterMovement::Moving, MonsterCollision::Deadly);
    m.update(&level, &mut player);
    assert_eq!(m.position, Point::new(32, 72));
    m.update(&level, &mut player);
    assert_eq!(m.position, Point::new(32, 72));
    assert_eq!(m.velocity, Vec2::new(-1000, 0));
}

#[test]
fn a_flying_monster_moves_on_both_axes() {
    let level = level_with(&[], vec![]);
    let mut player = far_away();
    let mut m =
        monster(40, 40, Vec2::new(500, -1500), MonsterMovement::Flying, MonsterCollision::Deadly);
    m.gravity = true;
    m.update(&level, &mut player);
    // a half rounds up: a pixel and a half upwards is one pixel
    assert_eq!(m.position, Point::new(41, 39));
    assert_eq!(m.remainder, Vec2::new(-500, -500));
    assert_eq!(m.velocity, Vec2::new(500, -1500));
    m.update(&level, &mut player);
    assert_eq!(m.position, Point::new(41, 37));
    assert_eq!(m.remainder, Vec2::new(0, 0));
}

#[test]
fn gravity_pulls_a_monster_down_until_it_lands() {
    let level = level_with(&platform(), vec![]);
    let mut player = far_away();
    let mut m = monster(24, 66, Vec2::zero(), MonsterMovement::Moving, MonsterCollision::Deadly);
    m.gravity = true;
    m.update(&level, &mut player);
    assert_eq!(m.velocity, Vec2::new(0, 500));
    assert_eq!(m.position, Point::new(24, 67));
    m.update(&level, &mut player);
    assert_eq!(m.velocity, Vec2::new(0, 1000));
    assert_eq!(m.position, Point::new(24, 68));
    for _ in 0..3 {
        m.update(&level, &mut player);
    }
    assert_eq!(m.position, Point::new(24, 72));
    for _ in 0..5 {
        m.update(&level, &mut player);
        assert_eq!(m.position, Point::new(24, 72));
    }
    assert_eq!(m.velocity.y, 0);
}

#[test]
fn stopping_turns_the_monster_around() {
    let level = level_with(&[], vec![]);
    let mut m =
        monster(40, 40, Vec2::new(700, -300), MonsterMovement::Flying, MonsterCollision::Harmless);
    m.animation.update();
    m.reverse_animation.update();
    assert!(!m.faces_backward());
    m.stop_movement(&level, StopDirection::X);
    assert_eq!(m.velocity, Vec2::new(-700, -300));
    assert!(m.faces_backward());
    assert_eq!(m.reverse_animation.frame_timer, 0);
    assert_eq!(m.animation.frame_timer, 1);
    assert_eq!(m.current_sprite(), 34);
    m.stop_movement(&level, StopDirection::Y);
    assert_eq!(m.velocity, Vec2::new(-700, 300));
    m.stop_movement(&level, StopDirection::Both);
    assert_eq!(m.velocity, Vec2::new(700, -300));
    assert_eq!(m.current_sprite(), 32);
    m.velocity = Vec2::new(i32::MIN, 0);
    m.stop_movement(&level, StopDirection::X);
    assert_eq!(m.velocity.x, i32::MAX);
}

#[test]
fn only_the_animation_that_shows_advances() {
    let level = level_with(&[], vec![]);
    let mut player = far_away();
    let mut m =
        monster(40, 40, Vec2::new(-100, 0), MonsterMovement::Flying, MonsterCollision::Harmless);
    m.update(&level, &mut player);
    assert_eq!(m.reverse_animation.frame_timer, 1);
    assert_eq!(m.animation.frame_timer, 0);
    m.velocity = Vec2::new(0, 100);
    m.update(&level, &mut player);
    assert_eq!(m.animation.frame_timer, 1);
    m.velocity = Vec2::new(0, -100);
    m.update(&level, &mut player);
    assert_eq!(m.reverse_animation.frame_timer, 2);
}

#[test]
fn a_blocking_monster_carries_the_player() {
    let level = level_with(&[], vec![]);
    let mut m =
        monster(40, 80, Vec2::new(1000, 0), MonsterMovement::Flying, MonsterCollision::Blocking);
    let mut rider = Blutti::with_start_position(Point::new(44, 72));
    m.update(&level, &mut rider);
    assert_eq!(rider.remainder, Vec2::new(1000, 0));
    assert_eq!(m.position, Point::new(41, 80));
    let mut beside = Blutti::with_start_position(Point::new(60, 72));
    m.update(&level, &mut beside);
    assert_eq!(beside.remainder, Vec2::zero());
    let mut deadly =
        monster(40, 80, Vec2::new(1000, 0), MonsterMovement::Flying, MonsterCollision::Deadly);
    let mut walker = Blutti::with_start_position(Point::new(44, 72));
    deadly.update(&level, &mut walker);
    assert_eq!(walker.remainder, Vec2::zero());
}

#[test]
fn the_player_rides_a_platform() {
    let mut level = level_with(
        &[],
        vec![monster(
            40,
            80,
            Vec2::new(1000, 0),
            MonsterMovement::Flying,
            MonsterCollision::Blocking,
        )],
    );
    let mut out = blutti::functions::Outbox::new();
    let mut player = Blutti::with_start_position(Point::new(40, 72));
    assert!(player.is_standing(&level));
    let rolls = vec![u32::MAX];
    for _ in 0..6 {
        player.update(&mut level, &mut out);
        level.update(&mut player, &rolls);
    }
    assert_eq!(level.monsters[0].position, Point::new(46, 80));
    assert!(player.position.x >= 44);
    assert_eq!(player.position.y, 72);
    assert!(player.is_standing(&level));
}

#[test]
fn a_monster_that_blocks_monsters_is_in_the_way_of_the_others() {
    let mut level = level_with(
        &platform(),
        vec![
            monster(16, 72, Vec2::new(1000, 0), MonsterMovement::Moving, MonsterCollision::Deadly),
            monster(26, 72, Vec2::zero(), MonsterMovement::Moving, MonsterCollision::BlockingMonster),
        ],
    );
    let mut player = far_away();
    let rolls = vec![u32::MAX];
    level.update(&mut player, &rolls);
    assert_eq!(level.monsters[0].position, Point::new(17, 72));
    level.update(&mut player, &rolls);
    assert_eq!(level.monsters[0].position, Point::new(18, 72));
    level.update(&mut player, &rolls);
    assert_eq!(level.monsters[0].position, Point::new(18, 72));
    assert_eq!(level.monsters[0].velocity, Vec2::new(-1000, 0));
    assert_eq!(level.monsters[1].position, Point::new(26, 72));
    assert_eq!(level.monsters.len(), 2);
    assert_eq!(level.original_monsters[0].position, Point::new(16, 72));
}

#[test]
fn a_monster_that_blocks_the_player_lets_monsters_pass() {
    let mut level = level_with(
        &platform(),
        vec![
            monster(16, 72, Vec2::new(1000, 0), MonsterMovement::Moving, MonsterCollision::Deadly),
            monster(26, 72, Vec2::zero(), MonsterMovement::Moving, MonsterCollision::Blocking),
        ],
    );
    let mut player = far_away();
    let rolls = vec![u32::MAX];
    for _ in 0..4 {
        level.update(&mut player, &rolls);
    }
    assert_eq!(level.monsters[0].position, Point::new(20, 72));
}

#[test]
fn a_larger_monster_probes_its_own_corners() {
    let level = level_with(&[(8, 5, FULL)], vec![]);
    let mut player = far_away();
    let mut m =
        monster(40, 30, Vec2::new(3000, 0), MonsterMovement::Flying, MonsterCollision::Deadly);
    m.width = 24;
    m.height = 16;
    assert_eq!(m.rect().bottom_right(), Point::new(63, 45));
    m.update(&level, &mut player);
    // the bottom right corner meets the tile at column 64
    assert_eq!(m.position, Point::new(40, 30));
    assert_eq!(m.velocity.x, -3000);
    assert!(m.collision_at(&level, Point::new(41, 30)));
    assert!(!m.collision_at(&level, Point::new(41, 23)));
}

#[test]
fn cloned_monsters_are_equal() {
    let originals = vec![
        monster(1, 2, Vec2::new(3, 4), MonsterMovement::TurnsAtEdge, MonsterCollision::Blocking),
        monster(5, 6, Vec2::new(7, 8), MonsterMovement::Flying, MonsterCollision::Harmless),
    ];
    let copies = clone_monsters(&originals);
    assert_eq!(copies.len(), 2);
    for (a, b) in originals.iter().zip(copies.iter()) {
        assert_eq!(a.position, b.position);
        assert_eq!(a.velocity, b.velocity);
        assert_eq!(a.movement, b.movement);
        assert_eq!(a.collision, b.collision);
        assert_eq!(a.animation.sprites, b.animation.sprites);
        assert_eq!(a.reverse_animation.sprites, b.reverse_animation.sprites);
    }
}

#[test]
fn the_default_monster_is_no_monster_of_a_level() {
    let m = Monster::default();
    assert_eq!(m.position, Point::new(0, 0));
    assert_eq!(m.velocity, Vec2::zero());
    assert_eq!(m.collision, MonsterCollision::Harmless);
    assert_eq!((m.width, m.height), (0, 0));
    assert!(m.animation.sprites.is_empty());
    let level = Level::load_level(
        vec![0; 600],
        Color::Black,
        Color::White,
        1,
        Point::new(8, 8),
        0,
        200,
        vec![m],
    );
    assert!(level.is_none());
}

#[test]
fn the_animations_of_a_monster_from_its_first_sprite() {
    let (forward, reverse) = Monster::animations_for(64);
    assert_eq!(forward.sprites, vec![66, 67]);
    assert_eq!(reverse.sprites, vec![64, 65]);
    assert!(forward.looping && reverse.looping);
    assert_eq!(forward.time_per_frame, 10);
}
