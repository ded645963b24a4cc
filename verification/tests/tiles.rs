use blutti::animation::Animation;
use blutti::collision::Collision;
use blutti::drawing::Color;
use blutti::level::Level;
use blutti::monster::{Monster, MonsterCollision, MonsterMovement};
use blutti::point_math::Point;
use blutti::rect::Rect;
use blutti::tile_collider::TileCollider;
use blutti::vec2::Vec2;

fn level_with(placed: &[(usize, usize, i32)], monsters: Vec<Monster>) -> Level {
    let mut tiles = vec![0; 600];
    for &(column, row, tile) in placed {
        tiles[row * 30 + column] = tile;
    }
    Level::load_level(tiles, Color::Black, Color::White, 1, Point::new(8, 8), 0, 200, monsters)
        .unwrap()
}

fn monster(x: i32, y: i32, collision: MonsterCollision) -> Monster {
    Monster::new(
        Point::new(x, y),
        Vec2::zero(),
        MonsterMovement::Moving,
        collision,
        false,
        8,
        8,
        Animation::looping(vec![32, 33], 10),
        Animation::looping(vec![34, 35], 10),
    )
}

#[test]
fn collider_table() {
    assert_eq!(TileCollider::for_sprite(0), TileCollider::Vacant);
    assert_eq!(TileCollider::for_sprite(3), TileCollider::Full);
    assert_eq!(TileCollider::for_sprite(8), TileCollider::Full);
    assert_eq!(TileCollider::for_sprite(9), TileCollider::Climbable);
    assert_eq!(TileCollider::for_sprite(10), TileCollider::Star);
    assert_eq!(TileCollider::for_sprite(11), TileCollider::ExtraLife);
    assert_eq!(TileCollider::for_sprite(12), TileCollider::Exit);
    assert_eq!(TileCollider::for_sprite(13), TileCollider::Vacant);
    assert_eq!(TileCollider::for_sprite(14), TileCollider::Deadly);
    assert_eq!(TileCollider::for_sprite(22), TileCollider::Deadly);
    assert_eq!(TileCollider::for_sprite(25), TileCollider::Slippery);
    assert_eq!(TileCollider::for_sprite(37), TileCollider::Deadly);
    assert_eq!(TileCollider::for_sprite(55), TileCollider::Climbable);
    assert_eq!(TileCollider::for_sprite(58), TileCollider::Conveyor);
    assert_eq!(TileCollider::for_sprite(60), TileCollider::Conveyor);
    assert_eq!(TileCollider::for_sprite(61), TileCollider::Exit);
    assert_eq!(TileCollider::for_sprite(62), TileCollider::Vacant);
    assert_eq!(TileCollider::for_sprite(255), TileCollider::Vacant);
}

#[test]
fn footing_and_freedom_of_each_kind() {
    let solid = [TileCollider::Full, TileCollider::Slippery, TileCollider::Conveyor];
    for kind in solid {
        assert!(!kind.is_free());
        assert!(!kind.is_empty());
    }
    assert!(TileCollider::Climbable.is_free());
    assert!(!TileCollider::Climbable.is_empty());
    let open = [
        TileCollider::Vacant,
        TileCollider::Collectible(5),
        TileCollider::Star,
        TileCollider::ExtraLife,
        TileCollider::Deadly,
        TileCollider::Exit,
    ];
    for kind in open {
        assert!(kind.is_free());
        assert!(kind.is_empty());
    }
}

#[test]
fn collision_at_position_reads_the_grid() {
    let level = level_with(&[(2, 3, 4), (4, 3, 11)], vec![]);
    assert_eq!(level.collision_at_position(Point::new(0, 0)), None);
    assert_eq!(
        level.collision_at_position(Point::new(17, 25)),
        Some(Collision { tile_collider: TileCollider::Full, position: Point::new(17, 25) })
    );
    assert_eq!(level.collision(Point::new(32, 24)), TileCollider::Star);
    assert_eq!(level.collision(Point::new(0, 0)), TileCollider::Vacant);
    assert!(level.is_tile_free(Point::new(32, 24)));
    assert!(!level.is_tile_free(Point::new(16, 24)));
    assert!(!level.is_tile_empty(Point::new(16, 24)));
}

#[test]
fn outside_the_grid_is_solid() {
    let level = level_with(&[], vec![]);
    assert_eq!(level.collision(Point::new(0, 160)), TileCollider::Full);
    assert_eq!(level.collision(Point::new(0, -8)), TileCollider::Full);
    assert!(!level.is_tile_free(Point::new(100, 400)));
    // a column right of the screen reads the start of the next row
    assert_eq!(level.collision(Point::new(240, 0)), TileCollider::Vacant);
}

#[test]
fn all_collisions_probe_the_four_corners() {
    let level = level_with(&[(1, 1, 11), (2, 2, 12)], vec![]);
    let found = level.all_collisions_at_rect(Point::new(12, 12));
    assert_eq!(
        found,
        [
            Some(Collision { tile_collider: TileCollider::Star, position: Point::new(12, 12) }),
            None,
            None,
            Some(Collision {
                tile_collider: TileCollider::ExtraLife,
                position: Point::new(19, 19)
            }),
        ]
    );
    assert_eq!(level.last_collision_at_rect(Point::new(12, 12)), found[3]);
    assert_eq!(level.last_collision_at_rect(Point::new(8, 8)), Some(Collision {
        tile_collider: TileCollider::Star,
        position: Point::new(15, 15)
    }));
    assert_eq!(level.last_collision_at_rect(Point::new(100, 100)), None);
}

#[test]
fn remove_tile_empties_one_tile() {
    let mut level = level_with(&[(1, 1, 11), (2, 1, 11)], vec![]);
    level.remove_tile(Point::new(15, 15));
    assert_eq!(level.tiles[31], 0);
    assert_eq!(level.tiles[32], 11);
    assert_eq!(level.collision(Point::new(8, 8)), TileCollider::Vacant);
}

#[test]
fn monsters_are_found_by_position_and_kind() {
    let level = level_with(
        &[],
        vec![
            monster(16, 16, MonsterCollision::Blocking),
            monster(20, 16, MonsterCollision::Deadly),
            monster(100, 100, MonsterCollision::Harmless),
        ],
    );
    let found = level.monsters_at_position(Point::new(21, 17));
    assert_eq!(found.len(), 2);
    assert_eq!(found[0].position, Point::new(16, 16));
    assert_eq!(found[1].position, Point::new(20, 16));
    assert!(level.monsters_at_position(Point::new(50, 50)).is_empty());
    assert!(level.is_blocked_by_monster(Point::new(21, 17), MonsterCollision::Blocking));
    assert!(!level.is_blocked_by_monster(Point::new(25, 17), MonsterCollision::Blocking));
    assert!(!level.is_blocked_by_monster(Point::new(21, 17), MonsterCollision::BlockingMonster));
    assert!(level.deadly_monsters_overlapping_rect(Rect::from(Point::new(22, 18))));
    assert!(!level.deadly_monsters_overlapping_rect(Rect::from(Point::new(10, 10))));
    assert!(!level.deadly_monsters_overlapping_rect(Rect::from(Point::new(100, 100))));
}

#[test]
fn load_level_rejects_what_does_not_fit() {
    let mut tiles = vec![0; 600];
    tiles[5] = 257;
    assert!(Level::load_level(
        tiles,
        Color::Black,
        Color::White,
        1,
        Point::new(8, 8),
        0,
        200,
        vec![]
    )
    .is_none());
    assert!(Level::load_level(
        vec![-1],
        Color::Black,
        Color::White,
        1,
        Point::new(8, 8),
        0,
        200,
        vec![]
    )
    .is_none());
    assert!(Level::load_level(
        vec![0; 600],
        Color::Black,
        Color::White,
        1,
        Point::new(8, 2_000_000),
        0,
        200,
        vec![]
    )
    .is_none());
    let mut bad = monster(0, 0, MonsterCollision::Harmless);
    bad.width = 0;
    assert!(Level::load_level(
        vec![0; 600],
        Color::Black,
        Color::White,
        1,
        Point::new(8, 8),
        0,
        200,
        vec![bad]
    )
    .is_none());
    let level = level_with(&[(0, 0, 256)], vec![monster(8, 8, MonsterCollision::Deadly)]);
    assert_eq!(level.original_monsters.len(), 1);
    assert_eq!(level.original_monsters[0].position, Point::new(8, 8));
    assert!(level.particles.is_empty());
}

#[test]
fn reset_restores_the_monsters_only() {
    let mut level = level_with(&[(1, 1, 11)], vec![monster(16, 16, MonsterCollision::Deadly)]);
    level.monsters[0].position = Point::new(90, 90);
    level.remove_tile(Point::new(8, 8));
    level.reset();
    assert_eq!(level.monsters[0].position, Point::new(16, 16));
    assert_eq!(level.tiles[31], 0);
}

#[test]
fn number_to_load_wraps_to_the_start() {
    assert_eq!(Level::number_to_load(3, 6), 3);
    assert_eq!(Level::number_to_load(6, 6), 1);
    assert_eq!(Level::number_to_load(9, 6), 1);
    assert_eq!(Level::number_to_load(0, 6), 0);
}

#[test]
fn a_clone_of_a_level_is_equal() {
    let mut level = level_with(&[(1, 1, 11)], vec![monster(16, 16, MonsterCollision::Deadly)]);
    level.monsters[0].position = Point::new(20, 20);
    let copy = level.clone();
    assert_eq!(copy.tiles, level.tiles);
    assert_eq!(copy.stars, level.stars);
    assert_eq!(copy.start_position, level.start_position);
    assert_eq!(copy.monsters[0].position, Point::new(20, 20));
    assert_eq!(copy.original_monsters[0].position, Point::new(16, 16));
    assert_eq!(copy.background_color, level.background_color);
    assert!(copy.is_wf());
}
