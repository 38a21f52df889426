use asteroids::fixed::SCALE;
use asteroids::object::{get_matrix_rotation, GameObject};
use asteroids::ship::{Asteroid, Bullet};
use asteroids::world::AsteroidCanvas;

fn asteroid_at(x: i64, y: i64, radius: i64) -> Asteroid {
    let mut a = Asteroid::new(radius);
    a.obj.position.x = x;
    a.obj.position.y = y;
    a
}

fn bullet_at(x: i64, y: i64) -> Bullet {
    let mut b = Bullet::new();
    b.0.position.x = x;
    b.0.position.y = y;
    b
}

#[test]
fn overlap_is_symmetric() {
    let a = asteroid_at(0, 0, 1_000_000).obj;
    let b = asteroid_at(700_000, 700_000, 1_000_000).obj;
    let c = asteroid_at(5_000_000, 0, 200_000).obj;
    assert_eq!(
        GameObject::does_overlap(&a, &b),
        GameObject::does_overlap(&b, &a)
    );
    assert_eq!(
        GameObject::does_overlap(&a, &c),
        GameObject::does_overlap(&c, &a)
    );
}

#[test]
fn overlap_boundary_counts() {
    // Distance exactly equal to the radius sum: the closed boundary overlaps.
    let centre = bullet_at(0, 0).0;
    let touching = asteroid_at(0, 1_000_000, 1_000_000).obj;
    let apart = asteroid_at(0, 1_000_001, 1_000_000).obj;
    assert!(GameObject::does_overlap(&centre, &touching));
    assert!(!GameObject::does_overlap(&centre, &apart));
}

#[test]
fn rotation_matrix_has_exact_table_values() {
    let m = get_matrix_rotation(30);
    assert_eq!(m.c1.x, 500_000); // sin 30
    assert_eq!(m.c0.x, 866_025); // cos 30
    assert_eq!(m.c0.y, -500_000);
    assert_eq!(m.c2.z, SCALE);
    let m90 = get_matrix_rotation(90);
    assert_eq!(m90.c1.x, 1_000_000); // sin 90
    assert_eq!(m90.c1.y, 0); // cos 90
}

#[test]
fn spawn_fills_one_per_tick_up_to_twenty() {
    let mut w = AsteroidCanvas::new();
    for tick in 0..25u64 {
        w.spawn_step();
        let expected = if tick < 20 { tick as usize + 1 } else { 20 };
        assert_eq!(w.asteroids.len(), expected);
    }
    assert_eq!(w.max_asteroid_id, 20);
}

#[test]
fn spawned_asteroid_is_in_documented_ranges() {
    let mut w = AsteroidCanvas::new();
    w.spawn_step();
    let (id, a) = w.asteroids[0];
    assert_eq!(id, 1);
    assert_eq!(a.obj.radius, 1_000_000);
    assert!(a.obj.position.x == 8_000_000 || a.obj.position.x == -8_000_000);
    assert!(a.obj.position.y == 5_000_000 || a.obj.position.y == -5_000_000);
    assert!(a.obj.speed >= 800 && a.obj.speed < 1500);
    assert!(a.obj.direction.x >= 1_000_000 && a.obj.direction.x < 100_000_000);
    assert!(a.obj.direction.y >= 1_000_000 && a.obj.direction.y < 100_000_000);
    assert!(a.obj.angle < 360);
}

#[test]
fn bullet_destroys_at_most_one_of_three_overlapping_asteroids() {
    let mut w = AsteroidCanvas::new();
    w.asteroids.push((1, asteroid_at(0, 500_000, 1_000_000)));
    w.asteroids.push((2, asteroid_at(0, -500_000, 1_000_000)));
    w.asteroids.push((3, asteroid_at(500_000, 0, 1_000_000)));
    w.max_asteroid_id = 3;
    w.bullets.push(bullet_at(0, 0));

    let (notes, destroyed) = w.collision_step();
    assert_eq!(w.score, 1);
    assert_eq!(notes, vec![1]);
    assert_eq!(destroyed, vec![1]); // the first overlapping asteroid, no other
    assert_eq!(w.bullets.len(), 0); // the bullet is consumed
    assert_eq!(w.asteroids.len(), 3); // removal happens in a later phase
}

#[test]
fn each_collision_scores_one_point_in_order() {
    let mut w = AsteroidCanvas::new();
    w.score = 7;
    w.asteroids.push((1, asteroid_at(0, 0, 1_000_000)));
    w.asteroids.push((2, asteroid_at(4_000_000, 0, 1_000_000)));
    w.max_asteroid_id = 2;
    w.bullets.push(bullet_at(0, 0));
    w.bullets.push(bullet_at(4_000_000, 0));

    let (notes, destroyed) = w.collision_step();
    assert_eq!(w.score, 9);
    assert_eq!(notes, vec![8, 9]);
    assert_eq!(destroyed, vec![1, 2]);
}

#[test]
fn splitting_gives_two_to_four_children_with_divided_radius() {
    let mut w = AsteroidCanvas::new();
    w.asteroids.push((1, asteroid_at(0, 0, 1_000_000)));
    w.max_asteroid_id = 1;
    w.bullets.push(bullet_at(0, 0));

    let (_, destroyed) = w.collision_step();
    assert_eq!(destroyed, vec![1]);
    w.split_step(&destroyed);

    let children = w.asteroids.len() - 1;
    assert!((2..=4).contains(&children));
    assert_eq!(w.max_asteroid_id, 1 + children as u64);
    for k in 0..children {
        let (id, c) = w.asteroids[1 + k];
        assert_eq!(id, 1 + k as u64 + 1);
        assert_eq!(c.obj.radius, 1_000_000 / children as i64);
        assert_eq!(c.obj.position.x, 0);
        assert_eq!(c.obj.position.y, 0);
        assert!(c.obj.speed >= 1000 && c.obj.speed < 5000);
        assert!(c.obj.direction.x >= 1_000_000 && c.obj.direction.x < 100_000_000);
        assert!(c.obj.angle < 360);
    }

    // The removal batch drops the destroyed parent and keeps the children.
    w.despawn_asteroids_step(&destroyed);
    assert_eq!(w.asteroids.len(), children);
    assert!(w.asteroids.iter().all(|(id, _)| *id != 1));
}

#[test]
fn small_asteroids_do_not_split() {
    let mut w = AsteroidCanvas::new();
    w.asteroids.push((1, asteroid_at(0, 0, 300_000)));
    w.max_asteroid_id = 1;
    w.bullets.push(bullet_at(0, 0));

    let (_, destroyed) = w.collision_step();
    assert_eq!(destroyed, vec![1]);
    w.split_step(&destroyed);
    assert_eq!(w.asteroids.len(), 1); // no children
    w.despawn_asteroids_step(&destroyed);
    assert_eq!(w.asteroids.len(), 0);
}

#[test]
fn out_of_range_asteroids_vanish_without_children() {
    let mut w = AsteroidCanvas::new();
    w.asteroids.push((1, asteroid_at(0, 8_000_001, 1_000_000)));
    w.asteroids.push((2, asteroid_at(11_000_001, 0, 1_000_000)));
    w.asteroids.push((3, asteroid_at(0, 0, 1_000_000)));
    w.max_asteroid_id = 3;

    let none: Vec<u64> = Vec::new();
    w.despawn_asteroids_step(&none);
    assert_eq!(w.asteroids.len(), 1);
    assert_eq!(w.asteroids[0].0, 3);
}

#[test]
fn thrust_tick_accelerates_then_drags() {
    // Ship at the origin, angle 0, forward thrust held for one 16 ms tick:
    // speed gains one step, the heading is recomputed as "up", the position
    // integrates before drag, and drag then scales the speed by nine tenths.
    let mut w = AsteroidCanvas::new();
    w.input.keyboard_w = true;
    let notes = w.update(16);
    assert!(notes.is_empty());
    assert_eq!(w.ship.obj.speed, 90); // (0 + 100) * 9 / 10
    assert_eq!(w.ship.obj.direction.x, 0);
    assert_eq!(w.ship.obj.direction.y, 1_000_000);
    assert_eq!(w.ship.obj.position.x, 0);
    assert_eq!(w.ship.obj.position.y, 1600); // 100 micro-units/ms for 16 ms
}

#[test]
fn rotate_keys_step_five_degrees_per_tick() {
    let mut w = AsteroidCanvas::new();
    w.input.keyboard_d = true;
    w.apply_input();
    assert_eq!(w.ship.obj.angle, 5);
    w.input.keyboard_d = false;
    w.input.keyboard_a = true;
    w.apply_input();
    w.apply_input();
    assert_eq!(w.ship.obj.angle, 355);
}

#[test]
fn bullet_beyond_vertical_bound_despawns() {
    // |12 / 11| + 0.6 > 1, so a bullet at y = 12 units is removed.
    let mut w = AsteroidCanvas::new();
    w.bullets.push(bullet_at(0, 12_000_000));
    w.despawn_bullets_step();
    assert_eq!(w.bullets.len(), 0);

    // One safely inside the bounds stays.
    w.bullets.push(bullet_at(0, 4_000_000));
    w.despawn_bullets_step();
    assert_eq!(w.bullets.len(), 1);
}

#[test]
fn ship_wraps_to_opposite_edge() {
    // |9 / 11| + 0.6 > 1, so a ship at y = 9 units flips to y = -9.
    let mut w = AsteroidCanvas::new();
    w.ship.obj.position.y = 9_000_000;
    w.update(16);
    assert_eq!(w.ship.obj.position.y, -9_000_000);
    assert_eq!(w.ship.obj.position.x, 0);
}

#[test]
fn fire_control_respects_cooldown() {
    let mut w = AsteroidCanvas::new();
    w.input.spacebar = true;
    w.ship.last_shot = 300;
    w.fire_step();
    assert_eq!(w.bullets.len(), 0); // exactly the cooldown is not enough

    w.ship.last_shot = 301;
    w.fire_step();
    assert_eq!(w.bullets.len(), 1);
    assert_eq!(w.ship.last_shot, 0);
    let b = w.bullets[0];
    assert_eq!(b.0.speed, 10_000);
    assert_eq!(b.0.position.x, w.ship.obj.position.x);
    assert_eq!(b.0.angle, w.ship.obj.angle);

    w.fire_step();
    assert_eq!(w.bullets.len(), 1); // cooldown restarted
}

#[test]
fn score_is_monotone_and_ids_are_never_reused() {
    let mut w = AsteroidCanvas::new();
    w.input.spacebar = true;
    let mut last_score = 0u64;
    let mut seen_max = 0u64;
    for _ in 0..40 {
        let before: Vec<u64> = w.asteroids.iter().map(|(id, _)| *id).collect();
        let prev_max = w.max_asteroid_id;
        let notes = w.update(100);
        assert_eq!(w.score, last_score + notes.len() as u64);
        assert!(w.score >= last_score);
        last_score = w.score;
        assert!(w.max_asteroid_id >= prev_max);
        for (id, _) in w.asteroids.iter() {
            assert!(before.contains(id) || *id > prev_max);
            assert!(*id <= w.max_asteroid_id);
        }
        // Ids stay strictly increasing along the arena.
        for pair in w.asteroids.windows(2) {
            assert!(pair[0].0 < pair[1].0);
        }
        assert!(w.max_asteroid_id >= seen_max);
        seen_max = w.max_asteroid_id;
    }
}

#[test]
fn spawn_step_never_pushes_past_twenty_by_itself() {
    let mut w = AsteroidCanvas::new();
    for _ in 0..30 {
        let before = w.asteroids.len();
        w.spawn_step();
        assert!(w.asteroids.len() <= 20 || w.asteroids.len() == before);
    }
}

#[test]
fn full_tick_resolves_a_collision() {
    let mut w = AsteroidCanvas::new();
    w.asteroids.push((1, asteroid_at(0, 0, 1_000_000)));
    w.max_asteroid_id = 1;
    w.bullets.push(bullet_at(0, 0));

    let notes = w.update(16);
    assert_eq!(notes, vec![1]);
    assert_eq!(w.score, 1);
    assert_eq!(w.bullets.len(), 0);
    // The destroyed asteroid is gone; its children and the tick's one
    // spawned asteroid remain.
    assert!(w.asteroids.iter().all(|(id, _)| *id != 1));
    let children = w.asteroids.len() - 1;
    assert!((2..=4).contains(&children));
}

#[test]
fn tick_consumes_one_bullet_on_three_small_overlapping_asteroids() {
    // One bullet over three overlapping asteroids, all too small to split:
    // exactly one asteroid is destroyed, the bullet is consumed, the score
    // gains one point, and no children appear.
    let mut w = AsteroidCanvas::new();
    w.asteroids.push((1, asteroid_at(0, 100_000, 300_000)));
    w.asteroids.push((2, asteroid_at(0, -100_000, 300_000)));
    w.asteroids.push((3, asteroid_at(100_000, 0, 300_000)));
    w.max_asteroid_id = 3;
    w.bullets.push(bullet_at(0, 0));

    let notes = w.update(16);
    assert_eq!(notes, vec![1]);
    assert_eq!(w.score, 1);
    assert_eq!(w.bullets.len(), 0);
    assert!(w.asteroids.iter().all(|(id, _)| *id != 1));
    assert!(w.asteroids.iter().any(|(id, _)| *id == 2));
    assert!(w.asteroids.iter().any(|(id, _)| *id == 3));
    assert_eq!(w.asteroids.len(), 3); // two survivors plus the tick's refill
    assert_eq!(w.max_asteroid_id, 4); // only the refill took a fresh id
}

#[test]
fn tick_removes_out_of_range_asteroids_without_children() {
    let mut w = AsteroidCanvas::new();
    for _ in 0..20 {
        w.spawn_step();
    }
    // A straggler beyond the vertical range; the field is at its cap, so
    // the tick spawns nothing and only the straggler leaves.
    w.asteroids.push((21, asteroid_at(0, 9_000_000, 1_000_000)));
    w.max_asteroid_id = 21;

    let notes = w.update(16);
    assert!(notes.is_empty());
    assert_eq!(w.asteroids.len(), 20);
    assert!(w.asteroids.iter().all(|(id, _)| *id != 21));
    assert_eq!(w.max_asteroid_id, 21);
}
