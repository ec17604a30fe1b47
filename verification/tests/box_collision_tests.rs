use hecs_arkanoid::collision::{
    check_for_collisions, do_impassable_collisions, Aabb, Collision, Tlbr,
};
use hecs_arkanoid::components::Vec2;

fn aabb(x: i32, y: i32, w: i32, h: i32) -> Aabb {
    Aabb::new(Vec2::new(x, y), Vec2::new(w, h))
}

fn hit(a: u64, b: u64) -> Collision {
    Collision { a_id: a, b_id: b }
}

#[test]
fn boxes_and_their_corners() {
    let b = aabb(3, 4, 10, 20);
    assert_eq!(b.pos, Vec2::new(3, 4));
    assert_eq!(b.size, Vec2::new(10, 20));
    let bounds = b.get_bounds();
    assert_eq!(bounds, Tlbr::new(Vec2::new(3, 4), Vec2::new(13, 24)));
    assert_eq!(bounds.get_aabb(), b);
    assert_eq!(b.center(), Vec2::new(8, 14));
    assert_eq!(bounds.center(), Vec2::new(8, 14));
    assert_eq!(aabb(0, 0, 5, -5).center(), Vec2::new(2, -2));
    assert_eq!(Tlbr::new(Vec2::new(-3, -4), Vec2::new(0, 1)).center(), Vec2::new(-1, -1));
}

#[test]
fn corners_stay_in_the_reach_of_the_integers() {
    let b = aabb(i32::MAX, i32::MIN, i32::MAX, i32::MIN);
    assert_eq!(b.get_bounds().br, Vec2::new(i32::MAX, i32::MIN));
    assert_eq!(b.center(), Vec2::new(i32::MAX, i32::MIN));
    let t = Tlbr::new(Vec2::new(i32::MIN, i32::MAX), Vec2::new(i32::MAX, i32::MIN));
    assert_eq!(t.get_aabb().size, Vec2::new(i32::MAX, i32::MIN));
    assert_eq!(t.center(), Vec2::new(0, 0));
}

#[test]
fn boxes_that_share_an_edge_intersect() {
    let a = aabb(0, 0, 10, 10);
    assert!(a.intersects(&aabb(10, 0, 5, 5)));
    assert!(a.intersects(&aabb(5, 5, 1, 1)));
    assert!(a.intersects(&aabb(-5, -5, 5, 5)));
    assert!(!a.intersects(&aabb(11, 0, 5, 5)));
    assert!(!a.intersects(&aabb(0, 11, 5, 5)));
    assert!(!a.intersects(&aabb(-6, 0, 5, 5)));
    assert!(a.get_bounds().intersects(&aabb(10, 10, 5, 5).get_bounds()));
    assert!(!a.get_bounds().intersects(&aabb(10, 11, 5, 5).get_bounds()));
    assert!(aabb(i32::MAX, 0, i32::MAX, 1).intersects(&aabb(i32::MAX, 0, 1, 1)));
}

#[test]
fn a_free_box_moves_by_its_velocity() {
    let shape = aabb(0, 0, 10, 10);
    let result = do_impassable_collisions(1, shape, Vec2::new(5, -3), Vec::new());
    assert_eq!(result.next_pos, Vec2::new(5, -3));
    assert_eq!(result.next_vel, Vec2::new(5, -3));
    assert!(result.collision_events.is_empty());

    let only_itself = vec![(1, shape)];
    let result = do_impassable_collisions(1, shape, Vec2::new(5, -3), only_itself);
    assert_eq!(result.next_pos, Vec2::new(5, -3));

    let far = vec![(1, shape), (2, aabb(100, 100, 10, 10))];
    let result = do_impassable_collisions(1, shape, Vec2::new(5, -3), far);
    assert_eq!(result.next_pos, Vec2::new(5, -3));
    assert_eq!(result.next_vel, Vec2::new(5, -3));
    assert!(result.collision_events.is_empty());
}

#[test]
fn a_box_moving_right_stops_at_the_first_left_edge() {
    let shape = aabb(0, 0, 10, 10);
    let shapes = vec![
        (2, aabb(14, 0, 10, 10)),
        (1, shape),
        (3, aabb(12, 5, 10, 10)),
        (4, aabb(12, -5, 10, 10)),
        (5, aabb(12, 0, 1, 1)),
        (6, aabb(40, 0, 10, 10)),
    ];
    let result = do_impassable_collisions(1, shape, Vec2::new(5, 0), shapes);
    assert_eq!(result.next_pos, Vec2::new(2, 0));
    assert_eq!(result.next_vel, Vec2::new(0, 0));
    assert_eq!(result.collision_events, vec![hit(1, 4), hit(1, 5)]);
}

#[test]
fn a_box_moving_left_stops_at_the_first_right_edge() {
    let shape = aabb(0, 0, 10, 10);
    let shapes = vec![
        (2, aabb(-20, 0, 16, 10)),
        (3, aabb(-12, 5, 10, 10)),
        (4, aabb(-3, -5, 1, 10)),
        (5, aabb(-30, 0, 10, 10)),
    ];
    let result = do_impassable_collisions(1, shape, Vec2::new(-5, 7), shapes);
    // along x the boxes 2, 3 and 4 are in the way; the right edge of 3 and of 4 is nearest
    assert_eq!(result.next_pos, Vec2::new(-2, 0));
    assert_eq!(result.next_vel, Vec2::new(0, 7));
    assert_eq!(result.collision_events, vec![hit(1, 4)]);
}

#[test]
fn a_box_moving_down_and_up_stops_at_the_first_edge() {
    let shape = aabb(0, 0, 10, 10);
    let below = vec![(2, aabb(0, 13, 10, 10)), (3, aabb(5, 13, 10, 2))];
    let result = do_impassable_collisions(1, shape, Vec2::new(0, 4), below.clone());
    assert_eq!(result.next_pos, Vec2::new(0, 3));
    assert_eq!(result.next_vel, Vec2::new(0, 0));
    assert_eq!(result.collision_events, vec![hit(1, 3)]);

    let result = do_impassable_collisions(1, shape, Vec2::new(0, 2), below);
    assert_eq!(result.next_pos, Vec2::new(0, 2));
    assert!(result.collision_events.is_empty());

    let above = vec![(2, aabb(0, -20, 10, 17)), (3, aabb(0, -20, 10, 10))];
    let result = do_impassable_collisions(1, shape, Vec2::new(3, -4), above);
    assert_eq!(result.next_pos, Vec2::new(0, -3));
    assert_eq!(result.next_vel, Vec2::new(3, 0));
    assert!(result.collision_events.is_empty());
}

#[test]
fn a_box_at_rest_collides_with_all_it_touches() {
    let shape = aabb(0, 0, 10, 10);
    let shapes = vec![(2, aabb(5, 5, 10, 10)), (1, shape), (3, aabb(-5, -5, 5, 5)), (4, aabb(50, 0, 1, 1))];
    let result = do_impassable_collisions(1, shape, Vec2::new(0, 0), shapes);
    assert_eq!(result.next_pos, Vec2::new(0, 0));
    assert_eq!(result.next_vel, Vec2::new(0, 0));
    assert_eq!(result.collision_events, vec![hit(1, 2), hit(1, 3), hit(1, 2), hit(1, 3)]);
}

#[test]
fn a_blocked_axis_keeps_the_box_on_the_free_axis_too() {
    let shape = aabb(0, 0, 10, 10);
    let shapes = vec![(2, aabb(12, 0, 10, 10))];
    let result = do_impassable_collisions(1, shape, Vec2::new(5, 30), shapes);
    assert_eq!(result.next_pos, Vec2::new(2, 0));
    assert_eq!(result.next_vel, Vec2::new(0, 30));
    assert!(result.collision_events.is_empty());
}

#[test]
fn places_stay_in_the_reach_of_the_integers() {
    let shape = aabb(i32::MAX, i32::MIN, 10, 10);
    let result = do_impassable_collisions(1, shape, Vec2::new(i32::MAX, i32::MIN), Vec::new());
    assert_eq!(result.next_pos, Vec2::new(i32::MAX, i32::MIN));
    let shapes = vec![(2, aabb(i32::MIN, 0, 5, 5))];
    let shape = aabb(i32::MIN, 0, i32::MAX, 5);
    let result = do_impassable_collisions(1, shape, Vec2::new(1, 0), shapes);
    assert_eq!(result.next_pos, Vec2::new(i32::MIN, 0));
    assert_eq!(result.next_vel, Vec2::new(0, 0));
}

#[test]
fn collisions_where_the_box_stands() {
    let shape = aabb(0, 0, 10, 10);
    assert!(check_for_collisions(1, shape, Vec::new()).is_empty());
    assert!(check_for_collisions(1, shape, vec![(1, shape)]).is_empty());
    let shapes = vec![
        (1, shape),
        (2, aabb(10, 10, 1, 1)),
        (3, aabb(11, 0, 1, 1)),
        (4, aabb(3, 3, 1, 1)),
    ];
    assert_eq!(check_for_collisions(1, shape, shapes), vec![hit(1, 2), hit(1, 4)]);
}
