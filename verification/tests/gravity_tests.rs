use neat::gravity::{apply_force_pairs, grav_force, gravity_force_pairs};
use neat::math::Vec3;
use neat::world::{Body, World};

fn three_unit_masses() -> (World, Vec<(u32, usize)>) {
    let mut w = World::new();
    let h0 = w.add_body(Body::dynamic_at(Vec3::xyz(1000, 0, 0), 1000));
    let h1 = w.add_body(Body::dynamic_at(Vec3::xyz(0, 1000, 0), 1000));
    let h2 = w.add_body(Body::dynamic_at(Vec3::xyz(0, 0, 1000), 1000));
    (w, vec![(0, h0), (1, h1), (2, h2)])
}

#[test]
fn pair_force_matches_inverse_square_law() {
    // masses 1.0 at (1,0,0) and (0,1,0) under strength 1.0:
    // direction (-1,1,0)/sqrt(2), magnitude 1/2, so the force is
    // about (-0.354, 0.354, 0) -- (-353, 353, 0) in milli units.
    let f = grav_force(1000, Vec3::xyz(1000, 0, 0), Vec3::xyz(0, 1000, 0), 1000, 1000);
    assert_eq!(f, Vec3::xyz(-353, 353, 0));
}

#[test]
fn pair_forces_negate_each_other() {
    let pa = Vec3::xyz(1000, 0, 0);
    let pb = Vec3::xyz(0, 1000, 0);
    let fa = grav_force(1000, pa, pb, 1000, 1000);
    let fb = grav_force(1000, pb, pa, 1000, 1000);
    assert_eq!(fb, Vec3::xyz(-fa.x, -fa.y, -fa.z));
}

#[test]
fn three_movable_entities_make_three_pairs() {
    let (w, roots) = three_unit_masses();
    let pairs = gravity_force_pairs(&w, &roots, 1000);
    assert_eq!(pairs.len(), 3);
    assert_eq!((pairs[0].a_id, pairs[0].b_id), (0, 1));
    assert_eq!((pairs[1].a_id, pairs[1].b_id), (0, 2));
    assert_eq!((pairs[2].a_id, pairs[2].b_id), (1, 2));
    assert_eq!(pairs[0].force, Vec3::xyz(-353, 353, 0));
}

#[test]
fn static_pairs_are_skipped() {
    let mut w = World::new();
    let h0 = w.add_body(Body::dynamic_at(Vec3::xyz(1000, 0, 0), 1000));
    let h1 = w.add_body(Body::static_at(Vec3::xyz(0, 1000, 0)));
    let h2 = w.add_body(Body::static_at(Vec3::xyz(0, 0, 1000)));
    let roots = vec![(0u32, h0), (1u32, h1), (2u32, h2)];
    // the static/static and infinite-mass rules leave no pair at all
    let pairs = gravity_force_pairs(&w, &roots, 1000);
    assert_eq!(pairs.len(), 0);
}

#[test]
fn dead_handles_are_skipped() {
    let (mut w, roots) = three_unit_masses();
    w.remove_body(roots[2].1);
    let pairs = gravity_force_pairs(&w, &roots, 1000);
    assert_eq!(pairs.len(), 1);
    assert_eq!((pairs[0].a_id, pairs[0].b_id), (0, 1));
}

#[test]
fn coincident_bodies_get_zero_force() {
    let mut w = World::new();
    let h0 = w.add_body(Body::dynamic_at(Vec3::xyz(7, 7, 7), 1000));
    let h1 = w.add_body(Body::dynamic_at(Vec3::xyz(7, 7, 7), 1000));
    let roots = vec![(0u32, h0), (1u32, h1)];
    let pairs = gravity_force_pairs(&w, &roots, 1000);
    // the pair is still visited, with no force instead of a division
    // by zero
    assert_eq!(pairs.len(), 1);
    assert_eq!(pairs[0].force, Vec3::new());
}

#[test]
fn applying_pairs_accumulates_opposite_forces() {
    let (mut w, roots) = three_unit_masses();
    let pairs = gravity_force_pairs(&w, &roots, 1000);
    apply_force_pairs(&mut w, &pairs);
    let b0 = w.rigid_body(roots[0].1).unwrap();
    let b1 = w.rigid_body(roots[1].1).unwrap();
    let b2 = w.rigid_body(roots[2].1).unwrap();
    // every component cancels across the three bodies
    assert_eq!(b0.force.x + b1.force.x + b2.force.x, 0);
    assert_eq!(b0.force.y + b1.force.y + b2.force.y, 0);
    assert_eq!(b0.force.z + b1.force.z + b2.force.z, 0);
    // body 0 is pulled toward the other two
    assert_eq!(b0.force, Vec3::xyz(-353 + -353, 353, 353));
}

#[test]
fn negative_strength_repels() {
    let f = grav_force(-1000, Vec3::xyz(1000, 0, 0), Vec3::xyz(0, 1000, 0), 1000, 1000);
    assert_eq!(f, Vec3::xyz(353, -353, 0));
}

#[test]
fn larger_masses_pull_harder() {
    // masses 2.0 and 3.0 at distance 1: magnitude 6.0
    let f = grav_force(1000, Vec3::new(), Vec3::xyz(1000, 0, 0), 2000, 3000);
    assert_eq!(f, Vec3::xyz(6000, 0, 0));
}
