use rust_sc2::bot::Bot;
use rust_sc2::geometry::Rect;
use rust_sc2::pixel_map::{ByteMap, PixelMap};
use rust_sc2::ramp::{closest_ramp, ramp_neighbors, Ramp};

/// An 8 by 8 map, walkable and not buildable everywhere, lower (10) in
/// columns 0 and 1 than elsewhere (20).
fn two_levels(area: Rect) -> Bot {
    let mut bot = Bot::new();
    bot.game_info.pathing_grid = PixelMap::from_image(8, 8, &[0xFF; 8]);
    bot.game_info.placement_grid = PixelMap::from_image(8, 8, &[0; 8]);
    let heights: Vec<u8> = (0..64).map(|i| if i % 8 <= 1 { 10 } else { 20 }).collect();
    bot.game_info.terrain_height = ByteMap::from_image(8, 8, &heights);
    bot.game_info.playable_area = area;
    bot
}

#[test]
fn ramp_points_lie_between_levels() {
    let bot = two_levels(Rect { x0: 1, y0: 1, x1: 4, y1: 4 });
    let (ramp, blockers) = bot.find_ramp_points();
    assert_eq!(ramp, vec![(1, 1), (1, 2), (1, 3), (2, 1), (2, 2), (2, 3)]);
    assert_eq!(blockers, vec![(3, 1), (3, 2), (3, 3)]);
}

#[test]
fn buildable_cells_are_no_ramp_points() {
    let mut bot = two_levels(Rect { x0: 1, y0: 1, x1: 4, y1: 4 });
    bot.game_info.placement_grid = PixelMap::from_image(8, 8, &[0xFF; 8]);
    let (ramp, blockers) = bot.find_ramp_points();
    assert!(ramp.is_empty());
    assert!(blockers.is_empty());
}

#[test]
fn ramps_group_points_beside_each_other() {
    let bot = two_levels(Rect { x0: 1, y0: 1, x1: 6, y1: 7 });
    let (points, _) = bot.find_ramp_points();
    assert_eq!(points.len(), 12);
    let ramps = bot.find_ramps(&points);
    assert_eq!(ramps.len(), 1);
    let ramp = &ramps[0];
    assert_eq!(ramp.points.len(), 12);
    let mut upper = ramp.upper();
    upper.sort();
    assert_eq!(upper, (1..7).map(|y| (2, y)).collect::<Vec<_>>());
    assert!(ramp.lower().iter().all(|p| p.0 == 1));
    assert_eq!(ramp.top_center(), Some((2, 3)));
    assert_eq!(ramp.bottom_center(), Some((1, 3)));
    // Too few points for a ramp.
    let small = two_levels(Rect { x0: 1, y0: 1, x1: 6, y1: 3 });
    let (few, _) = small.find_ramp_points();
    assert_eq!(few.len(), 4);
    assert!(small.find_ramps(&few).is_empty());
}

#[test]
fn ramp_neighbors_follow_the_cells_around() {
    let points = vec![(1, 1), (2, 2), (2, 1), (5, 5)];
    let n = ramp_neighbors(&points, 0);
    assert_eq!(n.iter().copied().collect::<Vec<u64>>(), vec![2, 1]);
    assert!(ramp_neighbors(&points, 3).is_empty());
    assert!(ramp_neighbors(&points, 9).is_empty());
}

#[test]
fn upper_and_lower_keep_the_extreme_heights() {
    let ramp = Ramp { points: vec![(1, 1), (2, 2), (3, 3), (4, 4)], heights: vec![5, 9, 1, 9] };
    assert_eq!(ramp.upper(), vec![(2, 2), (4, 4)]);
    assert_eq!(ramp.lower(), vec![(3, 3)]);
    assert_eq!(ramp.top_center(), Some((3, 3)));
    let empty = Ramp { points: vec![], heights: vec![] };
    assert!(empty.upper().is_empty());
    assert_eq!(empty.top_center(), None);
}

#[test]
fn closest_ramp_prefers_small_tops() {
    let a = Ramp { points: vec![(0, 0), (2, 0)], heights: vec![5, 5] };
    let b = Ramp { points: vec![(10, 10), (12, 10)], heights: vec![5, 5] };
    let four = Ramp { points: vec![(9, 9), (9, 10), (10, 9), (10, 10)], heights: vec![1, 1, 1, 1] };
    let ramps = vec![four.clone(), a.clone(), b.clone()];
    assert_eq!(closest_ramp(&ramps, (10, 9)), Some(2));
    assert_eq!(closest_ramp(&ramps, (1, 1)), Some(1));
    assert_eq!(closest_ramp(&[four.clone()], (0, 0)), Some(0));
    let six = Ramp { points: (0..6).map(|x| (x, 0)).collect(), heights: vec![1; 6] };
    assert_eq!(closest_ramp(&[six], (0, 0)), None);
}
