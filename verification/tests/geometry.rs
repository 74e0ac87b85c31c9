use marauder::rect::DirtyRect;
use marauder::smoother::{footprint, make_segment, radius, smooth_all, Anchor, Sample, Smoother};

fn sample(x: i32, y: i32, pressure: i32) -> Sample {
    Sample { x, y, pressure, tilt: None }
}

fn area(left: i32, top: i32, width: u32, height: u32) -> DirtyRect {
    DirtyRect::Area { left, top, width, height }
}

#[test]
fn invalid_is_the_identity_of_merge() {
    let r = area(3, 4, 10, 20);
    assert_eq!(DirtyRect::invalid().merge(&r), r);
    assert_eq!(r.merge(&DirtyRect::invalid()), r);
    assert_eq!(DirtyRect::invalid().merge(&DirtyRect::invalid()), DirtyRect::Invalid);
    assert!(!DirtyRect::invalid().is_valid());
    assert!(r.is_valid());
}

#[test]
fn merge_gives_the_smallest_cover() {
    let a = area(0, 0, 10, 10);
    let b = area(5, -5, 20, 8);
    let m = a.merge(&b);
    assert_eq!(m, area(0, -5, 25, 15));
    assert!(m.contains_point(0, 10));
    assert!(m.contains_point(25, -5));
    assert!(!m.contains_point(26, 0));
    assert!(!m.contains_point(0, 11));
}

#[test]
fn merge_is_commutative_and_associative() {
    let a = area(-7, 2, 3, 3);
    let b = area(10, 10, 1, 1);
    let c = area(0, -20, 5, 100);
    assert_eq!(a.merge(&b), b.merge(&a));
    assert_eq!(a.merge(&b).merge(&c), a.merge(&b.merge(&c)));
    assert_eq!(a.merge(&b).merge(&c), area(-7, -20, 18, 100));
}

#[test]
fn merge_at_the_edges_of_the_range() {
    let a = area(i32::MIN, i32::MIN, 0, 0);
    let b = area(i32::MAX, i32::MAX, 0, 0);
    assert_eq!(a.merge(&b), area(i32::MIN, i32::MIN, u32::MAX, u32::MAX));
}

#[test]
fn spanning_orders_its_corners() {
    assert_eq!(DirtyRect::spanning(5, 9, 1, 2), area(1, 2, 4, 7));
    assert_eq!(DirtyRect::spanning(1, 2, 1, 2), area(1, 2, 0, 0));
    assert!(DirtyRect::spanning(1, 2, 1, 2).contains_point(1, 2));
}

#[test]
fn radius_is_multiplier_times_pressure() {
    assert_eq!(radius(2, 2000), 4000);
    assert_eq!(radius(50, 4095), 204750);
    assert_eq!(radius(u32::MAX, i32::MIN), -(u32::MAX as i64) * (1i64 << 31));
    assert_eq!(radius(7, 0), 0);
}

#[test]
fn segment_of_three_samples() {
    let seg = make_segment(&sample(0, 0, 1000), 2, &sample(10, 4, 2000), 3, &sample(20, 0, 3000), 4);
    assert_eq!(seg.start, Anchor { x2: 30, y2: 4, width: 12000 + 6000 });
    assert_eq!(seg.control, Anchor { x2: 20, y2: 8, width: 12000 });
    assert_eq!(seg.end, Anchor { x2: 10, y2: 4, width: 6000 + 2000 });
    assert_eq!(seg.footprint, area(0, 0, 20, 4));
}

#[test]
fn footprint_holds_all_three_samples() {
    let r = footprint(&sample(5, -3, 0), &sample(-2, 8, 0), &sample(1, 1, 0));
    assert_eq!(r, area(-2, -3, 7, 11));
}

#[test]
fn smoother_emits_nothing_before_the_third_sample() {
    let mut s = Smoother::new();
    assert!(s.push(sample(0, 0, 100), 2).is_none());
    assert_eq!(s.len(), 1);
    assert!(s.push(sample(1, 1, 100), 2).is_none());
    assert_eq!(s.len(), 2);
    let seg = s.push(sample(2, 2, 100), 2);
    assert!(seg.is_some());
    assert_eq!(s.len(), 2);
    assert!(s.push(sample(3, 3, 100), 2).is_some());
    assert_eq!(s.len(), 2);
}

#[test]
fn clearing_drops_the_waiting_samples() {
    let mut s = Smoother::new();
    assert!(s.push(sample(0, 0, 100), 2).is_none());
    assert!(s.push(sample(1, 1, 100), 2).is_none());
    s.clear();
    assert_eq!(s.len(), 0);
    assert!(s.push(sample(2, 2, 100), 2).is_none());
    assert!(s.push(sample(3, 3, 100), 2).is_none());
    assert!(s.push(sample(4, 4, 100), 2).is_some());
}

#[test]
fn n_samples_give_n_minus_two_segments() {
    for n in 0..12usize {
        let samples: Vec<Sample> = (0..n).map(|i| sample(i as i32, 2 * i as i32, 500)).collect();
        let segments = smooth_all(&samples, 2);
        assert_eq!(segments.len(), n.saturating_sub(2));
        for (i, seg) in segments.iter().enumerate() {
            let want = make_segment(&samples[i], 2, &samples[i + 1], 2, &samples[i + 2], 2);
            assert_eq!(*seg, want);
        }
    }
}

#[test]
fn three_points_on_a_line_render_as_one_segment() {
    let samples = vec![sample(0, 0, 2000), sample(1, 0, 2000), sample(2, 0, 2000)];
    let segments = smooth_all(&samples, 2);
    assert_eq!(segments.len(), 1);
    assert_eq!(segments[0].footprint, area(0, 0, 2, 0));
    assert_eq!(segments[0].start, Anchor { x2: 3, y2: 0, width: 8000 });
    assert_eq!(segments[0].control, Anchor { x2: 2, y2: 0, width: 8000 });
    assert_eq!(segments[0].end, Anchor { x2: 1, y2: 0, width: 8000 });
}
