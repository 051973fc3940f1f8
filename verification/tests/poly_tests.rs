use cursor_anim::poly::{Poly, MAX_PTS};

#[test]
fn push_respects_capacity() {
    let mut p = Poly::empty(0u32);
    for i in 0..20u32 {
        p.push(i);
    }
    assert_eq!(p.len(), MAX_PTS);
    assert_eq!(p.as_slice(), (0..16).collect::<Vec<u32>>().as_slice());
    assert_eq!(p.get(15), 15);
    let q = Poly::new(0u32, &[4, 5, 6]);
    assert_eq!(q.as_slice(), &[4, 5, 6]);
}

#[test]
fn fan_triangulation() {
    let p = Poly::new(0u8, &[1, 2, 3, 4, 5]);
    let mut tris = vec![[9u8, 9, 9]];
    p.fan(&mut tris);
    assert_eq!(tris, vec![[9, 9, 9], [1, 2, 3], [1, 3, 4], [1, 4, 5]]);
    let mut none = Vec::new();
    Poly::new(0u8, &[1, 2]).fan(&mut none);
    assert!(none.is_empty());
    Poly::empty(0u8).fan(&mut none);
    assert!(none.is_empty());
}

#[test]
fn clip_keeps_inside_vertices_and_crossings() {
    let p = Poly::new(0u32, &[1, 2, 3, 4]);
    let cut = [10, 11, 12, 13];
    // Edges 1->2 and 3->0 cross the boundary
    let q = p.clip(&[true, true, false, false], &cut);
    assert_eq!(q.as_slice(), &[1, 2, 11, 13]);
    // One vertex inside: a triangle
    let q = p.clip(&[true, false, false, false], &cut);
    assert_eq!(q.as_slice(), &[1, 10, 13]);
    // One vertex outside: one vertex more than before
    let q = p.clip(&[false, true, true, true], &cut);
    assert_eq!(q.as_slice(), &[10, 2, 3, 4, 13]);
    assert_eq!(q.len(), p.len() + 1);
}

#[test]
fn clip_whole_polygon_inside_or_outside() {
    let p = Poly::new(0u32, &[1, 2, 3]);
    let cut = [7, 8, 9];
    assert_eq!(p.clip(&[true; 3], &cut).as_slice(), &[1, 2, 3]);
    assert!(p.clip(&[false; 3], &cut).as_slice().is_empty());
    let empty = Poly::empty(0u32);
    assert!(empty.clip(&[], &[]).as_slice().is_empty());
}

#[test]
fn clip_alternating_sides_and_capacity() {
    // Sides that alternate are no single run: more than one vertex is added
    let p = Poly::new(0u32, &[1, 2, 3, 4]);
    let q = p.clip(&[true, false, true, false], &[10, 11, 12, 13]);
    assert_eq!(q.as_slice(), &[1, 10, 11, 3, 12, 13]);
    // A full polygon with one vertex outside would grow to 17 vertices
    let pts: Vec<u32> = (0..16).collect();
    let full = Poly::new(0u32, &pts);
    let mut inside = [true; 16];
    inside[5] = false;
    let cut: Vec<u32> = (100..116).collect();
    let q = full.clip(&inside, &cut);
    assert_eq!(q.len(), MAX_PTS);
    assert_eq!(&q.as_slice()[..7], &[0, 1, 2, 3, 4, 104, 105]);
    assert_eq!(q.get(15), 14);
}

#[test]
fn repeated_clips_grow_by_one_at_most() {
    // Cutting one corner off a quad at a time, eight times over
    let mut p = Poly::new(0u32, &[1, 2, 3, 4]);
    for k in 0..8u32 {
        let n = p.len();
        let mut inside = vec![true; n];
        inside[0] = false;
        let cut: Vec<u32> = (0..n as u32).map(|i| 100 * (k + 1) + i).collect();
        let before = p.len();
        p = p.clip(&inside, &cut);
        assert_eq!(p.len(), before + 1);
    }
    assert_eq!(p.len(), 12);
    assert!(p.len() < MAX_PTS);
}
