use papercut::geometry::{tessellate, GeometryBuilder, Rect, WithId};
use papercut::units::MICRO;

#[test]
fn fill_vertex_is_white_at_depth_zero() {
    let ctor = WithId;
    let v = ctor.new_vertex(3, -7);
    assert_eq!(v.x, 3);
    assert_eq!(v.y, -7);
    assert_eq!(v.z, 0);
    assert_eq!((v.r, v.g, v.b, v.a), (MICRO, MICRO, MICRO, MICRO));
}

#[test]
fn stroke_vertex_offsets_along_normal_and_is_black() {
    let ctor = WithId;
    let v = ctor.new_stroke_vertex(10, 20, 1, -1, 5);
    assert_eq!(v.x, 15);
    assert_eq!(v.y, 15);
    assert_eq!(v.z, 0);
    assert_eq!((v.r, v.g, v.b, v.a), (0, 0, 0, MICRO));
}

#[test]
fn fill_rectangle_appends_four_vertices_and_two_triangles() {
    let mut builder = GeometryBuilder::new();
    let rect = Rect::new(0, 0, 100, 50);
    builder.fill_rectangle(&rect);
    assert_eq!(builder.vertices.len(), 4);
    assert_eq!(builder.indices, vec![0, 1, 2, 0, 2, 3]);
    assert_eq!((builder.vertices[0].x, builder.vertices[0].y), (0, 0));
    assert_eq!((builder.vertices[1].x, builder.vertices[1].y), (100, 0));
    assert_eq!((builder.vertices[2].x, builder.vertices[2].y), (100, 50));
    assert_eq!((builder.vertices[3].x, builder.vertices[3].y), (0, 50));
}

#[test]
fn stroke_rectangle_appends_ring_after_fill() {
    let mut builder = GeometryBuilder::new();
    let rect = Rect::new(0, 0, 100, 50);
    builder.fill_rectangle(&rect);
    builder.stroke_rectangle(&rect, 10);
    assert_eq!(builder.vertices.len(), 12);
    assert_eq!(builder.indices.len(), 30);
    // outer corner of the bottom-left corner, pushed outward by half the
    // stroke width
    assert_eq!((builder.vertices[4].x, builder.vertices[4].y), (-5, -5));
    // its inner partner, pulled inward
    assert_eq!((builder.vertices[5].x, builder.vertices[5].y), (5, 5));
    // stroke triangles start at the first stroke vertex
    assert_eq!(builder.indices[6], 4);
}

#[test]
fn tessellate_ranges_are_contiguous_fill_then_stroke() {
    let rect = Rect::new(0, 0, 500 * MICRO, 500 * MICRO);
    let g = tessellate(&rect, MICRO / 50, MICRO / 50, MICRO);
    assert_eq!(g.fill_range.start, 0);
    assert_eq!(g.fill_range.end, 6);
    assert_eq!(g.stroke_range.start, g.fill_range.end);
    assert_eq!(g.stroke_range.end, g.indices.len() as u32);
    for &i in g.indices.iter() {
        assert!((i as usize) < g.vertices.len());
    }
}

#[test]
fn tessellate_output_is_independent_of_tolerance() {
    let rect = Rect::new(-MICRO, -MICRO, MICRO, MICRO);
    let coarse = tessellate(&rect, MICRO, MICRO, 2);
    let fine = tessellate(&rect, 2, 2, 2);
    assert_eq!(coarse.vertices.len(), fine.vertices.len());
    assert_eq!(coarse.indices, fine.indices);
    for (a, b) in coarse.vertices.iter().zip(fine.vertices.iter()) {
        assert_eq!((a.x, a.y, a.z), (b.x, b.y, b.z));
    }
}

#[test]
fn tessellated_triangles_wind_counter_clockwise() {
    let rect = Rect::new(0, 0, 100, 80);
    let g = tessellate(&rect, 1, 1, 10);
    assert_eq!(g.indices.len(), 30);
    for t in 0..10 {
        let a = &g.vertices[g.indices[3 * t] as usize];
        let b = &g.vertices[g.indices[3 * t + 1] as usize];
        let c = &g.vertices[g.indices[3 * t + 2] as usize];
        let doubled_area = (b.x - a.x) * (c.y - a.y) - (c.x - a.x) * (b.y - a.y);
        assert!(doubled_area > 0);
    }
}
