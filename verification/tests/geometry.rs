use webgl_globe::geometry::generate_uv_sphere;
use webgl_globe::geometry::sphere_fits;
use webgl_globe::geometry::GridVertex;
use webgl_globe::geometry::Mesh;
use webgl_globe::geometry::PoleOffset;

fn sphere(width_segments: u32, height_segments: u32) -> Mesh {
    assert!(sphere_fits(width_segments, height_segments));
    generate_uv_sphere(width_segments, height_segments)
}

fn position(vertex: &GridVertex, width: u32, height: u32, radius: f32) -> [f32; 3] {
    let pi = std::f32::consts::PI;
    let u = vertex.column as f32 / width as f32;
    let v = vertex.row as f32 / height as f32;
    [
        -radius * (u * 2.0 * pi).cos() * (v * pi).sin(),
        radius * (v * pi).cos(),
        radius * (u * 2.0 * pi).sin() * (v * pi).sin(),
    ]
}

fn check_counts(width_segments: u32, height_segments: u32) {
    let mesh = sphere(width_segments, height_segments);
    let w = mesh.width_segments() as usize;
    let h = mesh.height_segments() as usize;
    assert_eq!(mesh.vertices().len(), (w + 1) * (h + 1));
    assert_eq!(mesh.indices().len(), 2 * 3 * w * (h - 1));
    for index in mesh.indices().iter() {
        assert!((*index as usize) < mesh.vertices().len());
    }
}

fn check_outward(width_segments: u32, height_segments: u32) {
    let mesh = sphere(width_segments, height_segments);
    let w = mesh.width_segments();
    let h = mesh.height_segments();
    let indices = mesh.indices();
    assert_eq!(indices.len() % 3, 0);
    for t in 0..indices.len() / 3 {
        let p = position(&mesh.vertices()[indices[3 * t] as usize], w, h, 200.0);
        let q = position(&mesh.vertices()[indices[3 * t + 1] as usize], w, h, 200.0);
        let r = position(&mesh.vertices()[indices[3 * t + 2] as usize], w, h, 200.0);
        let a = [q[0] - p[0], q[1] - p[1], q[2] - p[2]];
        let b = [r[0] - p[0], r[1] - p[1], r[2] - p[2]];
        let n = [
            a[1] * b[2] - a[2] * b[1],
            a[2] * b[0] - a[0] * b[2],
            a[0] * b[1] - a[1] * b[0],
        ];
        let c = [p[0] + q[0] + r[0], p[1] + q[1] + r[1], p[2] + q[2] + r[2]];
        let facing = n[0] * c[0] + n[1] * c[1] + n[2] * c[2];
        assert!(facing > 0.0, "triangle {} faces inwards: {}", t, facing);
    }
}

fn check_grid_winding(width_segments: u32, height_segments: u32) {
    let mesh = sphere(width_segments, height_segments);
    let indices = mesh.indices();
    for t in 0..indices.len() / 3 {
        let p = mesh.vertices()[indices[3 * t] as usize];
        let q = mesh.vertices()[indices[3 * t + 1] as usize];
        let r = mesh.vertices()[indices[3 * t + 2] as usize];
        let area2 = (q.column as i64 - p.column as i64) * (r.row as i64 - p.row as i64)
            - (r.column as i64 - p.column as i64) * (q.row as i64 - p.row as i64);
        assert_eq!(area2, -1);
    }
}

#[test]
fn smallest_sphere_has_twelve_vertices_and_eighteen_indices() {
    let mesh = sphere(3, 2);
    assert_eq!(mesh.vertices().len(), 12);
    assert_eq!(mesh.indices().len(), 18);
}

#[test]
fn four_by_two_sphere_has_fifteen_vertices_and_twenty_four_indices() {
    let mesh = sphere(4, 2);
    assert_eq!(mesh.vertices().len(), 15);
    assert_eq!(mesh.indices().len(), 24);
}

#[test]
fn forty_by_thirty_sphere_has_expected_counts() {
    let mesh = sphere(40, 30);
    assert_eq!(mesh.vertices().len(), 41 * 31);
    assert_eq!(mesh.indices().len(), 2 * 3 * 40 * 29);
}

#[test]
fn counts_follow_the_formulas_for_many_sizes() {
    for w in 3..12 {
        for h in 2..9 {
            check_counts(w, h);
        }
    }
    check_counts(40, 30);
    check_counts(254, 255);
}

#[test]
fn segment_counts_below_the_minimum_are_raised() {
    let mesh = sphere(0, 0);
    assert_eq!(mesh.width_segments(), 3);
    assert_eq!(mesh.height_segments(), 2);
    let mesh = sphere(2, 1);
    assert_eq!(mesh.width_segments(), 3);
    assert_eq!(mesh.height_segments(), 2);
    let mesh = sphere(1, 7);
    assert_eq!(mesh.width_segments(), 3);
    assert_eq!(mesh.height_segments(), 7);
    let mesh = sphere(9, 0);
    assert_eq!(mesh.width_segments(), 9);
    assert_eq!(mesh.height_segments(), 2);
}

#[test]
fn smallest_sphere_has_exactly_these_indices() {
    let mesh = sphere(3, 2);
    let expected: Vec<u32> = vec![
        0, 4, 5, 1, 5, 6, 2, 6, 7, 5, 4, 9, 6, 5, 10, 7, 6, 11,
    ];
    assert_eq!(mesh.indices(), &expected);
}

#[test]
fn inner_rows_have_two_triangles_for_each_cell() {
    let mesh = sphere(3, 3);
    // Row 1 starts after the three triangles of row 0.
    let row: Vec<u32> = mesh.indices()[9..21].to_vec();
    let expected: Vec<u32> = vec![5, 4, 9, 4, 8, 9, 6, 5, 10, 5, 9, 10];
    assert_eq!(row, expected);
}

#[test]
fn vertices_are_listed_row_by_row() {
    let mesh = sphere(3, 2);
    let vertices = mesh.vertices();
    assert_eq!(
        vertices[0],
        GridVertex { column: 0, row: 0, pole_offset: PoleOffset::Forward }
    );
    assert_eq!(
        vertices[3],
        GridVertex { column: 3, row: 0, pole_offset: PoleOffset::Forward }
    );
    assert_eq!(
        vertices[6],
        GridVertex { column: 2, row: 1, pole_offset: PoleOffset::Centered }
    );
    assert_eq!(
        vertices[11],
        GridVertex { column: 3, row: 2, pole_offset: PoleOffset::Backward }
    );
}

#[test]
fn a_vertex_is_found_from_its_place_in_the_list() {
    let mesh = sphere(7, 5);
    for (place, vertex) in mesh.vertices().iter().enumerate() {
        assert_eq!(vertex.row as usize, place / 8);
        assert_eq!(vertex.column as usize, place % 8);
    }
}

#[test]
fn only_the_pole_rows_are_offset() {
    let mesh = sphere(5, 4);
    for vertex in mesh.vertices().iter() {
        let expected = if vertex.row == 0 {
            PoleOffset::Forward
        } else if vertex.row == 4 {
            PoleOffset::Backward
        } else {
            PoleOffset::Centered
        };
        assert_eq!(vertex.pole_offset, expected);
    }
}

#[test]
fn every_triangle_turns_the_same_way_on_the_grid() {
    check_grid_winding(3, 2);
    check_grid_winding(4, 2);
    check_grid_winding(7, 5);
    check_grid_winding(40, 30);
}

#[test]
fn every_triangle_faces_outwards() {
    check_outward(3, 2);
    check_outward(4, 2);
    check_outward(8, 6);
    check_outward(40, 30);
}

#[test]
fn no_triangle_has_two_corners_at_a_pole() {
    let mesh = sphere(6, 4);
    let indices = mesh.indices();
    for t in 0..indices.len() / 3 {
        let rows: Vec<u32> = (0..3)
            .map(|k| mesh.vertices()[indices[3 * t + k] as usize].row)
            .collect();
        let at_top = rows.iter().filter(|row| **row == 0).count();
        let at_bottom = rows.iter().filter(|row| **row == 4).count();
        assert!(at_top <= 1);
        assert!(at_bottom <= 1);
    }
}

#[test]
fn a_sphere_beyond_sixteen_bits_is_built_like_any_other() {
    let mesh = sphere(256, 256);
    assert_eq!(mesh.vertices().len(), 257 * 257);
    assert_eq!(mesh.indices().len(), 2 * 3 * 256 * 255);
    let largest = mesh.indices().iter().max().unwrap();
    assert_eq!(*largest as usize, 257 * 257 - 1);
    check_grid_winding(256, 256);
    check_counts(300, 250);
}

#[test]
fn sphere_fits_tells_when_a_sphere_can_be_numbered_in_thirty_two_bits() {
    assert!(sphere_fits(40, 30));
    assert!(sphere_fits(0, 0));
    assert!(sphere_fits(255, 255));
    assert!(sphere_fits(70000, 2));
    // 6 * 26754 * 26755 = 4294819620 index entries fit, one more row does not.
    assert!(sphere_fits(26754, 26756));
    assert!(!sphere_fits(26754, 26757));
    assert!(!sphere_fits(u32::MAX, 2));
    assert!(!sphere_fits(u32::MAX, u32::MAX));
}
