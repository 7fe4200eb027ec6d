use wow_obj_to_pathfinding_grid::PlanarTile;
use wow_obj_to_pathfinding_grid::StdOutProgress;
use wow_obj_to_pathfinding_grid::Triangle;
use wow_obj_to_pathfinding_grid::Vertex;
use wow_obj_to_pathfinding_grid::WowPreprocessor;
use wow_obj_to_pathfinding_grid::swap_triangle_y_z;
use wow_obj_to_pathfinding_grid::swap_vector_y_z;

fn vertex_of(x: f32, y: f32, z: f32) -> Vertex {
    Vertex {
        x: x.to_bits(),
        y: y.to_bits(),
        z: z.to_bits(),
    }
}

#[test]
fn preprocessor_new_binds_target_tile() {
    let p = WowPreprocessor::new(31, 58);
    assert_eq!(p.tile_x, 31);
    assert_eq!(p.tile_z, 58);
}

#[test]
fn in_same_tile_matches_both_axes_only() {
    let p = WowPreprocessor::new(10, 20);
    assert!(p.in_same_tile(PlanarTile { x: 10, z: 20 }));
    assert!(!p.in_same_tile(PlanarTile { x: 11, z: 20 }));
    assert!(!p.in_same_tile(PlanarTile { x: 10, z: 21 }));
    assert!(!p.in_same_tile(PlanarTile { x: 0, z: 0 }));
}

#[test]
fn swap_exchanges_second_and_third_components() {
    let v = vertex_of(1.5, 2.5, -3.5);
    let s = swap_vector_y_z(v);
    assert_eq!(s.x, (1.5f32).to_bits());
    assert_eq!(s.y, (-3.5f32).to_bits());
    assert_eq!(s.z, (2.5f32).to_bits());

    let t = Triangle {
        a: vertex_of(1.0, 2.0, 3.0),
        b: vertex_of(4.0, 5.0, 6.0),
        c: vertex_of(7.0, 8.0, 9.0),
    };
    let st = swap_triangle_y_z(t);
    assert_eq!(st.a, vertex_of(1.0, 3.0, 2.0));
    assert_eq!(st.b, vertex_of(4.0, 6.0, 5.0));
    assert_eq!(st.c, vertex_of(7.0, 9.0, 8.0));
}

#[test]
fn triangle_fully_outside_is_discarded() {
    let p = WowPreprocessor::new(10, 20);
    let t = Triangle {
        a: vertex_of(1.0, 2.0, 3.0),
        b: vertex_of(4.0, 5.0, 6.0),
        c: vertex_of(7.0, 8.0, 9.0),
    };
    let outside_a = PlanarTile { x: 9, z: 20 };
    let outside_b = PlanarTile { x: 10, z: 19 };
    let outside_c = PlanarTile { x: 11, z: 21 };
    assert_eq!(p.pre_process(t, outside_a, outside_b, outside_c), None);
}

#[test]
fn triangle_with_one_matching_vertex_is_kept_swapped() {
    let p = WowPreprocessor::new(10, 20);
    let t = Triangle {
        a: vertex_of(1.0, 2.0, 3.0),
        b: vertex_of(4.0, 5.0, 6.0),
        c: vertex_of(7.0, 8.0, 9.0),
    };
    let inside = PlanarTile { x: 10, z: 20 };
    let outside = PlanarTile { x: 11, z: 20 };
    let kept = p.pre_process(t, outside, inside, outside).unwrap();
    assert_eq!(kept.a, vertex_of(1.0, 3.0, 2.0));
    assert_eq!(kept.b, vertex_of(4.0, 6.0, 5.0));
    assert_eq!(kept.c, vertex_of(7.0, 9.0, 8.0));
}

#[test]
fn triangle_with_all_vertices_matching_is_kept() {
    let p = WowPreprocessor::new(3, 4);
    let t = Triangle {
        a: vertex_of(0.5, 1.5, 2.5),
        b: vertex_of(3.5, 4.5, 5.5),
        c: vertex_of(6.5, 7.5, 8.5),
    };
    let inside = PlanarTile { x: 3, z: 4 };
    let kept = p.pre_process(t, inside, inside, inside).unwrap();
    assert_eq!(kept, swap_triangle_y_z(t));
}

#[test]
fn progress_reporter_constructs() {
    let _p = StdOutProgress::new();
}
