use map_plugin::generator::generate;
use map_plugin::geometry::build_indices;
use map_plugin::geometry::build_vertices;
use map_plugin::geometry::make_vertex;
use map_plugin::geometry::GeometryBuffer;
use map_plugin::geometry::Vertex;
use map_plugin::heightfield::sample_heights;
use map_plugin::map_data::MapData;
use map_plugin::material::summarize;
use map_plugin::material::MaterialParameters;
use map_plugin::params::MapParams;

fn flat() -> MapParams {
    MapParams { seed: 1, width: 4, height: 4, scale: 1000, amplitude: 0 }
}

fn hills() -> MapParams {
    MapParams { seed: 1, width: 4, height: 4, scale: 1000, amplitude: 2000 }
}

fn turn(g: &GeometryBuffer, t: usize) -> i64 {
    let a = g.vertices()[g.indices()[3 * t] as usize];
    let b = g.vertices()[g.indices()[3 * t + 1] as usize];
    let c = g.vertices()[g.indices()[3 * t + 2] as usize];
    (b.z - a.z) * (c.x - a.x) - (b.x - a.x) * (c.z - a.z)
}

#[test]
fn creation_gives_a_flat_grid() {
    let g = generate(&flat());
    assert_eq!(g.geometry().vertex_count(), 16);
    assert_eq!(g.geometry().triangle_count(), 18);
    assert_eq!(g.geometry().indices().len(), 54);
    assert!(g.geometry().vertices().iter().all(|v| v.y == 0));
    assert!(g.geometry().vertices().iter().all(|v| v.nx == 0 && v.nz == 0 && v.ny > 0));
    let m = g.material();
    assert_eq!(m.min_height, 0);
    assert_eq!(m.max_height, 0);
    assert_eq!(m.span(), Some(0));
    assert_eq!(m.roughness, 1000);
    assert_eq!(g.source(), flat());
}

#[test]
fn generating_twice_gives_identical_output() {
    let p = MapParams { seed: 12345, width: 17, height: 9, scale: 750, amplitude: 3000 };
    let first = generate(&p);
    let second = generate(&p);
    assert_eq!(first, second);
    assert_eq!(first.geometry().vertices(), second.geometry().vertices());
    assert_eq!(first.geometry().indices(), second.geometry().indices());
    assert_eq!(first.material(), second.material());
}

#[test]
fn map_generates_from_its_parameters() {
    let data = MapData::new(hills()).unwrap();
    assert_eq!(data.generate(), generate(&hills()));
}

#[test]
fn clone_keeps_every_part() {
    let g = generate(&hills());
    let copy = g.clone();
    assert_eq!(copy, g);
    assert_eq!(g.geometry().clone(), *copy.geometry());
}

#[test]
fn indices_name_vertices_and_count_two_triangles_per_cell() {
    let sizes: [(i32, i32); 6] = [(2, 2), (2, 5), (7, 3), (4, 4), (16, 16), (33, 2)];
    for (w, h) in sizes {
        let p = MapParams { seed: 3, width: w, height: h, scale: 1000, amplitude: 1000 };
        let g = generate(&p);
        let geometry = g.geometry();
        assert_eq!(geometry.vertex_count(), (w * h) as usize);
        assert_eq!(geometry.triangle_count(), (2 * (w - 1) * (h - 1)) as usize);
        assert_eq!(geometry.indices().len(), 3 * geometry.triangle_count());
        assert!(geometry.indices().iter().all(|i| (*i as usize) < geometry.vertex_count()));
    }
}

#[test]
fn smallest_grid_is_one_cell() {
    let p = MapParams { seed: 1, width: 2, height: 2, scale: 1000, amplitude: 0 };
    let g = generate(&p);
    let expected: Vec<u32> = vec![0, 2, 1, 1, 2, 3];
    assert_eq!(g.geometry().indices(), &expected);
    assert_eq!(g.geometry().vertex_count(), 4);
    assert_eq!(g.geometry().triangle_count(), 2);
    assert_eq!(
        g.geometry().vertices()[3],
        Vertex { x: 1000, y: 0, z: 1000, nx: 0, ny: 1_000_000, nz: 0 }
    );
}

#[test]
fn indices_exact_for_two_cells() {
    let p = MapParams { seed: 1, width: 3, height: 2, scale: 1000, amplitude: 0 };
    let expected: Vec<u32> = vec![0, 3, 1, 1, 3, 4, 1, 4, 2, 2, 4, 5];
    assert_eq!(build_indices(&p), expected);
}

#[test]
fn indices_exact_for_two_rows_of_cells() {
    let p = MapParams { seed: 1, width: 2, height: 3, scale: 1000, amplitude: 0 };
    let expected: Vec<u32> = vec![0, 2, 1, 1, 2, 3, 2, 4, 3, 3, 4, 5];
    assert_eq!(build_indices(&p), expected);
}

#[test]
fn vertices_exact_values() {
    let p = hills();
    let heights = sample_heights(&p);
    assert_eq!(
        make_vertex(&p, &heights, 0, 0),
        Vertex { x: 0, y: -392, z: 0, nx: -257_000, ny: 1_000_000, nz: -67_000 }
    );
    assert_eq!(
        make_vertex(&p, &heights, 1, 2),
        Vertex { x: 1000, y: -230, z: 2000, nx: -112_000, ny: 4_000_000, nz: 190_000 }
    );
    assert_eq!(
        make_vertex(&p, &heights, 3, 3),
        Vertex { x: 3000, y: -451, z: 3000, nx: 87_000, ny: 1_000_000, nz: 277_000 }
    );
    let vertices = build_vertices(&p, &heights);
    assert_eq!(vertices.len(), 16);
    assert_eq!(vertices[0], make_vertex(&p, &heights, 0, 0));
    assert_eq!(vertices[9], make_vertex(&p, &heights, 1, 2));
    assert_eq!(vertices[15], make_vertex(&p, &heights, 3, 3));
    assert_eq!(&vertices, generate(&p).geometry().vertices());
}

#[test]
fn vertices_are_spaced_by_scale() {
    let p = MapParams { seed: 4, width: 5, height: 3, scale: 2500, amplitude: 100 };
    let g = generate(&p);
    let v = g.geometry().vertices();
    assert_eq!((v[0].x, v[0].z), (0, 0));
    assert_eq!((v[4].x, v[4].z), (10_000, 0));
    assert_eq!((v[5].x, v[5].z), (0, 2500));
    assert_eq!((v[14].x, v[14].z), (10_000, 5000));
}

#[test]
fn every_triangle_faces_up() {
    let p = MapParams { seed: 21, width: 6, height: 5, scale: 300, amplitude: 9000 };
    let g = generate(&p);
    let geometry = g.geometry();
    let mut t: usize = 0;
    while t < geometry.triangle_count() {
        assert_eq!(turn(geometry, t), 300 * 300);
        t += 1;
    }
}

#[test]
fn normals_point_up() {
    let p = MapParams { seed: 8, width: 12, height: 12, scale: 10, amplitude: 1_000_000 };
    let g = generate(&p);
    assert!(g.geometry().vertices().iter().all(|v| v.ny > 0));
}

#[test]
fn material_exact_values() {
    let p = hills();
    let m = generate(&p).material();
    assert_eq!(m, MaterialParameters { min_height: -451, max_height: 379, roughness: 774 });
    assert_eq!(m.span(), Some(830));
    assert_eq!(summarize(&p, &sample_heights(&p)), m);
}

#[test]
fn material_bounds_are_attained() {
    let p = MapParams { seed: 64, width: 20, height: 11, scale: 1000, amplitude: 5000 };
    let g = generate(&p);
    let m = g.material();
    let ys: Vec<i64> = g.geometry().vertices().iter().map(|v| v.y).collect();
    assert_eq!(ys.iter().min(), Some(&m.min_height));
    assert_eq!(ys.iter().max(), Some(&m.max_height));
    assert!(500 < m.roughness && m.roughness <= 1000);
}

#[test]
fn span_of_a_record_that_overflows() {
    let m = MaterialParameters { min_height: i64::MIN, max_height: 1, roughness: 1000 };
    assert_eq!(m.span(), None);
}

#[test]
fn amplitude_makes_the_surface_vary() {
    let g = generate(&hills());
    let v = g.geometry().vertices();
    assert!(v.iter().any(|a| a.y != v[0].y));
    assert!(g.material().max_height > g.material().min_height);
}

#[test]
fn into_parts_hands_out_both_outputs() {
    let g = generate(&hills());
    let copy = g.clone();
    let (geometry, material) = g.into_parts();
    assert_eq!(&geometry, copy.geometry());
    assert_eq!(material, copy.material());
}

#[test]
fn geometry_can_be_built_alone() {
    let p = hills();
    assert_eq!(&GeometryBuffer::build(&p), generate(&p).geometry());
    assert_eq!(&GeometryBuffer::from_heights(&p, &sample_heights(&p)), generate(&p).geometry());
}

#[test]
fn largest_grid_generates() {
    let p = MapParams {
        seed: u64::MAX,
        width: 1024,
        height: 1024,
        scale: 1_000_000,
        amplitude: 1_000_000,
    };
    let g = generate(&p);
    assert_eq!(g.geometry().vertex_count(), 1024 * 1024);
    assert_eq!(g.geometry().triangle_count(), 2 * 1023 * 1023);
    let last = g.geometry().vertices()[1024 * 1024 - 1];
    assert_eq!((last.x, last.z), (1_023_000_000, 1_023_000_000));
}
