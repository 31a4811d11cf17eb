use meshview::camera::{CameraController, Key, OrbitCamera, PITCH_LIMIT};
use meshview::geometry::{floor_sqrt_u128, normalized, Vec3};
use meshview::mesh::{Mesh, MeshBuilder};
use meshview::model::{LoadError, Model, ModelPrimitive, RawMesh};
use meshview::projection::Projection;
use meshview::state::{FrameAction, FrameError, InputEvent, State};

fn positions(mesh: &Mesh) -> Vec<(i64, i64, i64)> {
    mesh.vertices.iter().map(|v| (v.position.x, v.position.y, v.position.z)).collect()
}

fn normals(mesh: &Mesh) -> Vec<(i64, i64, i64)> {
    mesh.vertices.iter().map(|v| (v.normal.x, v.normal.y, v.normal.z)).collect()
}

#[test]
fn quad_triangles_share_one_diagonal() {
    let mut b = MeshBuilder::new("q");
    b.add_quad(Vec3::new(1, 2, 3), Vec3::new(10, 0, 0), Vec3::new(0, 0, 7));
    let m = b.build();
    assert_eq!(m.indices, vec![0, 1, 2, 0, 2, 3]);
    let shared: Vec<u32> = m.indices[0..3].iter().filter(|i| m.indices[3..6].contains(i)).cloned().collect();
    assert_eq!(shared, vec![0, 2]);
    let p = positions(&m);
    assert_eq!(p, vec![(1, 2, 3), (11, 2, 3), (11, 2, 10), (1, 2, 10)]);
    for i in 0..4 {
        for j in (i + 1)..4 {
            assert_ne!(p[i], p[j]);
        }
    }
    assert!(normals(&m).iter().all(|n| *n == (0, -1000, 0)));
}

#[test]
fn triangle_gets_flat_normal() {
    let mut b = MeshBuilder::new("t");
    b.add_triangle(Vec3::new(0, 0, 0), Vec3::new(0, 5, 0), Vec3::new(5, 0, 0));
    let m = b.build();
    assert_eq!(m.indices, vec![0, 1, 2]);
    assert!(normals(&m).iter().all(|n| *n == (0, 0, -1000)));
}

#[test]
fn empty_builder_builds_empty_mesh() {
    let m = MeshBuilder::new("empty").build();
    assert_eq!(m.name, "empty");
    assert!(m.vertices.is_empty());
    assert!(m.indices.is_empty());
    assert_eq!(m.triangle_count(), 0);
}

#[test]
fn linked_quad_reuses_neighbours() {
    let mut b = MeshBuilder::new("grid");
    b.add_linked_quad(Vec3::new(0, 0, 0), false, 2);
    b.add_linked_quad(Vec3::new(10, 0, 0), false, 2);
    b.add_linked_quad(Vec3::new(0, 0, 10), false, 2);
    b.add_linked_quad(Vec3::new(10, 0, 10), true, 2);
    let m = b.build();
    assert_eq!(m.vertices.len(), 4);
    assert_eq!(m.indices, vec![0, 2, 3, 0, 3, 1]);
}

#[test]
fn normalize_rounds_toward_zero() {
    let n = normalized(Vec3::new(3, -4, 0));
    assert_eq!((n.x, n.y, n.z), (600, -800, 0));
    let n = normalized(Vec3::new(100, 100, 0));
    assert_eq!((n.x, n.y, n.z), (709, 709, 0));
    let z = normalized(Vec3::new(0, 0, 0));
    assert_eq!((z.x, z.y, z.z), (0, 0, 0));
    assert_eq!(floor_sqrt_u128(10), 3);
    assert_eq!(floor_sqrt_u128(16), 4);
    assert_eq!(floor_sqrt_u128(0), 0);
}

#[test]
fn cube_has_twelve_triangles_and_six_normals() {
    let model = Model::cube(2000);
    assert_eq!(model.meshes.len(), 1);
    let m = &model.meshes[0];
    assert_eq!(m.name, "Cube");
    assert_eq!(m.triangle_count(), 12);
    let mut ns = normals(m);
    ns.sort();
    ns.dedup();
    assert_eq!(ns.len(), 6);
    for n in &ns {
        let nonzero = [n.0, n.1, n.2].iter().filter(|c| **c != 0).count();
        assert_eq!(nonzero, 1);
        assert_eq!(n.0.abs() + n.1.abs() + n.2.abs(), 1000);
    }
    let p = positions(m);
    for q in &p {
        assert!(p.contains(&(-q.0, -q.1, -q.2)));
    }
}

#[test]
fn cube_normals_face_out() {
    let model = Model::cube(2000);
    let m = &model.meshes[0];
    for v in &m.vertices {
        let dot = v.position.x * v.normal.x + v.position.y * v.normal.y + v.position.z * v.normal.z;
        assert!(dot > 0);
    }
}

#[test]
fn cube_of_size_two_spans_unit_box() {
    let model = Model::cube(2000);
    assert_eq!(model.meshes.len(), 1);
    let m = &model.meshes[0];
    assert_eq!(m.triangle_count(), 12);
    let p = positions(m);
    assert!(p.iter().all(|q| [q.0, q.1, q.2].iter().all(|c| *c == 1000 || *c == -1000)));
    assert!(p.contains(&(-1000, -1000, -1000)));
    assert!(p.contains(&(1000, 1000, 1000)));
}

#[test]
fn plane_is_one_upward_quad() {
    let model = Model::plane(2000);
    let m = &model.meshes[0];
    assert_eq!(m.name, "Plane");
    assert_eq!(m.vertices.len(), 4);
    assert_eq!(m.triangle_count(), 2);
    assert_eq!(positions(m), vec![(-1000, 0, -1000), (-1000, 0, 1000), (1000, 0, 1000), (1000, 0, -1000)]);
    assert!(normals(m).iter().all(|n| *n == (0, 1000, 0)));
}

fn triangle(m: &Mesh, t: usize) -> Vec<((i64, i64, i64), (i64, i64, i64))> {
    (0..3)
        .map(|c| {
            let v = &m.vertices[m.indices[3 * t + c] as usize];
            ((v.position.x, v.position.y, v.position.z), (v.normal.x, v.normal.y, v.normal.z))
        })
        .collect()
}

#[test]
fn house_roof_is_double_sided() {
    let model = Model::house(1000, 2000, 1000);
    let m = &model.meshes[0];
    assert_eq!(m.name, "House");
    assert_eq!(m.triangle_count(), 8 + 2 + 8);
    for side in 0..2 {
        let first = 10 + 4 * side;
        for t in 0..2 {
            let a = triangle(m, first + 2 + t);
            let b = triangle(m, first + 1 - t);
            let pa: Vec<_> = a.iter().map(|x| x.0).collect();
            let pb = vec![b[0].0, b[2].0, b[1].0];
            assert_eq!(pa, pb);
            for (x, y) in a.iter().zip(b.iter()) {
                assert_eq!(x.1, (-y.1 .0, -y.1 .1, -y.1 .2));
            }
        }
    }
}

#[test]
fn house_roof_overhangs_and_is_lifted() {
    let model = Model::house(1000, 2000, 1000);
    let m = &model.meshes[0];
    let roof_peak = m.vertices[22].position;
    assert_eq!((roof_peak.x, roof_peak.y, roof_peak.z), (0, 1501, -1200));
    let gable_peak = m.vertices[17].position;
    assert_eq!((gable_peak.x, gable_peak.y, gable_peak.z), (0, 1500, -1000));
    let far_end = m.vertices[23].position;
    assert_eq!(far_end.z, 1200);
    let eave = m.vertices[25].position;
    assert!(eave.x < -500 && eave.y < 1000);
}

#[test]
fn post_has_five_faces() {
    let mut b = MeshBuilder::new("Post");
    Model::add_post(&mut b, Vec3::new(0, 0, 0), 200, 200, 1000);
    let m = b.build();
    assert_eq!(m.triangle_count(), 10);
    assert_eq!(m.vertices[0].position, Vec3::new(-100, 0, -100));
    assert_eq!(m.vertices[8].position, Vec3::new(100, 1000, 100));
}

#[test]
fn surface_counts_and_heights() {
    let model = Model::surface(8, 500, 500);
    let m = &model.meshes[0];
    assert_eq!(m.name, "Quad Grid");
    assert_eq!(m.vertices.len(), 81);
    assert_eq!(m.triangle_count(), 2 * 8 * 8);
    assert!(m.vertices.iter().all(|v| v.position.y >= 0 && v.position.y < 500));
}

#[test]
fn surface_heights_vary() {
    let model = Model::surface(16, 10, 1_000_000);
    let m = &model.meshes[0];
    let first = m.vertices[0].position.y;
    assert!(m.vertices.iter().any(|v| v.position.y != first));
    assert!(m.vertices.iter().all(|v| v.position.y < 1_000_000));
}

#[test]
fn surface_from_heights_is_exact() {
    let heights: Vec<i64> = (0..9).collect();
    let model = Model::surface_from_heights(2, 100, &heights);
    let m = &model.meshes[0];
    assert_eq!(m.vertices.len(), 9);
    assert_eq!(m.triangle_count(), 8);
    assert_eq!(m.vertices[0].position, Vec3::new(-200, 0, -200));
    assert_eq!(m.vertices[4].position, Vec3::new(0, 4, 0));
    assert_eq!(m.vertices[8].position, Vec3::new(200, 8, 200));
    assert_eq!(&m.indices[0..6], &[0, 3, 4, 0, 4, 1]);
    assert_eq!(&m.indices[18..24], &[4, 7, 8, 4, 8, 5]);
}

#[test]
fn odd_count_surface_is_centred() {
    let heights = vec![0i64; 16];
    let model = Model::surface_from_heights(3, 100, &heights);
    let m = &model.meshes[0];
    assert_eq!(m.vertices.len(), 16);
    assert_eq!(m.triangle_count(), 18);
    assert_eq!(m.vertices[0].position, Vec3::new(-300, 0, -300));
    assert_eq!(m.vertices[15].position, Vec3::new(300, 0, 300));
}

fn raw(positions: Vec<i64>, normals: Vec<i64>, indices: Vec<u32>) -> RawMesh {
    RawMesh { name: String::from("part"), positions, normals, indices }
}

#[test]
fn load_builds_one_mesh_per_group() {
    let ok = raw(vec![0, 0, 0, 1, 0, 0, 0, 1, 0], vec![0, 0, 1, 0, 0, 1, 0, 0, 1], vec![0, 1, 2]);
    let model = Model::load(&vec![ok]).unwrap();
    assert_eq!(model.meshes.len(), 1);
    let m = &model.meshes[0];
    assert_eq!(m.name, "part");
    assert_eq!(positions(m), vec![(0, 0, 0), (1, 0, 0), (0, 1, 0)]);
    assert_eq!(normals(m), vec![(0, 0, 1); 3]);
    assert_eq!(m.vertices[0].color.r, 1000);
    assert_eq!(m.vertices[0].color.g, 100);
    assert_eq!(m.indices, vec![0, 1, 2]);
}

#[test]
fn load_reports_each_error() {
    let three = vec![0i64; 9];
    assert!(matches!(
        Model::load(&vec![raw(vec![0, 0], vec![0, 0], vec![])]),
        Err(LoadError::RaggedPositions)
    ));
    assert!(matches!(Model::load(&vec![raw(three.clone(), vec![], vec![0, 1, 2])]), Err(LoadError::NormalCount)));
    assert!(matches!(
        Model::load(&vec![raw(three.clone(), three.clone(), vec![0, 1])]),
        Err(LoadError::PartialTriangle)
    ));
    assert!(matches!(
        Model::load(&vec![raw(three.clone(), three.clone(), vec![0, 1, 3])]),
        Err(LoadError::IndexOutOfRange)
    ));
    assert_eq!(Model::load(&vec![]).unwrap().meshes.len(), 0);
}

#[test]
fn primitives_are_distinct() {
    assert_ne!(ModelPrimitive::Cube, ModelPrimitive::Plane);
}

#[test]
fn pitch_never_passes_limit() {
    let mut cam = OrbitCamera::new(0, 0, 5000);
    let mut c = CameraController::new(90_000, 400);
    c.process_keyboard(Key::Up, true);
    for _ in 0..100 {
        c.process_mouse(0, -1_000_000);
        c.update_camera(&mut cam, 1000);
        assert!(cam.pitch <= PITCH_LIMIT);
    }
    assert_eq!(cam.pitch, 89_000);
    c.process_keyboard(Key::Up, false);
    c.process_keyboard(Key::Down, true);
    for _ in 0..100 {
        c.process_mouse(0, 1_000_000);
        c.update_camera(&mut cam, 1000);
        assert!(cam.pitch >= -PITCH_LIMIT);
    }
    assert_eq!(cam.pitch, -89_000);
}

#[test]
fn held_key_moves_in_proportion_to_time() {
    let mut cam = OrbitCamera::new(0, 0, 5000);
    let mut c = CameraController::new(90_000, 400);
    assert!(c.process_keyboard(Key::Right, true));
    c.update_camera(&mut cam, 500);
    assert_eq!(cam.yaw, 45_000);
    assert!(!c.process_keyboard(Key::Other, true));
    c.process_keyboard(Key::Right, false);
    c.process_keyboard(Key::Left, true);
    c.update_camera(&mut cam, 1000);
    assert_eq!(cam.yaw, 315_000);
    c.process_keyboard(Key::Left, false);
    c.process_scroll(3);
    c.update_camera(&mut cam, 16);
    assert_eq!(cam.distance, 5000 - 1200);
    assert_eq!(c.scroll, 0);
}

#[test]
fn resize_to_zero_is_ignored() {
    let mut s = State::new(800, 600);
    assert!(!s.resize(0, 600));
    assert!(!s.resize(800, 0));
    assert_eq!((s.width, s.height), (800, 600));
    assert_eq!((s.projection.width, s.projection.height), (800, 600));
    assert!(s.resize(1024, 768));
    assert_eq!((s.width, s.height), (1024, 768));
    assert_eq!((s.projection.width, s.projection.height), (1024, 768));
}

#[test]
fn projection_resize() {
    let mut p = Projection::new(4, 3, 45_000, 100, 100_000);
    p.resize(0, 0);
    assert_eq!((p.width, p.height), (4, 3));
    p.resize(16, 9);
    assert_eq!((p.width, p.height), (16, 9));
}

#[test]
fn mouse_turns_camera_only_while_dragging() {
    let mut s = State::new(800, 600);
    assert!(s.input(InputEvent::MouseMotion { dx: 10, dy: 0 }));
    assert_eq!(s.controller.rotate_horizontal, 0);
    assert!(s.input(InputEvent::Button { button: 1, pressed: true }));
    assert!(!s.input(InputEvent::Button { button: 3, pressed: true }));
    assert!(s.input(InputEvent::MouseMotion { dx: 10, dy: 0 }));
    assert_eq!(s.controller.rotate_horizontal, 10);
    assert!(!s.input(InputEvent::Other));
    let yaw = s.camera.yaw;
    s.update(16);
    assert_eq!(s.camera.yaw, yaw + 4000);
    assert_eq!(s.controller.rotate_horizontal, 0);
}

#[test]
fn frame_errors_map_to_actions() {
    assert_eq!(State::frame_action(FrameError::Lost), FrameAction::Reconfigure);
    assert_eq!(State::frame_action(FrameError::OutOfMemory), FrameAction::Exit);
    assert_eq!(State::frame_action(FrameError::Timeout), FrameAction::Skip);
    assert_eq!(State::frame_action(FrameError::Outdated), FrameAction::Skip);
}
