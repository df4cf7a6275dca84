use vulcan_engine::allocator::HandleAllocator;
use vulcan_engine::assets::load_primitive;
use vulcan_engine::geometry::{Vec2Bits, Vec3Bits, VertexData, VertexPbr};
use vulcan_engine::scene::{GameObject, ObjectId, RenderId, RenderObject, Scene, SceneError, PBR};
use vulcan_engine::texture::TextureData;
use vulcan_engine::transform::{
    exec_mat_mul, exec_trs_matrix, Quatf, Transform, Vec3f, Vec4f,
};

fn test_vertex() -> VertexPbr {
    VertexPbr {
        pos: Vec3Bits { x: 0, y: 0, z: 0 },
        normal: Vec3Bits { x: 0, y: 0, z: 0 },
        tex_coord: Vec2Bits { x: 0, y: 0 },
    }
}

fn test_render_object() -> RenderObject {
    RenderObject {
        vertex_data: VertexData {
            vertices: vec![test_vertex()],
            indices: vec![0, 0, 0],
            vertex_buffer: 1,
            vertex_buffer_memory: 2,
            index_buffer: 3,
            index_buffer_memory: 4,
            vertex_capacity: 1,
            index_capacity: 3,
            persistent_mapping: false,
        },
        pbr: PBR {
            texture_data: TextureData {
                mip_levels: 1,
                image: 5,
                image_memory: 6,
                image_view: 7,
                sampler: 8,
            },
            base: Vec4f { x: 65536, y: 65536, z: 65536, w: 65536 },
        },
        uniform_buffers: vec![],
        uniform_buffers_memory: vec![],
        descriptor_sets: vec![],
        instances: vec![],
    }
}

fn object_named(name: &str, rids: Vec<RenderId>) -> GameObject {
    GameObject {
        name: name.to_owned(),
        transform: Transform::default(),
        parent: None,
        children: vec![],
        render_objects: rids,
    }
}

#[test]
fn insert_registers_instance_once() {
    let mut scene = Scene::new();
    let rid = RenderId(scene.render_objects.insert(test_render_object()));
    let oid = scene
        .insert_instance(object_named("a", vec![rid]))
        .expect("insert with a valid render reference must succeed");
    let instances = &scene.render_objects.get(rid.0).unwrap().instances;
    assert_eq!(instances.iter().filter(|i| **i == oid).count(), 1);
    assert_eq!(instances.len(), 1);
}

#[test]
fn insert_with_stale_reference_fails_without_change() {
    let mut scene = Scene::new();
    let r = scene.insert_instance(object_named("a", vec![RenderId(7)]));
    assert!(r.is_none());
    assert_eq!(scene.objects.len(), 0);
}

#[test]
fn insert_with_repeated_reference_fails() {
    let mut scene = Scene::new();
    let rid = RenderId(scene.render_objects.insert(test_render_object()));
    let r = scene.insert_instance(object_named("a", vec![rid, rid]));
    assert!(r.is_none());
    assert_eq!(scene.objects.len(), 0);
    assert_eq!(scene.render_objects.get(rid.0).unwrap().instances.len(), 0);
}

#[test]
fn remove_strips_instance_everywhere() {
    let mut scene = Scene::new();
    let r1 = RenderId(scene.render_objects.insert(test_render_object()));
    let r2 = RenderId(scene.render_objects.insert(test_render_object()));
    let a = scene
        .insert_instance(object_named("a", vec![r1, r2]))
        .unwrap();
    let b = scene.insert_instance(object_named("b", vec![r1])).unwrap();
    let removed = scene.remove_instance(a).expect("a exists");
    assert_eq!(removed.name, "a");
    for rid in [r1, r2] {
        let instances = &scene.render_objects.get(rid.0).unwrap().instances;
        assert!(!instances.contains(&a));
    }
    // the other object's registration survives
    assert_eq!(
        scene
            .render_objects
            .get(r1.0)
            .unwrap()
            .instances
            .iter()
            .filter(|i| **i == b)
            .count(),
        1
    );
}

#[test]
fn identifiers_stay_valid_under_other_traffic() {
    // slab identifier stability: an id keeps naming its object through
    // unrelated inserts and removals
    let mut scene = Scene::new();
    let rid = RenderId(scene.render_objects.insert(test_render_object()));
    let a = scene.insert_instance(object_named("a", vec![rid])).unwrap();
    let b = scene.insert_instance(object_named("b", vec![rid])).unwrap();
    let c = scene.insert_instance(object_named("c", vec![])).unwrap();
    assert_ne!(a.0, b.0);
    scene.remove_instance(b).unwrap();
    assert_eq!(scene.objects.get(a.0).unwrap().name, "a");
    assert_eq!(scene.objects.get(c.0).unwrap().name, "c");
    let d = scene.insert_instance(object_named("d", vec![])).unwrap();
    assert_eq!(scene.objects.get(a.0).unwrap().name, "a");
    assert_eq!(scene.objects.get(d.0).unwrap().name, "d");
}

#[test]
fn slab_reuses_freed_slot() {
    let mut scene = Scene::new();
    let a = scene.insert_instance(object_named("a", vec![])).unwrap();
    let _b = scene.insert_instance(object_named("b", vec![])).unwrap();
    scene.remove_instance(a).unwrap();
    let c = scene.insert_instance(object_named("c", vec![])).unwrap();
    assert_eq!(c.0, a.0);
    assert_eq!(scene.objects.get(c.0).unwrap().name, "c");
}

#[test]
fn transform_object_accumulates() {
    let mut scene = Scene::new();
    let id = scene.insert_instance(object_named("a", vec![])).unwrap();
    let delta = Transform {
        position: Vec3f { x: 65536, y: 0, z: 0 },
        scale: Vec3f { x: 131072, y: 65536, z: 65536 },
        rotation: Quatf::identity(),
    };
    scene.transform_object(id, delta).unwrap();
    scene.transform_object(id, delta).unwrap();
    let t = scene.objects.get(id.0).unwrap().transform;
    assert_eq!(t.position.x, 131072); // 1 + 1
    assert_eq!(t.scale.x, 262144); // 2 * 2
    assert_eq!(t.scale.y, 65536);
    assert_eq!(t.rotation, Quatf::identity());
}

#[test]
fn transform_object_missing_errors() {
    let mut scene = Scene::new();
    assert_eq!(
        scene.transform_object(ObjectId(9), Transform::default()),
        Err(SceneError::ObjectNotFound)
    );
}

#[test]
fn global_matrix_of_root_is_local_matrix() {
    let mut scene = Scene::new();
    let t = Transform {
        position: Vec3f { x: 65536, y: 131072, z: 0 },
        ..Transform::default()
    };
    let mut obj = object_named("root", vec![]);
    obj.transform = t;
    let id = scene.insert_instance(obj).unwrap();
    let global = scene.global_matrix(id).unwrap();
    assert_eq!(global, exec_trs_matrix(&t));
}

#[test]
fn global_matrix_composes_parent_times_child() {
    let mut scene = Scene::new();
    let pt = Transform {
        position: Vec3f { x: 65536, y: 0, z: 0 },
        ..Transform::default()
    };
    let ct = Transform {
        position: Vec3f { x: 0, y: 196608, z: 0 },
        ..Transform::default()
    };
    let mut parent = object_named("p", vec![]);
    parent.transform = pt;
    let pid = scene.insert_instance(parent).unwrap();
    let mut child = object_named("c", vec![]);
    child.transform = ct;
    child.parent = Some(pid);
    let cid = scene.insert_instance(child).unwrap();
    let pg = scene.global_matrix(pid).unwrap();
    let cg = scene.global_matrix(cid).unwrap();
    assert_eq!(cg, exec_mat_mul(&pg, &exec_trs_matrix(&ct)));
    // translations in fixed point compose exactly here
    assert_eq!(cg.m03, 65536);
    assert_eq!(cg.m13, 196608);
}

#[test]
fn global_matrix_detects_parent_cycle() {
    let mut scene = Scene::new();
    let a = scene.insert_instance(object_named("a", vec![])).unwrap();
    let b = {
        let mut o = object_named("b", vec![]);
        o.parent = Some(a);
        scene.insert_instance(o).unwrap()
    };
    // corrupt the graph: make a its own descendant's child
    scene.objects.get_mut(a.0).parent = Some(b);
    assert!(scene.global_matrix(a).is_none());
    assert!(scene.global_matrix(b).is_none());
}

#[test]
fn global_matrix_missing_object_is_none() {
    let scene = Scene::new();
    assert!(scene.global_matrix(ObjectId(0)).is_none());
}

#[test]
fn end_to_end_scene_load() {
    // one root object with identity transform owning one render object
    // with a 2x2 texture and a unit quad
    let mut scene = Scene::new();
    let mut alloc = HandleAllocator::new();
    let vertices = vec![test_vertex(), test_vertex(), test_vertex(), test_vertex()];
    let indices = vec![0, 2, 1, 1, 2, 3];
    let (oid, rid) = load_primitive(
        &mut scene,
        &mut alloc,
        3,
        vertices,
        indices,
        2,
        2,
        Vec4f { x: 65536, y: 65536, z: 65536, w: 65536 },
        "quad".to_owned(),
        Transform::default(),
        None,
    );
    assert_eq!(scene.objects.len(), 1);
    assert_eq!(scene.render_objects.len(), 1);
    let ro = scene.render_objects.get(rid.0).unwrap();
    assert_eq!(ro.pbr.texture_data.mip_levels, 2);
    assert_eq!(ro.uniform_buffers.len(), 3);
    assert_eq!(ro.uniform_buffers_memory.len(), 3);
    assert_eq!(ro.vertex_data.vertices.len(), 4);
    assert_eq!(ro.vertex_data.indices.len(), 6);
    assert_eq!(ro.instances, vec![oid]);
    let obj = scene.objects.get(oid.0).unwrap();
    assert_eq!(obj.name, "quad");
    assert_eq!(obj.render_objects, vec![rid]);
    // identity transform: global matrix is the identity
    let g = scene.global_matrix(oid).unwrap();
    assert_eq!(g.m00, 65536);
    assert_eq!(g.m11, 65536);
    assert_eq!(g.m22, 65536);
    assert_eq!(g.m33, 65536);
    assert_eq!(g.m03, 0);
}

#[test]
fn correction_matrix_halves_depth() {
    let c = vulcan_engine::transform::correction_matrix();
    assert_eq!(c.m22, 32768);
    assert_eq!(c.m23, 32768);
    assert_eq!(c.m00, 65536);
    assert_eq!(c.m11, 65536);
    assert_eq!(c.m33, 65536);
}
