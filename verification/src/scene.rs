//! The scene graph: render objects and game objects in stable-key
//! arenas, with the invariant that every render object's instance list
//! holds exactly the game objects that reference it.

use crate::camera::Camera;
use crate::geometry::{VertexData, VertexPbr};
use crate::input::InputState;
use crate::slab::ParaSlab;
use crate::texture::TextureData;
use crate::transform::{
    exec_quat_mul, exec_vec3_add, exec_vec3_mul, mat_mul, quat_mul, trs_matrix, vec3_add, vec3_mul,
    Mat4f, Transform, Vec3f, Vec4f,
};
use vstd::prelude::*;

verus! {

/// A handle to a game object in the scene's object arena.
#[derive(Clone, Copy, Debug, PartialEq, Eq, Structural)]
pub struct ObjectId(pub usize);

/// A handle to a render object in the scene's render arena.
#[derive(Clone, Copy, Debug, PartialEq, Eq, Structural)]
pub struct RenderId(pub usize);

/// The material payload of a render object: its sampled texture and the
/// base color factor.
#[derive(Clone, Debug)]
pub struct PBR {
    pub texture_data: TextureData,
    pub base: Vec4f,
}

/// GPU-backed mesh and material, one uniform buffer and descriptor set
/// per swapchain image, and the game objects instancing it.
#[derive(Clone, Debug)]
pub struct RenderObject {
    pub vertex_data: VertexData<VertexPbr>,
    pub pbr: PBR,
    pub uniform_buffers: Vec<u64>,
    pub uniform_buffers_memory: Vec<u64>,
    pub descriptor_sets: Vec<u64>,
    pub instances: Vec<ObjectId>,
}

/// A node of the transform hierarchy; parents and children are named by
/// handle, never owned.
#[derive(Clone, Debug)]
pub struct GameObject {
    pub name: String,
    pub transform: Transform,
    pub parent: Option<ObjectId>,
    pub children: Vec<ObjectId>,
    pub render_objects: Vec<RenderId>,
}

/// The sky texture drawn behind all geometry, with one descriptor set
/// per swapchain image.
#[derive(Clone, Debug)]
pub struct SkyBox {
    pub texture_data: TextureData,
    pub descriptors: Vec<u64>,
}

/// The directional light, with one uniform buffer per swapchain image.
#[derive(Clone, Debug)]
pub struct Sun {
    pub buffer: Vec<u64>,
    pub memory: Vec<u64>,
    pub direction: Vec3f,
    pub color: Vec4f,
}

/// How often `x` occurs in `s`.
pub open spec fn count_matches(s: Seq<ObjectId>, x: ObjectId) -> nat
    decreases s.len(),
{
    if s.len() == 0 {
        0
    } else {
        count_matches(s.drop_last(), x) + if s.last() == x {
            1nat
        } else {
            0nat
        }
    }
}

/// 1 if the values are equal, else 0.
pub open spec fn eq_weight(a: ObjectId, b: ObjectId) -> nat {
    if a == b {
        1nat
    } else {
        0nat
    }
}

pub proof fn lemma_count_push(s: Seq<ObjectId>, v: ObjectId, x: ObjectId)
    ensures
        count_matches(s.push(v), x) == count_matches(s, x) + eq_weight(v, x),
{
    assert(s.push(v).drop_last() =~= s);
}

pub proof fn lemma_count_update(s: Seq<ObjectId>, i: int, v: ObjectId, x: ObjectId)
    requires
        0 <= i < s.len(),
    ensures
        count_matches(s.update(i, v), x) + eq_weight(s[i], x) == count_matches(s, x) + eq_weight(
            v,
            x,
        ),
    decreases s.len(),
{
    let t = s.update(i, v);
    if i == s.len() - 1 {
        assert(t.drop_last() =~= s.drop_last());
    } else {
        assert(t.drop_last() =~= s.drop_last().update(i, v));
        assert(t.last() == s.last());
        lemma_count_update(s.drop_last(), i, v, x);
    }
}

/// Removing position `i` by swapping in the last element takes away
/// exactly one occurrence of what stood at `i`.
pub proof fn lemma_count_swap_remove(s: Seq<ObjectId>, i: int, x: ObjectId)
    requires
        0 <= i < s.len(),
    ensures
        count_matches(s.update(i, s.last()).drop_last(), x) + eq_weight(s[i], x) == count_matches(
            s,
            x,
        ),
{
    let t = s.update(i, s.last());
    if i == s.len() - 1 {
        assert(t =~= s);
    } else {
        lemma_count_update(s, i, s.last(), x);
        assert(t.last() == s.last());
    }
}

/// A value absent from every position occurs zero times, and one that
/// occurs somewhere has positive count.
pub proof fn lemma_count_absent(s: Seq<ObjectId>, x: ObjectId)
    ensures
        (forall|j: int| 0 <= j < s.len() ==> s[j] != x) ==> count_matches(s, x) == 0,
        (exists|j: int| 0 <= j < s.len() && s[j] == x) ==> count_matches(s, x) > 0,
    decreases s.len(),
{
    if s.len() > 0 {
        lemma_count_absent(s.drop_last(), x);
        if exists|j: int| 0 <= j < s.len() && s[j] == x {
            let j = choose|j: int| 0 <= j < s.len() && s[j] == x;
            if j < s.len() - 1 {
                assert(s.drop_last()[j] == x);
            }
        }
    }
}

/// The scene: camera, arenas of render and game objects, the optional
/// sky, and the directional light.
pub struct Scene {
    pub camera: Camera,
    pub render_objects: ParaSlab<RenderObject>,
    pub objects: ParaSlab<GameObject>,
    pub skybox: Option<SkyBox>,
    pub sun: Sun,
    pub selected_object: ObjectId,
}

/// Both objects carry the same GPU state; only the instance list may
/// differ.
pub open spec fn same_render_except_instances(a: RenderObject, b: RenderObject) -> bool {
    &&& a.vertex_data == b.vertex_data
    &&& a.pbr == b.pbr
    &&& a.uniform_buffers == b.uniform_buffers
    &&& a.uniform_buffers_memory == b.uniform_buffers_memory
    &&& a.descriptor_sets == b.descriptor_sets
}

impl Scene {
    pub open spec fn has_obj(self, oid: ObjectId) -> bool {
        self.objects@.dom().contains(oid.0 as int)
    }

    pub open spec fn obj_at(self, oid: ObjectId) -> GameObject {
        self.objects@[oid.0 as int]
    }

    pub open spec fn has_render(self, rid: RenderId) -> bool {
        self.render_objects@.dom().contains(rid.0 as int)
    }

    pub open spec fn render_at(self, rid: RenderId) -> RenderObject {
        self.render_objects@[rid.0 as int]
    }

    /// How often the pair `(rid, oid)` is referenced: 1 when the object
    /// exists and lists the render object, else 0.
    pub open spec fn ref_count(self, rid: RenderId, oid: ObjectId) -> nat {
        if self.has_obj(oid) && self.obj_at(oid).render_objects@.contains(rid) {
            1
        } else {
            0
        }
    }

    /// The render references are distinct and all point at existing
    /// render objects.
    pub open spec fn render_refs_valid(self, rids: Seq<RenderId>) -> bool {
        &&& forall|k: int| 0 <= k < rids.len() ==> self.has_render(#[trigger] rids[k])
        &&& forall|k1: int, k2: int| 0 <= k1 < k2 < rids.len() ==> rids[k1] != rids[k2]
    }

    /// The object's render references are distinct and all point at
    /// existing render objects.
    pub open spec fn object_refs_valid(self, o: GameObject) -> bool {
        self.render_refs_valid(o.render_objects@)
    }

    /// The scene invariant: the arenas are well formed, every stored
    /// object's references are valid, and every render object's instance
    /// list contains each object id exactly as often as that object
    /// references it — so no instance list ever dangles.
    pub open spec fn wf(self) -> bool {
        &&& self.render_objects.wf()
        &&& self.objects.wf()
        &&& forall|i: int|
            self.objects@.dom().contains(i) ==> self.object_refs_valid(#[trigger] self.objects@[i])
        &&& forall|i: int, oid: ObjectId|
            self.render_objects@.dom().contains(i) ==> #[trigger] count_matches(
                self.render_objects@[i].instances@,
                oid,
            ) == self.ref_count(RenderId(i as usize), oid)
    }

    /// An empty scene with a default camera.
    pub fn new() -> (r: Scene)
        ensures
            r.wf(),
            r.objects@ =~= Map::<int, GameObject>::empty(),
            r.render_objects@ =~= Map::<int, RenderObject>::empty(),
            r.objects.spec_len() == 0,
            r.render_objects.spec_len() == 0,
            r.objects.capacity_spec() == 0,
            r.render_objects.capacity_spec() == 0,
            r.skybox is None,
    {
        Scene {
            camera: Camera::default(),
            render_objects: ParaSlab::new(),
            objects: ParaSlab::new(),
            skybox: None,
            sun: Sun {
                buffer: Vec::new(),
                memory: Vec::new(),
                direction: Vec3f { x: 0, y: crate::fx::FX_ONE, z: 0 },
                color: Vec4f {
                    x: crate::fx::FX_ONE,
                    y: crate::fx::FX_ONE,
                    z: crate::fx::FX_ONE,
                    w: crate::fx::FX_ONE,
                },
            },
            selected_object: ObjectId(0),
        }
    }

    /// Advances the camera by one frame of input.
    pub fn update(&mut self, delta: i64, input: &InputState)
        requires
            input.wf(),
        ensures
            final(self).camera == crate::camera::updated(old(self).camera, delta, *input),
            final(self).render_objects == old(self).render_objects,
            final(self).objects == old(self).objects,
            final(self).skybox == old(self).skybox,
            final(self).sun == old(self).sun,
            final(self).selected_object == old(self).selected_object,
    {
        self.camera.update(delta, input);
    }

    /// Registers a game object and appends its id to the instance list
    /// of every render object it references. A stale or repeated render
    /// reference leaves the scene unchanged and returns `None`.
    #[verifier::loop_isolation(false)]
    pub fn insert_instance(&mut self, object: GameObject) -> (r: Option<ObjectId>)
        requires
            old(self).wf(),
            old(self).objects.capacity_spec() < usize::MAX,
        ensures
            final(self).wf(),
            match r {
                None => *final(self) == *old(self) && !old(self).object_refs_valid(object),
                Some(oid) => {
                    &&& old(self).object_refs_valid(object)
                    &&& !old(self).has_obj(oid)
                    &&& final(self).has_obj(oid)
                    &&& final(self).objects@ =~= old(self).objects@.insert(oid.0 as int, object)
                    &&& final(self).objects.spec_len() == old(self).objects.spec_len() + 1
                    &&& final(self).render_objects.spec_len() == old(self).render_objects.spec_len()
                    &&& final(self).render_objects@.dom() =~= old(self).render_objects@.dom()
                    &&& forall|rid: RenderId|
                        old(self).has_render(rid) ==> same_render_except_instances(
                            old(self).render_at(rid),
                            #[trigger] final(self).render_at(rid),
                        )
                    &&& forall|rid: RenderId|
                        old(self).has_render(rid) ==> (#[trigger] final(self).render_at(
                            rid,
                        )).instances@ == if object.render_objects@.contains(rid) {
                            old(self).render_at(rid).instances@.push(oid)
                        } else {
                            old(self).render_at(rid).instances@
                        }
                    &&& final(self).camera == old(self).camera
                    &&& final(self).skybox == old(self).skybox
                    &&& final(self).sun == old(self).sun
                    &&& final(self).selected_object == old(self).selected_object
                },
            },
    {
        let n = object.render_objects.len();
        let mut k: usize = 0;
        while k < n
            invariant
                k <= n,
                forall|k1: int|
                    0 <= k1 < k ==> self.has_render(#[trigger] object.render_objects@[k1]),
                forall|k1: int, k2: int|
                    0 <= k1 < k2 < k ==> object.render_objects@[k1] != object.render_objects@[k2],
            decreases n - k,
        {
            let rid = object.render_objects[k];
            if !self.render_objects.contains(rid.0) {
                return None;
            }
            let mut j: usize = 0;
            while j < k
                invariant
                    j <= k,
                    k < n,
                    rid == object.render_objects@[k as int],
                    forall|j1: int| 0 <= j1 < j ==> object.render_objects@[j1] != rid,
                decreases k - j,
            {
                if object.render_objects[j].0 == rid.0 {
                    return None;
                }
                j = j + 1;
            }
            k = k + 1;
        }
        let mut rids: Vec<RenderId> = Vec::new();
        let mut k2: usize = 0;
        while k2 < n
            invariant
                k2 <= n,
                rids@ =~= object.render_objects@.subrange(0, k2 as int),
            decreases n - k2,
        {
            rids.push(object.render_objects[k2]);
            k2 = k2 + 1;
        }
        proof {
            assert(rids@ =~= object.render_objects@);
        }
        let ghost obj = object;
        let oid_raw = self.objects.insert(object);
        let oid = ObjectId(oid_raw);
        let ghost objects1 = self.objects;
        let ghost renders0 = old(self).render_objects@;
        let m = rids.len();
        let mut t: usize = 0;
        while t < m
            invariant
                t <= m,
                m == rids@.len(),
                self.objects == objects1,
                self.render_objects.wf(),
                self.render_objects@.dom() =~= renders0.dom(),
                self.render_objects.capacity_spec() == old(self).render_objects.capacity_spec(),
                self.render_objects.spec_len() == old(self).render_objects.spec_len(),
                oid.0 < self.objects.capacity_spec(),
                self.camera == old(self).camera,
                self.skybox == old(self).skybox,
                self.sun == old(self).sun,
                self.selected_object == old(self).selected_object,
                forall|i: int|
                    renders0.dom().contains(i) ==> same_render_except_instances(
                        renders0[i],
                        #[trigger] self.render_objects@[i],
                    ),
                forall|i: int|
                    renders0.dom().contains(i) ==> (#[trigger] self.render_objects@[i]).instances@
                        == if rids@.subrange(0, t as int).contains(RenderId(i as usize)) {
                        renders0[i].instances@.push(oid)
                    } else {
                        renders0[i].instances@
                    },
            decreases m - t,
        {
            let rid = rids[t];
            proof {
                if rids@.subrange(0, t as int).contains(rid) {
                    let w = choose|w: int| 0 <= w < t && rids@.subrange(0, t as int)[w] == rid;
                    assert(obj.render_objects@[w] == obj.render_objects@[t as int]);
                }
                assert(!rids@.subrange(0, t as int).contains(rid));
            }
            let ro = self.render_objects.get_mut(rid.0);
            ro.instances.push(oid);
            proof {
                old(self).render_objects.lemma_wf_bounds();
                assert(rids@.subrange(0, t + 1).drop_last() =~= rids@.subrange(0, t as int));
                assert forall|i: int| renders0.dom().contains(i) implies (
                #[trigger] self.render_objects@[i]).instances@ == if rids@.subrange(
                    0,
                    t + 1,
                ).contains(RenderId(i as usize)) {
                    renders0[i].instances@.push(oid)
                } else {
                    renders0[i].instances@
                } by {
                    assert(0 <= i <= usize::MAX);
                    if i == rid.0 as int {
                        assert(rids@.subrange(0, t + 1)[t as int] == rid);
                        assert(rids@.subrange(0, t + 1).contains(RenderId(i as usize)));
                    } else {
                        assert(RenderId(i as usize) != rid);
                        if rids@.subrange(0, t + 1).contains(RenderId(i as usize)) {
                            let w = choose|w: int|
                                0 <= w < t + 1 && #[trigger] rids@.subrange(0, t + 1)[w]
                                    == RenderId(i as usize);
                            assert(rids@.subrange(0, t + 1)[t as int] == rid);
                            assert(w != t);
                            assert(rids@.subrange(0, t as int)[w] == RenderId(i as usize));
                        }
                    }
                }
            }
            t = t + 1;
        }
        proof {
            assert(rids@.subrange(0, m as int) =~= obj.render_objects@);
            lemma_insert_restores_wf(*old(self), *self, obj, oid);
        }
        Some(oid)
    }

    /// Registers a game object with the given transform that instances
    /// the given render objects.
    pub fn insert_from_transform(&mut self, transform: Transform, render_object_ids: &Vec<
        RenderId,
    >) -> (r: Option<ObjectId>)
        requires
            old(self).wf(),
            old(self).objects.capacity_spec() < usize::MAX,
        ensures
            final(self).wf(),
            r is None <==> !old(self).render_refs_valid(render_object_ids@),
            r is None ==> *final(self) == *old(self),
            r matches Some(oid) ==> {
                &&& !old(self).has_obj(oid)
                &&& final(self).has_obj(oid)
                &&& final(self).objects.spec_len() == old(self).objects.spec_len() + 1
                &&& final(self).obj_at(oid).name@ == "no name"@
                &&& final(self).obj_at(oid).transform == transform
                &&& final(self).obj_at(oid).parent is None
                &&& final(self).obj_at(oid).children@.len() == 0
                &&& final(self).obj_at(oid).render_objects@ == render_object_ids@
                &&& forall|oid2: ObjectId|
                    oid2 != oid ==> (#[trigger] final(self).has_obj(oid2) == old(self).has_obj(
                        oid2,
                    ) && (old(self).has_obj(oid2) ==> final(self).obj_at(oid2) == old(self).obj_at(
                        oid2,
                    )))
                &&& final(self).render_objects@.dom() =~= old(self).render_objects@.dom()
                &&& forall|rid: RenderId|
                    old(self).has_render(rid) ==> same_render_except_instances(
                        old(self).render_at(rid),
                        #[trigger] final(self).render_at(rid),
                    )
                &&& forall|rid: RenderId|
                    old(self).has_render(rid) ==> (#[trigger] final(self).render_at(
                        rid,
                    )).instances@ == if render_object_ids@.contains(rid) {
                        old(self).render_at(rid).instances@.push(oid)
                    } else {
                        old(self).render_at(rid).instances@
                    }
                &&& final(self).camera == old(self).camera
                &&& final(self).skybox == old(self).skybox
                &&& final(self).sun == old(self).sun
                &&& final(self).selected_object == old(self).selected_object
            },
    {
        let mut rids: Vec<RenderId> = Vec::new();
        let n = render_object_ids.len();
        let mut k: usize = 0;
        while k < n
            invariant
                k <= n,
                n == render_object_ids@.len(),
                rids@ =~= render_object_ids@.subrange(0, k as int),
            decreases n - k,
        {
            rids.push(render_object_ids[k]);
            k = k + 1;
        }
        proof {
            assert(rids@ =~= render_object_ids@);
        }
        self.insert_instance(
            GameObject {
                name: "no name".to_owned(),
                transform,
                children: Vec::new(),
                render_objects: rids,
                parent: None,
            },
        )
    }

    /// Unregisters a game object and strips its id from the instance
    /// list of every render object it referenced, so that no instance
    /// list keeps a dangling id. The id must be live: a stale id is a
    /// corrupted-scene-graph violation, not a handled error.
    #[verifier::loop_isolation(false)]
    pub fn remove_instance(&mut self, id: ObjectId) -> (r: Option<GameObject>)
        requires
            old(self).wf(),
            old(self).has_obj(id),
        ensures
            final(self).wf(),
            match r {
                None => false,
                Some(o) => {
                    &&& o == old(self).obj_at(id)
                    &&& final(self).objects@ =~= old(self).objects@.remove(id.0 as int)
                    &&& final(self).objects.spec_len() + 1 == old(self).objects.spec_len()
                    &&& final(self).render_objects.spec_len() == old(self).render_objects.spec_len()
                    &&& final(self).render_objects@.dom() =~= old(self).render_objects@.dom()
                    &&& forall|rid: RenderId|
                        old(self).has_render(rid) ==> same_render_except_instances(
                            old(self).render_at(rid),
                            #[trigger] final(self).render_at(rid),
                        )
                    &&& forall|rid: RenderId|
                        old(self).has_render(rid) ==> count_matches(
                            (#[trigger] final(self).render_at(rid)).instances@,
                            id,
                        ) == 0
                    &&& forall|rid: RenderId, oid2: ObjectId|
                        old(self).has_render(rid) && oid2 != id ==> #[trigger] count_matches(
                            final(self).render_at(rid).instances@,
                            oid2,
                        ) == count_matches(old(self).render_at(rid).instances@, oid2)
                    &&& final(self).camera == old(self).camera
                    &&& final(self).skybox == old(self).skybox
                    &&& final(self).sun == old(self).sun
                    &&& final(self).selected_object == old(self).selected_object
                },
            },
    {
        let removed = self.objects.remove(id.0);
        let o = match removed {
            Some(o) => o,
            None => vstd::pervasive::unreached(),
        };
        let ghost objects1 = self.objects;
        let ghost renders0 = old(self).render_objects@;
        proof {
            old(self).render_objects.lemma_wf_bounds();
            assert(old(self).object_refs_valid(old(self).obj_at(id)));
        }
        let m = o.render_objects.len();
        let mut t: usize = 0;
        while t < m
            invariant
                t <= m,
                m == o.render_objects@.len(),
                o == old(self).obj_at(id),
                self.objects == objects1,
                self.render_objects.wf(),
                self.render_objects@.dom() =~= renders0.dom(),
                self.render_objects.capacity_spec() == old(self).render_objects.capacity_spec(),
                self.render_objects.spec_len() == old(self).render_objects.spec_len(),
                self.camera == old(self).camera,
                self.skybox == old(self).skybox,
                self.sun == old(self).sun,
                self.selected_object == old(self).selected_object,
                forall|i: int|
                    renders0.dom().contains(i) ==> same_render_except_instances(
                        renders0[i],
                        #[trigger] self.render_objects@[i],
                    ),
                forall|i: int, oid2: ObjectId|
                    renders0.dom().contains(i) ==> #[trigger] count_matches(
                        self.render_objects@[i].instances@,
                        oid2,
                    ) + (if o.render_objects@.subrange(0, t as int).contains(RenderId(i as usize))
                        && oid2 == id {
                        1nat
                    } else {
                        0nat
                    }) == count_matches(renders0[i].instances@, oid2),
            decreases m - t,
        {
            let rid = o.render_objects[t];
            proof {
                if o.render_objects@.subrange(0, t as int).contains(rid) {
                    let w = choose|w: int|
                        0 <= w < t && #[trigger] o.render_objects@.subrange(0, t as int)[w] == rid;
                    assert(o.render_objects@[w] == o.render_objects@[t as int]);
                }
                assert(renders0.dom().contains(rid.0 as int));
                assert(count_matches(self.render_objects@[rid.0 as int].instances@, id) == 1);
            }
            let ro = self.render_objects.get_mut(rid.0);
            let ghost inst0 = ro.instances@;
            let len = ro.instances.len();
            let mut j: usize = 0;
            while j < len && ro.instances[j].0 != id.0
                invariant
                    j <= len,
                    forall|j1: int| 0 <= j1 < j ==> ro.instances@[j1] != id,
                decreases len - j,
            {
                j = j + 1;
            }
            proof {
                if j == len {
                    lemma_count_absent(inst0, id);
                    assert(false);
                }
            }
            let ghost pre_swap = ro.instances@;
            ro.instances.swap_remove(j);
            proof {
                assert forall|oid2: ObjectId|
                    #[trigger] count_matches(ro.instances@, oid2) + eq_weight(pre_swap[j as int], oid2)
                        == count_matches(pre_swap, oid2) by {
                    lemma_count_swap_remove(pre_swap, j as int, oid2);
                }
                assert(o.render_objects@.subrange(0, t + 1).drop_last() =~= o.render_objects@
                    .subrange(0, t as int));
                assert forall|i: int, oid2: ObjectId| renders0.dom().contains(i) implies
                    #[trigger] count_matches(self.render_objects@[i].instances@, oid2) + (
                if o.render_objects@.subrange(0, t + 1).contains(RenderId(i as usize)) && oid2 == id {
                    1nat
                } else {
                    0nat
                }) == count_matches(renders0[i].instances@, oid2) by {
                    assert(0 <= i <= usize::MAX);
                    if i == rid.0 as int {
                        assert(o.render_objects@.subrange(0, t + 1)[t as int] == rid);
                        assert(o.render_objects@.subrange(0, t + 1).contains(RenderId(i as usize)));
                    } else {
                        assert(RenderId(i as usize) != rid);
                        if o.render_objects@.subrange(0, t + 1).contains(RenderId(i as usize)) {
                            let w = choose|w: int|
                                0 <= w < t + 1 && #[trigger] o.render_objects@.subrange(0, t + 1)[w]
                                    == RenderId(i as usize);
                            assert(o.render_objects@.subrange(0, t + 1)[t as int] == rid);
                            assert(w != t);
                            assert(o.render_objects@.subrange(0, t as int)[w] == RenderId(
                                i as usize,
                            ));
                        }
                    }
                }
            }
            t = t + 1;
        }
        proof {
            assert(o.render_objects@.subrange(0, m as int) =~= o.render_objects@);
            lemma_remove_restores_wf(*old(self), *self, o, id);
        }
        Some(o)
    }

    /// Accumulates a transform delta onto an object: positions add,
    /// scales multiply componentwise, and rotations compose on the
    /// right.
    pub fn transform_object(&mut self, id: ObjectId, transform: Transform) -> (r: Result<
        (),
        SceneError,
    >)
        requires
            old(self).wf(),
        ensures
            final(self).wf(),
            match r {
                Ok(_) => {
                    &&& old(self).has_obj(id)
                    &&& final(self).objects@ =~= old(self).objects@.insert(
                        id.0 as int,
                        GameObject {
                            transform: accumulated(old(self).obj_at(id).transform, transform),
                            ..old(self).obj_at(id)
                        },
                    )
                    &&& final(self).render_objects == old(self).render_objects
                    &&& final(self).camera == old(self).camera
                    &&& final(self).skybox == old(self).skybox
                    &&& final(self).sun == old(self).sun
                    &&& final(self).selected_object == old(self).selected_object
                },
                Err(e) => e == SceneError::ObjectNotFound && !old(self).has_obj(id) && *final(self)
                    == *old(self),
            },
    {
        if !self.objects.contains(id.0) {
            return Err(SceneError::ObjectNotFound);
        }
        let obj = self.objects.get_mut(id.0);
        obj.transform.position = exec_vec3_add(obj.transform.position, transform.position);
        obj.transform.rotation = exec_quat_mul(obj.transform.rotation, transform.rotation);
        obj.transform.scale = exec_vec3_mul(obj.transform.scale, transform.scale);
        proof {
            lemma_update_transform_keeps_wf(*old(self), *self, id);
        }
        Ok(())
    }

    /// The global matrix of the object under `oid`: the composition of
    /// its ancestors' local matrices down to its own. Returns `None` for
    /// a stale id, a dangling parent, or a parent cycle, which the step
    /// budget of one arena capacity cuts off.
    pub fn global_matrix(&self, oid: ObjectId) -> (r: Option<Mat4f>)
        ensures
            r == global_of(self.objects@, oid.0 as int, self.objects.capacity_spec()),
    {
        global_matrix_with_fuel(&self.objects, oid.0, self.objects.capacity())
    }
}

impl Default for Scene {
    fn default() -> (r: Scene)
        ensures
            r.wf(),
            r.objects.spec_len() == 0,
            r.render_objects.spec_len() == 0,
            r.objects.capacity_spec() == 0,
            r.render_objects.capacity_spec() == 0,
            r.skybox is None,
    {
        Scene::new()
    }
}

/// Errors of scene mutation.
#[derive(Clone, Copy, Debug, PartialEq, Eq, Structural)]
pub enum SceneError {
    ObjectNotFound,
}

/// A transform with `d` accumulated onto `t`: position adds, scale
/// multiplies componentwise, rotation composes by quaternion
/// multiplication.
pub open spec fn accumulated(t: Transform, d: Transform) -> Transform {
    Transform {
        position: vec3_add(t.position, d.position),
        scale: vec3_mul(t.scale, d.scale),
        rotation: quat_mul(t.rotation, d.rotation),
    }
}

/// The global matrix of `oid` computed with a step budget: the local
/// matrix for a root, the parent's global times the local matrix for a
/// child, `None` when the id is stale, a parent dangles, or the budget
/// runs out (which only a parent cycle longer than the arena can cause).
pub open spec fn global_of(objects: Map<int, GameObject>, oid: int, fuel: nat) -> Option<Mat4f>
    decreases fuel,
{
    if !objects.dom().contains(oid) {
        None
    } else {
        let o = objects[oid];
        match o.parent {
            None => Some(trs_matrix(o.transform)),
            Some(p) => if fuel == 0 {
                None
            } else {
                match global_of(objects, p.0 as int, (fuel - 1) as nat) {
                    None => None,
                    Some(pm) => Some(mat_mul(pm, trs_matrix(o.transform))),
                }
            },
        }
    }
}

fn global_matrix_with_fuel(objects: &ParaSlab<GameObject>, oid: usize, fuel: usize) -> (r: Option<
    Mat4f,
>)
    ensures
        r == global_of(objects@, oid as int, fuel as nat),
    decreases fuel,
{
    match objects.get(oid) {
        None => None,
        Some(o) => {
            let local = o.transform.matrix();
            match o.parent {
                None => Some(local),
                Some(p) => {
                    if fuel == 0 {
                        None
                    } else {
                        match global_matrix_with_fuel(objects, p.0, fuel - 1) {
                            None => None,
                            Some(pm) => Some(crate::transform::exec_mat_mul(&pm, &local)),
                        }
                    }
                },
            }
        },
    }
}

/// A defined global matrix stays the same under a larger step budget.
pub proof fn lemma_global_of_fuel_mono(objects: Map<int, GameObject>, oid: int, f1: nat, f2: nat)
    requires
        f1 <= f2,
        global_of(objects, oid, f1) is Some,
    ensures
        global_of(objects, oid, f2) == global_of(objects, oid, f1),
    decreases f1,
{
    if objects.dom().contains(oid) {
        let o = objects[oid];
        match o.parent {
            None => {},
            Some(p) => {
                lemma_global_of_fuel_mono(objects, p.0 as int, (f1 - 1) as nat, (f2 - 1) as nat);
            },
        }
    }
}

/// Transform composition: the global matrix of a root object is exactly
/// its local matrix.
pub proof fn lemma_global_matrix_root(objects: Map<int, GameObject>, oid: int, fuel: nat)
    requires
        objects.dom().contains(oid),
        objects[oid].parent is None,
    ensures
        global_of(objects, oid, fuel) == Some(trs_matrix(objects[oid].transform)),
{
}

/// Transform composition: wherever the parent's global matrix is
/// defined, the child's global matrix is the parent's global matrix
/// times the child's local matrix.
pub proof fn lemma_global_matrix_composes(
    objects: Map<int, GameObject>,
    c: int,
    p: ObjectId,
    fuel: nat,
    pm: Mat4f,
)
    requires
        objects.dom().contains(c),
        objects[c].parent == Some(p),
        global_of(objects, p.0 as int, fuel) == Some(pm),
    ensures
        global_of(objects, c, fuel + 1) == Some(mat_mul(pm, trs_matrix(objects[c].transform))),
{
}

/// Instance list consistency: in a well-formed scene, a render object's
/// instance list holds an object id exactly once when that object
/// references it, and never otherwise. In particular no removed or
/// unrelated object is ever listed.
pub proof fn lemma_instance_list_consistency(s: Scene, rid: RenderId, oid: ObjectId)
    requires
        s.wf(),
        s.has_render(rid),
    ensures
        count_matches(s.render_at(rid).instances@, oid) == (if s.has_obj(oid) && s.obj_at(
            oid,
        ).render_objects@.contains(rid) {
            1nat
        } else {
            0nat
        }),
{
    s.render_objects.lemma_wf_bounds();
    assert(s.render_objects@.dom().contains(rid.0 as int));
}

/// After updating one object's transform the scene invariant still
/// holds: reference validity and instance counts ignore the transform.
proof fn lemma_update_transform_keeps_wf(pre: Scene, post: Scene, id: ObjectId)
    requires
        pre.wf(),
        pre.has_obj(id),
        post.objects.wf(),
        post.objects@ == pre.objects@.insert(
            id.0 as int,
            GameObject { transform: post.objects@[id.0 as int].transform, ..pre.obj_at(id) },
        ),
        post.render_objects == pre.render_objects,
    ensures
        post.wf(),
{
    assert forall|i: int|
        post.objects@.dom().contains(i) implies post.object_refs_valid(
        #[trigger] post.objects@[i],
    ) by {
        if i == id.0 as int {
            assert(pre.object_refs_valid(pre.objects@[i]));
            assert(post.objects@[i].render_objects@ == pre.objects@[i].render_objects@);
        } else {
            assert(post.objects@[i] == pre.objects@[i]);
            assert(pre.object_refs_valid(pre.objects@[i]));
        }
    }
    assert forall|i: int, oid2: ObjectId|
        post.render_objects@.dom().contains(i) implies #[trigger] count_matches(
        post.render_objects@[i].instances@,
        oid2,
    ) == post.ref_count(RenderId(i as usize), oid2) by {
        let rid = RenderId(i as usize);
        assert(count_matches(pre.render_objects@[i].instances@, oid2) == pre.ref_count(rid, oid2));
        assert(post.has_obj(oid2) == pre.has_obj(oid2));
        if pre.has_obj(oid2) {
            assert(post.obj_at(oid2).render_objects@ == pre.obj_at(oid2).render_objects@);
        }
    }
}

/// After the instance lists of exactly the referenced render objects
/// each lost one occurrence of the removed id, the scene invariant holds
/// again.
proof fn lemma_remove_restores_wf(pre: Scene, post: Scene, o: GameObject, id: ObjectId)
    requires
        pre.wf(),
        pre.has_obj(id),
        o == pre.obj_at(id),
        post.objects@ == pre.objects@.remove(id.0 as int),
        post.objects.wf(),
        post.render_objects.wf(),
        post.render_objects@.dom() =~= pre.render_objects@.dom(),
        forall|i: int|
            pre.render_objects@.dom().contains(i) ==> same_render_except_instances(
                pre.render_objects@[i],
                #[trigger] post.render_objects@[i],
            ),
        forall|i: int, oid2: ObjectId|
            pre.render_objects@.dom().contains(i) ==> #[trigger] count_matches(
                post.render_objects@[i].instances@,
                oid2,
            ) + (if o.render_objects@.contains(RenderId(i as usize)) && oid2 == id {
                1nat
            } else {
                0nat
            }) == count_matches(pre.render_objects@[i].instances@, oid2),
    ensures
        post.wf(),
{
    pre.render_objects.lemma_wf_bounds();
    pre.objects.lemma_wf_bounds();
    assert forall|i: int|
        post.objects@.dom().contains(i) implies post.object_refs_valid(
        #[trigger] post.objects@[i],
    ) by {
        assert(pre.objects@.dom().contains(i));
        assert(post.objects@[i] == pre.objects@[i]);
        assert(pre.object_refs_valid(pre.objects@[i]));
    }
    assert forall|i: int, oid2: ObjectId|
        post.render_objects@.dom().contains(i) implies #[trigger] count_matches(
        post.render_objects@[i].instances@,
        oid2,
    ) == post.ref_count(RenderId(i as usize), oid2) by {
        let rid = RenderId(i as usize);
        assert(count_matches(pre.render_objects@[i].instances@, oid2) == pre.ref_count(rid, oid2));
        if oid2 == id {
            assert(!post.has_obj(oid2));
            assert(pre.ref_count(rid, id) == if o.render_objects@.contains(rid) {
                1nat
            } else {
                0nat
            });
        } else {
            assert(post.has_obj(oid2) == pre.has_obj(oid2));
            if pre.has_obj(oid2) {
                assert(post.obj_at(oid2) == pre.obj_at(oid2));
            }
        }
    }
}

/// After the instance lists of exactly the referenced render objects
/// gained the fresh id, the scene invariant holds again.
proof fn lemma_insert_restores_wf(pre: Scene, post: Scene, obj: GameObject, oid: ObjectId)
    requires
        pre.wf(),
        pre.object_refs_valid(obj),
        !pre.has_obj(oid),
        post.objects@ == pre.objects@.insert(oid.0 as int, obj),
        post.objects.wf(),
        post.render_objects.wf(),
        post.render_objects@.dom() =~= pre.render_objects@.dom(),
        forall|i: int|
            pre.render_objects@.dom().contains(i) ==> same_render_except_instances(
                pre.render_objects@[i],
                #[trigger] post.render_objects@[i],
            ),
        forall|i: int|
            pre.render_objects@.dom().contains(i) ==> (#[trigger] post.render_objects@[i]).instances@
                == if obj.render_objects@.contains(RenderId(i as usize)) {
                pre.render_objects@[i].instances@.push(oid)
            } else {
                pre.render_objects@[i].instances@
            },
    ensures
        post.wf(),
{
    pre.render_objects.lemma_wf_bounds();
    pre.objects.lemma_wf_bounds();
    assert forall|i: int|
        post.objects@.dom().contains(i) implies post.object_refs_valid(
        #[trigger] post.objects@[i],
    ) by {
        if i == oid.0 as int {
            assert(post.objects@[i] == obj);
        } else {
            assert(pre.objects@.dom().contains(i));
            assert(pre.object_refs_valid(pre.objects@[i]));
            assert(post.objects@[i] == pre.objects@[i]);
        }
    }
    assert forall|i: int, oid2: ObjectId|
        post.render_objects@.dom().contains(i) implies #[trigger] count_matches(
        post.render_objects@[i].instances@,
        oid2,
    ) == post.ref_count(RenderId(i as usize), oid2) by {
        let rid = RenderId(i as usize);
        let pre_inst = pre.render_objects@[i].instances@;
        assert(count_matches(pre_inst, oid2) == pre.ref_count(rid, oid2));
        if obj.render_objects@.contains(rid) {
            lemma_count_push(pre_inst, oid, oid2);
            if oid2 == oid {
                assert(pre.ref_count(rid, oid2) == 0);
                assert(post.ref_count(rid, oid2) == 1);
            } else {
                assert(post.has_obj(oid2) == pre.has_obj(oid2));
                if pre.has_obj(oid2) {
                    assert(post.obj_at(oid2) == pre.obj_at(oid2));
                }
            }
        } else {
            if oid2 == oid {
                assert(pre.ref_count(rid, oid2) == 0);
                assert(post.ref_count(rid, oid2) == 0);
            } else {
                assert(post.has_obj(oid2) == pre.has_obj(oid2));
                if pre.has_obj(oid2) {
                    assert(post.obj_at(oid2) == pre.obj_at(oid2));
                }
            }
        }
    }
}

} // verus!
