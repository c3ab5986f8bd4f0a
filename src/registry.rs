//! The model registry: materials, each owning its own collection of meshes,
//! drawn in per-material batches in the order the materials were registered.
use crate::graphics::{Extent, Graphics};
use crate::slots::{has_live_version, new_slot_map, slot_entries, slot_get, slot_insert, Slots};
use vstd::prelude::*;

verus! {

/// Identifies a material of a registry. Stale or foreign ids fail lookups.
#[derive(Clone, Copy, Debug, PartialEq, Eq, Structural, Hash)]
pub struct MaterialId {
    key: u64,
}

/// Identifies a mesh within the collection of one material.
#[derive(Clone, Copy, Debug, PartialEq, Eq, Structural, Hash)]
pub struct PerMaterialModelId {
    key: u64,
}

/// Identifies a mesh: meaningful only together with its material, since
/// each material keys its meshes on its own. A mesh id names nothing once
/// its material is gone.
#[derive(Clone, Copy, Debug, PartialEq, Eq, Structural, Hash)]
pub struct ModelId {
    per_material_id: PerMaterialModelId,
    pub material_id: MaterialId,
}

impl ModelId {
    /// The material whose collection holds the mesh.
    pub closed spec fn material(self) -> MaterialId {
        self.material_id
    }
}

impl MaterialId {
    #[verifier::type_invariant]
    spec fn live(self) -> bool {
        has_live_version(self.key)
    }
}

/// A rendering strategy, written by the library's users. It binds whatever
/// it needs within the draw context `C` and draws each of the meshes it is
/// handed. `drawn` is what one strategy was handed, a batch per call;
/// `pass_log` is what strategies of the type drew into a draw context, a
/// batch per call, in call order. The contract of `render` is each
/// implementation's own claim. The empty defaults serve implementations
/// written outside verified code; no verified implementation can keep them,
/// since its `render` could then not meet its contract.
pub trait MaterialRenderer<C, G> {
    closed spec fn drawn(&self) -> Seq<Seq<G>> {
        Seq::empty()
    }

    closed spec fn pass_log(ctx: C) -> Seq<Seq<G>> {
        Seq::empty()
    }

    fn render(&mut self, ctx: &mut C, models: &[G])
        ensures
            final(self).drawn() == old(self).drawn().push(models@),
            Self::pass_log(*final(ctx)) == Self::pass_log(*old(ctx)).push(models@),
    ;
}

struct MaterialSlot<M, G> {
    key: u64,
    material: M,
    model_keys: Slots,
    models: Vec<G>,
}

/// The registry's contents as the draw loop sees them: the materials' ids in
/// registration order and, for each, its meshes in insertion order.
pub struct Batches<G> {
    pub ids: Seq<MaterialId>,
    pub models: Seq<Seq<G>>,
}

pub open spec fn with_material<G>(v: Batches<G>, id: MaterialId) -> Batches<G> {
    Batches { ids: v.ids.push(id), models: v.models.push(Seq::empty()) }
}

pub open spec fn with_model<G>(v: Batches<G>, id: MaterialId, mesh: G) -> Batches<G> {
    Batches {
        ids: v.ids,
        models: Seq::new(
            v.models.len(),
            |i: int|
                if v.ids[i] == id {
                    v.models[i].push(mesh)
                } else {
                    v.models[i]
                },
        ),
    }
}

/// No materials.
pub open spec fn no_batches<G>() -> Batches<G> {
    Batches { ids: Seq::empty(), models: Seq::empty() }
}

/// The registry's contents after registering each of `ids` in turn.
pub open spec fn with_materials<G>(v: Batches<G>, ids: Seq<MaterialId>) -> Batches<G>
    decreases ids.len(),
{
    if ids.len() == 0 {
        v
    } else {
        with_material(with_materials(v, ids.drop_last()), ids.last())
    }
}

/// The registry's contents after each addition of `adds`, a mesh and the
/// material it is added to, in turn.
pub open spec fn with_models<G>(v: Batches<G>, adds: Seq<(MaterialId, G)>) -> Batches<G>
    decreases adds.len(),
{
    if adds.len() == 0 {
        v
    } else {
        with_model(with_models(v, adds.drop_last()), adds.last().0, adds.last().1)
    }
}

/// The meshes of `adds` that go to material `id`, in order.
pub open spec fn added_to<G>(adds: Seq<(MaterialId, G)>, id: MaterialId) -> Seq<G>
    decreases adds.len(),
{
    if adds.len() == 0 {
        Seq::empty()
    } else if adds.last().0 == id {
        added_to(adds.drop_last(), id).push(adds.last().1)
    } else {
        added_to(adds.drop_last(), id)
    }
}

proof fn lemma_with_materials<G>(ids: Seq<MaterialId>)
    ensures
        with_materials(no_batches::<G>(), ids).ids == ids,
        with_materials(no_batches::<G>(), ids).models == Seq::new(
            ids.len(),
            |i: int| Seq::<G>::empty(),
        ),
    decreases ids.len(),
{
    if ids.len() > 0 {
        lemma_with_materials::<G>(ids.drop_last());
        assert(ids.drop_last().push(ids.last()) =~= ids);
        assert(with_materials(no_batches::<G>(), ids).models =~= Seq::new(
            ids.len(),
            |i: int| Seq::<G>::empty(),
        ));
    } else {
        assert(with_materials(no_batches::<G>(), ids).models =~= Seq::new(
            ids.len(),
            |i: int| Seq::<G>::empty(),
        ));
    }
}

/// Materials registered in turn and then given meshes, in any interleaving
/// of additions, are drawn in registration order, each with exactly the
/// meshes added to it, in the order they were added: no mesh reaches
/// another material's batch.
pub proof fn lemma_batches_partition<G>(ids: Seq<MaterialId>, adds: Seq<(MaterialId, G)>)
    ensures
        with_models(with_materials(no_batches::<G>(), ids), adds).ids == ids,
        with_models(with_materials(no_batches::<G>(), ids), adds).models.len() == ids.len(),
        forall|i: int|
            0 <= i < ids.len() ==> #[trigger] with_models(
                with_materials(no_batches::<G>(), ids),
                adds,
            ).models[i] == added_to(adds, ids[i]),
    decreases adds.len(),
{
    lemma_with_materials::<G>(ids);
    if adds.len() > 0 {
        lemma_batches_partition(ids, adds.drop_last());
    }
}

spec fn slots_wf<M, G>(material_keys: Slots, slots: Vec<MaterialSlot<M, G>>) -> bool {
    let entries = slot_entries(material_keys);
    &&& entries.dom().finite()
    &&& entries.dom().len() == slots.len()
    &&& forall|i: int|
        0 <= i < slots.len() ==> {
            &&& #[trigger] entries.contains_key(slots[i].key)
            &&& entries[slots[i].key] == i
            &&& has_live_version(slots[i].key)
            &&& slot_entries(slots[i].model_keys).dom().finite()
            &&& slot_entries(slots[i].model_keys).dom().len() == slots[i].models.len()
        }
    &&& forall|k: u64|
        #[trigger] entries.contains_key(k) ==> entries[k] < slots.len()
            && slots[entries[k] as int].key == k
}

/// Registered materials with their meshes, and the depth target `D` of the
/// pass they are drawn in.
pub struct ModelRenderer<M, G, D> {
    material_keys: Slots,
    slots: Vec<MaterialSlot<M, G>>,
    depth_target: D,
    depth_size: Extent,
}

impl<M, G, D> ModelRenderer<M, G, D> {
    pub closed spec fn wf(&self) -> bool {
        slots_wf(self.material_keys, self.slots)
    }

    pub closed spec fn batches(&self) -> Batches<G> {
        Batches {
            ids: Seq::new(self.slots.len() as nat, |i: int| MaterialId { key: self.slots[i].key }),
            models: Seq::new(self.slots.len() as nat, |i: int| self.slots[i].models@),
        }
    }

    /// The rendering strategies, in registration order.
    pub closed spec fn materials(&self) -> Seq<M> {
        Seq::new(self.slots.len() as nat, |i: int| self.slots[i].material)
    }

    /// Whether the id names a material of this registry.
    pub closed spec fn has_material(&self, id: MaterialId) -> bool {
        slot_entries(self.material_keys).contains_key(id.key)
    }

    /// How many meshes the material holds; none for an unknown id.
    pub closed spec fn model_count(&self, id: MaterialId) -> nat {
        if self.has_material(id) {
            self.slots[slot_entries(self.material_keys)[id.key] as int].models@.len()
        } else {
            0
        }
    }

    /// Whether the mesh id names a mesh of this registry.
    pub closed spec fn has_model(&self, id: ModelId) -> bool {
        let entries = slot_entries(self.material_keys);
        &&& entries.contains_key(id.material_id.key)
        &&& slot_entries(self.slots[entries[id.material_id.key] as int].model_keys).contains_key(
            id.per_material_id.key,
        )
    }

    pub closed spec fn spec_depth_size(&self) -> Extent {
        self.depth_size
    }

    pub closed spec fn spec_depth_target(&self) -> D {
        self.depth_target
    }

    /// An empty registry whose depth target has the context's viewport size.
    pub fn new(ctx: &Graphics, depth_target: D) -> (r: Self)
        ensures
            r.wf(),
            r.batches() == no_batches::<G>(),
            r.materials().len() == 0,
            r.spec_depth_size() == ctx@.viewport,
            r.spec_depth_target() == depth_target,
    {
        let r = ModelRenderer {
            material_keys: new_slot_map(),
            slots: Vec::new(),
            depth_target,
            depth_size: ctx.viewport_size(),
        };
        proof {
            assert(slot_entries(r.material_keys).dom().len() == 0);
            assert(r.batches().ids =~= no_batches::<G>().ids);
            assert(r.batches().models =~= no_batches::<G>().models);
        }
        r
    }

    /// Takes ownership of a rendering strategy, gives it a fresh id and an
    /// empty mesh collection, and returns the id.
    pub fn add_material(&mut self, material: M) -> (id: MaterialId)
        requires
            old(self).wf(),
            old(self).batches().ids.len() + 2 < u32::MAX,
        ensures
            final(self).wf(),
            !old(self).batches().ids.contains(id),
            !old(self).has_material(id),
            forall|o: MaterialId|
                #[trigger] final(self).has_material(o) == (old(self).has_material(o) || o == id),
            final(self).model_count(id) == 0,
            forall|o: MaterialId|
                o != id ==> #[trigger] final(self).model_count(o) == old(self).model_count(o),
            final(self).batches() == with_material(old(self).batches(), id),
            final(self).materials() == old(self).materials().push(material),
            final(self).spec_depth_size() == old(self).spec_depth_size(),
            final(self).spec_depth_target() == old(self).spec_depth_target(),
    {
        let ghost old_entries = slot_entries(self.material_keys);
        let position = self.slots.len();
        let key = slot_insert(&mut self.material_keys, position);
        let model_keys = new_slot_map();
        proof {
            assert(slot_entries(model_keys).dom().len() == 0);
        }
        self.slots.push(MaterialSlot { key, material, model_keys, models: Vec::new() });
        let id = MaterialId { key };
        proof {
            let entries = slot_entries(self.material_keys);
            assert(entries.dom() == old_entries.dom().insert(key));
            assert forall|i: int| 0 <= i < self.slots.len() implies {
                &&& #[trigger] entries.contains_key(self.slots[i].key)
                &&& entries[self.slots[i].key] == i
            } by {
                if i < position {
                    assert(old_entries.contains_key(old(self).slots[i].key));
                    assert(old(self).slots[i].key != key);
                }
            }
            assert forall|k: u64| #[trigger] entries.contains_key(k) implies entries[k]
                < self.slots.len() && self.slots[entries[k] as int].key == k by {
                if k != key {
                    assert(old_entries.contains_key(k));
                }
            }
            if old(self).batches().ids.contains(id) {
                let i = choose|i: int|
                    0 <= i < old(self).batches().ids.len() && old(self).batches().ids[i] == id;
                assert(old(self).slots[i].key == key);
                assert(old_entries.contains_key(old(self).slots[i].key));
            }
            assert(self.batches().ids =~= old(self).batches().ids.push(id));
            assert(self.batches().models =~= old(self).batches().models.push(Seq::empty()));
            assert(self.materials() =~= old(self).materials().push(material));
            assert forall|o: MaterialId| o != id implies #[trigger] self.model_count(o)
                == old(self).model_count(o) by {
                if old(self).has_material(o) {
                    assert(o.key != key);
                }
            }
        }
        id
    }

    /// Whether the id names a material of this registry.
    pub fn contains_material(&self, id: MaterialId) -> (r: bool)
        requires
            self.wf(),
        ensures
            r == self.has_material(id),
            r == self.batches().ids.contains(id),
    {
        proof {
            use_type_invariant(&id);
        }
        let found = slot_get(&self.material_keys, id.key);
        proof {
            let entries = slot_entries(self.material_keys);
            if entries.contains_key(id.key) {
                let i = entries[id.key] as int;
                assert(self.batches().ids[i] == id);
            }
            if self.batches().ids.contains(id) {
                let i = choose|i: int|
                    0 <= i < self.batches().ids.len() && self.batches().ids[i] == id;
                assert(self.slots[i].key == id.key);
            }
        }
        found.is_some()
    }

    /// Adds a mesh to the collection of a registered material and returns the
    /// mesh's id.
    pub fn add_model(&mut self, mesh: G, material_id: MaterialId) -> (id: ModelId)
        requires
            old(self).wf(),
            old(self).has_material(material_id),
            old(self).model_count(material_id) + 2 < u32::MAX,
        ensures
            final(self).wf(),
            id.material() == material_id,
            !old(self).has_model(id),
            final(self).has_model(id),
            forall|o: MaterialId| #[trigger] final(self).has_material(o) == old(self).has_material(o),
            final(self).model_count(material_id) == old(self).model_count(material_id) + 1,
            forall|o: MaterialId|
                o != material_id ==> #[trigger] final(self).model_count(o) == old(self).model_count(
                    o,
                ),
            final(self).batches() == with_model(old(self).batches(), material_id, mesh),
            final(self).materials() == old(self).materials(),
            final(self).spec_depth_size() == old(self).spec_depth_size(),
            final(self).spec_depth_target() == old(self).spec_depth_target(),
    {
        proof {
            use_type_invariant(&material_id);
        }
        let ghost entries = slot_entries(self.material_keys);
        let position = slot_get(&self.material_keys, material_id.key);
        let index = position.unwrap();
        let ghost old_slot_keys = slot_entries(self.slots[index as int].model_keys);
        let slot = &mut self.slots[index];
        let next = slot.models.len();
        let key = slot_insert(&mut slot.model_keys, next);
        slot.models.push(mesh);
        let id = ModelId { per_material_id: PerMaterialModelId { key }, material_id };
        proof {
            let ob = old(self).batches();
            let nb = self.batches();
            let expected = with_model(ob, material_id, mesh);
            assert(slot_entries(self.slots[index as int].model_keys).dom() =~= old_slot_keys.dom().insert(key));
            assert forall|i: int| 0 <= i < nb.models.len() implies nb.models[i] == expected.models[i] by {
                if i != index {
                    assert(self.slots[i].key != material_id.key);
                }
            }
            assert(nb.ids =~= expected.ids);
            assert(nb.models =~= expected.models);
            assert(self.materials() =~= old(self).materials());
            assert forall|o: MaterialId| o != material_id implies #[trigger] self.model_count(o)
                == old(self).model_count(o) by {
                if old(self).has_material(o) {
                    assert(o.key != material_id.key);
                }
            }
        }
        id
    }

    /// Draws every material, in registration order, handing each exactly
    /// the meshes of its own collection.
    pub fn render<C>(&mut self, ctx: &mut C)
        where
            M: MaterialRenderer<C, G>,
        requires
            old(self).wf(),
        ensures
            final(self).wf(),
            final(self).batches() == old(self).batches(),
            final(self).materials().len() == old(self).materials().len(),
            M::pass_log(*final(ctx)) == M::pass_log(*old(ctx)) + old(self).batches().models,
            forall|i: int|
                0 <= i < old(self).materials().len() ==> #[trigger] final(self).materials()[i].drawn()
                    == old(self).materials()[i].drawn().push(old(self).batches().models[i]),
            final(self).spec_depth_size() == old(self).spec_depth_size(),
            final(self).spec_depth_target() == old(self).spec_depth_target(),
    {
        let n = self.slots.len();
        let mut i: usize = 0;
        while i < n
            invariant
                n == self.slots.len(),
                n == old(self).slots.len(),
                i <= n,
                self.material_keys == old(self).material_keys,
                self.depth_size == old(self).depth_size,
                self.depth_target == old(self).depth_target,
                forall|j: int|
                    0 <= j < n ==> {
                        &&& (#[trigger] self.slots[j]).key == old(self).slots[j].key
                        &&& self.slots[j].model_keys == old(self).slots[j].model_keys
                        &&& self.slots[j].models == old(self).slots[j].models
                    },
                forall|j: int|
                    0 <= j < i ==> #[trigger] self.slots[j].material.drawn() == old(
                        self,
                    ).slots[j].material.drawn().push(old(self).slots[j].models@),
                forall|j: int|
                    i <= j < n ==> #[trigger] self.slots[j].material == old(self).slots[j].material,
                M::pass_log(*ctx) == M::pass_log(*old(ctx)) + old(self).batches().models.subrange(
                    0,
                    i as int,
                ),
            decreases n - i,
        {
            let ghost before = M::pass_log(*ctx);
            let slot = &mut self.slots[i];
            slot.material.render(ctx, slot.models.as_slice());
            proof {
                let ob = old(self).batches().models;
                assert(ob[i as int] == old(self).slots[i as int].models@);
                assert(ob.subrange(0, i + 1) =~= ob.subrange(0, i as int).push(ob[i as int]));
                assert(M::pass_log(*old(ctx)) + ob.subrange(0, i + 1) =~= before.push(ob[i as int]));
            }
            i = i + 1;
        }
        proof {
            assert(old(self).batches().models.subrange(0, n as int) =~= old(self).batches().models);
            assert(self.batches().ids =~= old(self).batches().ids);
            assert(self.batches().models =~= old(self).batches().models);
            assert forall|j: int| 0 <= j < old(self).materials().len() implies #[trigger] self.materials()[j].drawn()
                == old(self).materials()[j].drawn().push(old(self).batches().models[j]) by {
                assert(self.materials()[j] == self.slots[j].material);
                assert(old(self).materials()[j] == old(self).slots[j].material);
            }
        }
    }

    /// Takes the depth target recreated at the context's new viewport size.
    pub fn on_resize(&mut self, ctx: &Graphics, depth_target: D)
        requires
            old(self).wf(),
        ensures
            final(self).wf(),
            final(self).batches() == old(self).batches(),
            final(self).materials() == old(self).materials(),
            final(self).spec_depth_size() == ctx@.viewport,
            final(self).spec_depth_target() == depth_target,
    {
        self.depth_target = depth_target;
        self.depth_size = ctx.viewport_size();
    }

    /// The size of the depth target.
    pub fn depth_size(&self) -> (r: Extent)
        ensures
            r == self.spec_depth_size(),
    {
        self.depth_size
    }

    pub fn depth_target(&self) -> (r: &D)
        ensures
            *r == self.spec_depth_target(),
    {
        &self.depth_target
    }
}

} // verus!
