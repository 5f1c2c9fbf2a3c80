//! Descriptor set layouts, and descriptor sets with what is bound to them.

use vstd::prelude::*;
use crate::buffer::Buffer;
use crate::garbage_collector::{BufferRefCounter, TextureRefCounter};
use crate::texture::Texture;
use crate::types::{AccessType, ShaderStage};
use crate::vk::{
    ACCESS_SHADER_READ, ACCESS_SHADER_WRITE, ACCESS_UNIFORM_READ, LAYOUT_SHADER_READ_ONLY_OPTIMAL,
    STAGE_ALL_GRAPHICS, STAGE_COMPUTE_SHADER, STAGE_FRAGMENT_SHADER, STAGE_VERTEX_SHADER,
};

verus! {

#[derive(Debug, Copy, Clone, PartialEq, Eq, Structural, Hash)]
pub enum DescriptorType {
    Texture,
    UniformBuffer,
    StorageBuffer(AccessType),
}

/// One binding of a layout: `count` descriptors of one type for one shader
/// stage.
#[derive(Debug, Copy, Clone, PartialEq, Eq, Structural, Hash)]
pub struct DescriptorBinding {
    pub binding: u32,
    pub ty: DescriptorType,
    pub count: usize,
    pub stage: ShaderStage,
}

/// What a descriptor set layout is created from.
#[derive(Debug, Clone)]
pub struct DescriptorSetLayoutCreateInfo {
    pub bindings: Vec<DescriptorBinding>,
}

#[derive(Debug)]
pub enum DescriptorSetLayoutCreateError {
    Other(String),
}

#[derive(Debug)]
pub enum DescriptorSetCreateError {
    Other(String),
}

/// A descriptor set layout of the device.
pub struct DescriptorSetLayout {
    pub descriptor: DescriptorSetLayoutCreateInfo,
    /// The native layout.
    pub layout: u64,
}

/// What a descriptor set is created from.
pub struct DescriptorSetCreateInfo<'a> {
    pub layout: &'a DescriptorSetLayout,
    pub debug_name: Option<String>,
}

/// What is bound to one descriptor.
pub enum BoundValue {
    UniformBuffer { _ref_counter: BufferRefCounter, buffer: u64, array_element: usize },
    StorageBuffer { _ref_counter: BufferRefCounter, buffer: u64, array_element: usize },
    Texture {
        _ref_counter: TextureRefCounter,
        image: u64,
        /// The view made for this binding; the set owns it.
        view: u64,
        array_element: usize,
        aspect_mask: u32,
        mip_count: u32,
    },
}

/// A bound descriptor: the resource, and how shaders reach it.
pub struct Binding {
    pub value: BoundValue,
    pub stage: u32,
    pub access: u32,
}

/// What is bound to one descriptor, without the holder counts.
pub enum BoundResource {
    UniformBuffer { buffer: u64, array_element: usize },
    StorageBuffer { buffer: u64, array_element: usize },
    Texture { image: u64, view: u64, array_element: usize, aspect_mask: u32, mip_count: u32 },
}

/// The model of a [`Binding`].
pub struct BindingView {
    pub value: BoundResource,
    pub stage: u32,
    pub access: u32,
}

impl View for BoundValue {
    type V = BoundResource;

    open spec fn view(&self) -> BoundResource {
        match *self {
            BoundValue::UniformBuffer { buffer, array_element, .. } => BoundResource::UniformBuffer {
                buffer,
                array_element,
            },
            BoundValue::StorageBuffer { buffer, array_element, .. } => BoundResource::StorageBuffer {
                buffer,
                array_element,
            },
            BoundValue::Texture {
                image,
                view,
                array_element,
                aspect_mask,
                mip_count,
                ..
            } => BoundResource::Texture { image, view, array_element, aspect_mask, mip_count },
        }
    }
}

impl View for Binding {
    type V = BindingView;

    open spec fn view(&self) -> BindingView {
        BindingView { value: self.value@, stage: self.stage, access: self.access }
    }
}

/// A descriptor set of the device.
pub struct DescriptorSet {
    /// The native set.
    pub set: u64,
    /// The native layout.
    pub layout: u64,
    /// For each binding of the layout and each of its descriptors, what is
    /// bound.
    pub bound: Vec<Vec<Option<Binding>>>,
}

/// A bound table as a model: rows of descriptors, each bound or not.
pub type BoundTable = Seq<Seq<Option<BindingView>>>;

/// A change of one descriptor of a set.
pub struct DescriptorSetUpdate<'a> {
    pub binding: u32,
    pub array_element: usize,
    pub value: DescriptorValue<'a>,
}

/// What a descriptor is bound to.
pub enum DescriptorValue<'a> {
    UniformBuffer { buffer: &'a Buffer, array_element: usize },
    StorageBuffer { buffer: &'a Buffer, array_element: usize },
    /// A texture element through `view`, a view over all of its mip levels
    /// that was made for this binding, sampled by `sampler`.
    Texture { texture: &'a Texture, array_element: usize, view: u64, sampler: u64 },
}

/// A write into a native descriptor set.
#[derive(Debug, Copy, Clone, PartialEq, Eq, Structural)]
pub enum DescriptorWrite {
    Buffer {
        set: u64,
        binding: u32,
        array_element: u32,
        storage: bool,
        buffer: u64,
        offset: u64,
        range: u64,
    },
    Image { set: u64, binding: u32, array_element: u32, view: u64, sampler: u64, layout: i32 },
}

/// How shaders reach a descriptor of type `ty`.
pub open spec fn spec_binding_access(ty: DescriptorType) -> u32 {
    match ty {
        DescriptorType::Texture => ACCESS_SHADER_READ,
        DescriptorType::UniformBuffer => ACCESS_UNIFORM_READ,
        DescriptorType::StorageBuffer(AccessType::Read) => ACCESS_SHADER_READ,
        DescriptorType::StorageBuffer(AccessType::ReadWrite) => ACCESS_SHADER_READ
            | ACCESS_SHADER_WRITE,
    }
}

/// The pipeline stage in which shaders of `stage` run.
pub open spec fn spec_binding_stage(stage: ShaderStage) -> u32 {
    match stage {
        ShaderStage::Vertex => STAGE_VERTEX_SHADER,
        ShaderStage::Fragment => STAGE_FRAGMENT_SHADER,
        ShaderStage::Compute => STAGE_COMPUTE_SHADER,
        ShaderStage::AllGraphics => STAGE_ALL_GRAPHICS,
    }
}

/// How shaders reach a descriptor of type `ty`.
pub fn binding_access(ty: DescriptorType) -> (r: u32)
    ensures
        r == spec_binding_access(ty),
{
    match ty {
        DescriptorType::Texture => ACCESS_SHADER_READ,
        DescriptorType::UniformBuffer => ACCESS_UNIFORM_READ,
        DescriptorType::StorageBuffer(ty) => match ty {
            AccessType::Read => ACCESS_SHADER_READ,
            AccessType::ReadWrite => ACCESS_SHADER_READ | ACCESS_SHADER_WRITE,
        },
    }
}

/// The pipeline stage in which shaders of `stage` run.
pub fn binding_stage(stage: ShaderStage) -> (r: u32)
    ensures
        r == spec_binding_stage(stage),
{
    match stage {
        ShaderStage::Vertex => STAGE_VERTEX_SHADER,
        ShaderStage::Fragment => STAGE_FRAGMENT_SHADER,
        ShaderStage::Compute => STAGE_COMPUTE_SHADER,
        ShaderStage::AllGraphics => STAGE_ALL_GRAPHICS,
    }
}

/// The first of `bindings`, from place `from` on, with number `number`.
pub open spec fn find_binding(bindings: Seq<DescriptorBinding>, number: u32, from: int) -> Option<
    DescriptorBinding,
>
    decreases bindings.len() - from,
{
    if from < 0 || from >= bindings.len() {
        None
    } else if bindings[from].binding == number {
        Some(bindings[from])
    } else {
        find_binding(bindings, number, from + 1)
    }
}

impl DescriptorSetLayout {
    /// The layout around the native layout `layout`.
    pub fn new(layout: u64, create_info: DescriptorSetLayoutCreateInfo) -> (r: Self)
        ensures
            r.layout == layout,
            r.descriptor == create_info,
    {
        DescriptorSetLayout { descriptor: create_info, layout }
    }

    /// The first binding with number `binding_value`, if there is one.
    pub fn get_binding(&self, binding_value: u32) -> (r: Option<&DescriptorBinding>)
        ensures
            match find_binding(self.descriptor.bindings@, binding_value, 0) {
                Some(b) => r is Some && *r->0 == b,
                None => r is None,
            },
    {
        let mut i: usize = 0;
        while i < self.descriptor.bindings.len()
            invariant
                i <= self.descriptor.bindings@.len(),
                find_binding(self.descriptor.bindings@, binding_value, 0) == find_binding(
                    self.descriptor.bindings@,
                    binding_value,
                    i as int,
                ),
            decreases self.descriptor.bindings@.len() - i,
        {
            if self.descriptor.bindings[i].binding == binding_value {
                return Some(&self.descriptor.bindings[i]);
            }
            i += 1;
        }
        None
    }
}

/// A table with one row for each of `bindings`, each row with as many
/// unbound descriptors as its binding counts.
pub open spec fn empty_table(bindings: Seq<DescriptorBinding>) -> BoundTable {
    Seq::new(bindings.len(), |i: int| Seq::new(bindings[i].count as nat, |j: int| None))
}

/// The model of a bound table.
pub open spec fn table_view(bound: Seq<Vec<Option<Binding>>>) -> BoundTable {
    Seq::new(
        bound.len(),
        |i: int|
            Seq::new(
                bound[i]@.len(),
                |j: int|
                    match bound[i]@[j] {
                        Some(b) => Some(b@),
                        None => None,
                    },
            ),
    )
}

/// The binding that an update asks for, given how the layout's binding
/// says that shaders reach it.
pub open spec fn update_binding(update: DescriptorSetUpdate, b: DescriptorBinding) -> BindingView {
    BindingView {
        access: spec_binding_access(b.ty),
        stage: spec_binding_stage(b.stage),
        value: match update.value {
            DescriptorValue::UniformBuffer { buffer, array_element } => BoundResource::UniformBuffer {
                buffer: buffer.buffer,
                array_element,
            },
            DescriptorValue::StorageBuffer { buffer, array_element } => BoundResource::StorageBuffer {
                buffer: buffer.buffer,
                array_element,
            },
            DescriptorValue::Texture { texture, array_element, view, .. } => BoundResource::Texture {
                image: texture.image,
                view,
                array_element,
                aspect_mask: texture.aspect_flags,
                mip_count: texture.mip_count,
            },
        },
    }
}

/// The native write that an update of `set` asks for.
pub open spec fn update_write(set: u64, update: DescriptorSetUpdate) -> DescriptorWrite {
    match update.value {
        DescriptorValue::UniformBuffer { buffer, array_element } => DescriptorWrite::Buffer {
            set,
            binding: update.binding,
            array_element: update.array_element as u32,
            storage: false,
            buffer: buffer.buffer,
            offset: (buffer.aligned_size * array_element) as u64,
            range: buffer.aligned_size,
        },
        DescriptorValue::StorageBuffer { buffer, array_element } => DescriptorWrite::Buffer {
            set,
            binding: update.binding,
            array_element: update.array_element as u32,
            storage: true,
            buffer: buffer.buffer,
            offset: (buffer.aligned_size * array_element) as u64,
            range: buffer.aligned_size,
        },
        DescriptorValue::Texture { view, sampler, .. } => DescriptorWrite::Image {
            set,
            binding: update.binding,
            array_element: update.array_element as u32,
            view,
            sampler,
            layout: LAYOUT_SHADER_READ_ONLY_OPTIMAL,
        },
    }
}

/// Whether an update can be applied to a table under a layout: the layout
/// has the binding, the table has the descriptor, and the element of a
/// bound buffer exists.
pub open spec fn update_valid(
    table: BoundTable,
    bindings: Seq<DescriptorBinding>,
    update: DescriptorSetUpdate,
) -> bool {
    &&& find_binding(bindings, update.binding, 0) is Some
    &&& update.binding < table.len()
    &&& update.array_element < table[update.binding as int].len()
    &&& match update.value {
        DescriptorValue::UniformBuffer { buffer, array_element } => buffer.wf() && array_element
            < buffer.array_elements,
        DescriptorValue::StorageBuffer { buffer, array_element } => buffer.wf() && array_element
            < buffer.array_elements,
        DescriptorValue::Texture { .. } => true,
    }
}

/// The table after an update.
pub open spec fn updated_table(
    table: BoundTable,
    bindings: Seq<DescriptorBinding>,
    update: DescriptorSetUpdate,
) -> BoundTable {
    table.update(
        update.binding as int,
        table[update.binding as int].update(
            update.array_element as int,
            Some(update_binding(update, find_binding(bindings, update.binding, 0)->0)),
        ),
    )
}

/// The view that an update takes the place of, if the descriptor held a
/// texture.
pub open spec fn replaced_view(table: BoundTable, update: DescriptorSetUpdate) -> Option<u64> {
    match table[update.binding as int][update.array_element as int] {
        Some(b) => match b.value {
            BoundResource::Texture { view, .. } => Some(view),
            _ => None,
        },
        None => None,
    }
}

/// Whether the first `n` of `updates` can be applied in order.
pub open spec fn updates_valid(
    table: BoundTable,
    bindings: Seq<DescriptorBinding>,
    updates: Seq<DescriptorSetUpdate>,
    n: int,
) -> bool
    decreases n,
{
    if n <= 0 {
        true
    } else {
        updates_valid(table, bindings, updates, n - 1) && update_valid(
            tables_after(table, bindings, updates, n - 1),
            bindings,
            updates[n - 1],
        )
    }
}

/// The table after the first `n` of `updates`.
pub open spec fn tables_after(
    table: BoundTable,
    bindings: Seq<DescriptorBinding>,
    updates: Seq<DescriptorSetUpdate>,
    n: int,
) -> BoundTable
    decreases n,
{
    if n <= 0 {
        table
    } else {
        updated_table(tables_after(table, bindings, updates, n - 1), bindings, updates[n - 1])
    }
}

/// The views that the first `n` of `updates` take the place of, in order.
pub open spec fn views_replaced(
    table: BoundTable,
    bindings: Seq<DescriptorBinding>,
    updates: Seq<DescriptorSetUpdate>,
    n: int,
) -> Seq<u64>
    decreases n,
{
    if n <= 0 {
        Seq::empty()
    } else {
        let before = views_replaced(table, bindings, updates, n - 1);
        match replaced_view(tables_after(table, bindings, updates, n - 1), updates[n - 1]) {
            Some(v) => before.push(v),
            None => before,
        }
    }
}

/// What applying updates gives to the caller: the native writes to make,
/// and the views that lost their place and are to be destroyed once the
/// set's earlier use is over.
pub struct UpdateResult {
    pub writes: Vec<DescriptorWrite>,
    pub replaced_views: Vec<u64>,
}

impl DescriptorSet {
    /// The model of what is bound.
    pub open spec fn table(&self) -> BoundTable {
        table_view(self.bound@)
    }

    /// The set around the native set `set`, with nothing bound.
    pub fn new(set: u64, create_info: &DescriptorSetCreateInfo) -> (r: Self)
        ensures
            r.set == set,
            r.layout == create_info.layout.layout,
            r.table() == empty_table(create_info.layout.descriptor.bindings@),
    {
        let bindings = &create_info.layout.descriptor.bindings;
        let mut bound: Vec<Vec<Option<Binding>>> = Vec::new();
        let mut i: usize = 0;
        while i < bindings.len()
            invariant
                i <= bindings@.len(),
                bound@.len() == i,
                forall|k: int|
                    0 <= k < i ==> (#[trigger] bound@[k])@.len() == bindings@[k].count && forall|
                        j: int,
                    | 0 <= j < bound@[k]@.len() ==> bound@[k]@[j] is None,
            decreases bindings@.len() - i,
        {
            let mut binds: Vec<Option<Binding>> = Vec::new();
            let count = bindings[i].count;
            let mut j: usize = 0;
            while j < count
                invariant
                    j <= count,
                    binds@.len() == j,
                    forall|k: int| 0 <= k < j ==> binds@[k] is None,
                decreases count - j,
            {
                binds.push(None);
                j += 1;
            }
            bound.push(binds);
            i += 1;
        }
        let r = DescriptorSet { set, layout: create_info.layout.layout, bound };
        proof {
            let a = r.table();
            let b = empty_table(bindings@);
            assert(a.len() == b.len());
            assert forall|k: int| 0 <= k < a.len() implies a[k] == b[k] by {
                assert(a[k] =~= b[k]);
            }
            assert(a =~= b);
        }
        r
    }

    /// Applies updates in order: each binds its descriptor anew and asks
    /// for one native write. The caller makes the writes after the set's
    /// earlier use is over, and then destroys the views that lost their
    /// place.
    pub fn update(&mut self, layout: &DescriptorSetLayout, updates: &Vec<DescriptorSetUpdate>) -> (r:
        UpdateResult)
        requires
            updates_valid(
                old(self).table(),
                layout.descriptor.bindings@,
                updates@,
                updates@.len() as int,
            ),
        ensures
            final(self).set == old(self).set,
            final(self).layout == old(self).layout,
            final(self).table() == tables_after(
                old(self).table(),
                layout.descriptor.bindings@,
                updates@,
                updates@.len() as int,
            ),
            r.writes@ == Seq::new(updates@.len(), |i: int| update_write(old(self).set, updates@[i])),
            r.replaced_views@ == views_replaced(
                old(self).table(),
                layout.descriptor.bindings@,
                updates@,
                updates@.len() as int,
            ),
    {
        let mut writes: Vec<DescriptorWrite> = Vec::new();
        let mut replaced: Vec<u64> = Vec::new();
        let ghost start = self.table();
        let ghost bindings = layout.descriptor.bindings@;
        let mut i: usize = 0;
        while i < updates.len()
            invariant
                i <= updates@.len(),
                bindings == layout.descriptor.bindings@,
                start == old(self).table(),
                self.set == old(self).set,
                self.layout == old(self).layout,
                updates_valid(start, bindings, updates@, updates@.len() as int),
                self.table() == tables_after(start, bindings, updates@, i as int),
                writes@.len() == i,
                forall|k: int| 0 <= k < i ==> writes@[k] == update_write(self.set, updates@[k]),
                replaced@ == views_replaced(start, bindings, updates@, i as int),
            decreases updates@.len() - i,
        {
            let update = &updates[i];
            proof {
                lemma_updates_valid(start, bindings, updates@, updates@.len() as int, i as int + 1);
            }
            let ghost before = self.table();
            assert(update_valid(before, bindings, *update));
            let binding = *layout.get_binding(update.binding).unwrap();
            let access = binding_access(binding.ty);
            let stage = binding_stage(binding.stage);
            let b = update.binding as usize;
            let e = update.array_element;
            assert(self.bound@[b as int]@.len() == before[b as int].len());
            match &self.bound[b][e] {
                Some(prev) => match &prev.value {
                    BoundValue::Texture { view, .. } => {
                        replaced.push(*view);
                    },
                    _ => {},
                },
                None => {},
            }
            let new_binding = match &update.value {
                DescriptorValue::UniformBuffer { buffer, array_element } => {
                    proof {
                        assert(buffer.aligned_size * *array_element <= buffer.aligned_size
                            * buffer.array_elements) by (nonlinear_arith)
                            requires
                                *array_element < buffer.array_elements,
                        ;
                    }
                    writes.push(
                        DescriptorWrite::Buffer {
                            set: self.set,
                            binding: update.binding,
                            array_element: update.array_element as u32,
                            storage: false,
                            buffer: buffer.buffer,
                            offset: buffer.aligned_size * (*array_element as u64),
                            range: buffer.aligned_size,
                        },
                    );
                    Binding {
                        access,
                        stage,
                        value: BoundValue::UniformBuffer {
                            _ref_counter: buffer.ref_counter.clone(),
                            buffer: buffer.buffer,
                            array_element: *array_element,
                        },
                    }
                },
                DescriptorValue::StorageBuffer { buffer, array_element } => {
                    proof {
                        assert(buffer.aligned_size * *array_element <= buffer.aligned_size
                            * buffer.array_elements) by (nonlinear_arith)
                            requires
                                *array_element < buffer.array_elements,
                        ;
                    }
                    writes.push(
                        DescriptorWrite::Buffer {
                            set: self.set,
                            binding: update.binding,
                            array_element: update.array_element as u32,
                            storage: true,
                            buffer: buffer.buffer,
                            offset: buffer.aligned_size * (*array_element as u64),
                            range: buffer.aligned_size,
                        },
                    );
                    Binding {
                        access,
                        stage,
                        value: BoundValue::StorageBuffer {
                            _ref_counter: buffer.ref_counter.clone(),
                            buffer: buffer.buffer,
                            array_element: *array_element,
                        },
                    }
                },
                DescriptorValue::Texture { texture, array_element, view, sampler } => {
                    writes.push(
                        DescriptorWrite::Image {
                            set: self.set,
                            binding: update.binding,
                            array_element: update.array_element as u32,
                            view: *view,
                            sampler: *sampler,
                            layout: LAYOUT_SHADER_READ_ONLY_OPTIMAL,
                        },
                    );
                    Binding {
                        access,
                        stage,
                        value: BoundValue::Texture {
                            _ref_counter: texture.ref_counter.clone(),
                            image: texture.image,
                            view: *view,
                            array_element: *array_element,
                            aspect_mask: texture.aspect_flags,
                            mip_count: texture.mip_count,
                        },
                    }
                },
            };
            assert(new_binding@ == update_binding(*update, binding));
            self.bound[b][e] = Some(new_binding);
            i += 1;
            proof {
                let after = self.table();
                let want = updated_table(before, bindings, *update);
                assert(after.len() == want.len());
                assert forall|k: int| 0 <= k < after.len() implies after[k] == want[k] by {
                    assert(after[k] =~= want[k]);
                }
                assert(after =~= want);
            }
        }
        proof {
            assert(writes@ =~= Seq::new(
                updates@.len(),
                |i: int| update_write(old(self).set, updates@[i]),
            ));
        }
        UpdateResult { writes, replaced_views: replaced }
    }
}

/// Updates that can all be applied can be applied up to any place.
pub proof fn lemma_updates_valid(
    table: BoundTable,
    bindings: Seq<DescriptorBinding>,
    updates: Seq<DescriptorSetUpdate>,
    n: int,
    m: int,
)
    requires
        0 <= m <= n,
        updates_valid(table, bindings, updates, n),
    ensures
        updates_valid(table, bindings, updates, m),
    decreases n,
{
    if m < n {
        lemma_updates_valid(table, bindings, updates, n - 1, m);
    }
}

} // verus!
