//! The ordered bind-group protocol.
//!
//! A layout declares binding slots in order. A bind group for that layout is
//! made by offering one resource per slot, in the same order; an offer of the
//! wrong kind, one offer too many, or a build with slots left open is refused
//! at the call that makes the mistake.

use vstd::prelude::*;
use crate::buffer::ManagedBuffer;
use crate::error::APURRendererError;
use crate::texture::{Sampler, TextureComponentType, TextureFormat, TextureView, TextureViewDimension};

verus! {

/// The binding is visible to no shader stage.
pub const STAGE_NONE: u32 = 0;
/// The binding is visible to the vertex stage.
pub const STAGE_VERTEX: u32 = 1;
/// The binding is visible to the fragment stage.
pub const STAGE_FRAGMENT: u32 = 2;
/// The binding is visible to the compute stage.
pub const STAGE_COMPUTE: u32 = 4;

/// The set of shader stages that can see a binding, one bit each.
#[derive(Debug, Clone, Copy, PartialEq, Eq, Structural)]
pub struct ShaderStage {
    pub bits: u32,
}

/// What a binding slot holds.
#[derive(Debug, Clone, Copy, PartialEq, Eq, Structural)]
pub enum BindingType {
    UniformBuffer { dynamic: bool, min_binding_size: Option<u64> },
    StorageBuffer { dynamic: bool, min_binding_size: Option<u64>, readonly: bool },
    Sampler { comparison: bool },
    SampledTexture {
        dimension: TextureViewDimension,
        component_type: TextureComponentType,
        multisampled: bool,
    },
    StorageTexture { dimension: TextureViewDimension, format: TextureFormat, readonly: bool },
}

/// The kinds of resource that can be offered to a slot.
#[derive(Debug, Clone, Copy, PartialEq, Eq, Structural)]
pub enum ResourceKind {
    Buffer,
    Sampler,
    Texture,
}

impl BindingType {
    /// Whether a slot of this type takes a resource of kind `kind`.
    pub open spec fn accepts(self, kind: ResourceKind) -> bool {
        match kind {
            ResourceKind::Buffer => self is UniformBuffer || self is StorageBuffer,
            ResourceKind::Sampler => self is Sampler,
            ResourceKind::Texture => self is SampledTexture,
        }
    }

    /// Whether a slot of this type takes a resource of kind `kind`.
    pub fn takes(&self, kind: ResourceKind) -> (yes: bool)
        ensures
            yes == self.accepts(kind),
    {
        match kind {
            ResourceKind::Buffer => match self {
                BindingType::UniformBuffer { .. } => true,
                BindingType::StorageBuffer { .. } => true,
                _ => false,
            },
            ResourceKind::Sampler => match self {
                BindingType::Sampler { .. } => true,
                _ => false,
            },
            ResourceKind::Texture => match self {
                BindingType::SampledTexture { .. } => true,
                _ => false,
            },
        }
    }
}

/// One declared slot: its index, who can see it, and what it holds.
#[derive(Debug, Clone, Copy, PartialEq, Eq, Structural)]
pub struct BindGroupLayoutEntry {
    pub binding: u32,
    pub visibility: ShaderStage,
    pub ty: BindingType,
}

/// A resource bound to a slot.
#[derive(Debug, Clone, Copy, PartialEq, Eq, Structural)]
pub enum BindingResource {
    /// `size` bytes of the buffer `buffer`, from byte `offset` on.
    Buffer { buffer: u64, offset: u64, size: u64 },
    Sampler(Sampler),
    TextureView(TextureView),
}

impl BindingResource {
    pub open spec fn kind(self) -> ResourceKind {
        match self {
            BindingResource::Buffer { .. } => ResourceKind::Buffer,
            BindingResource::Sampler(_) => ResourceKind::Sampler,
            BindingResource::TextureView(_) => ResourceKind::Texture,
        }
    }

    /// The whole of `buffer` as a bound resource.
    pub open spec fn whole_buffer(buffer: ManagedBuffer) -> BindingResource {
        BindingResource::Buffer {
            buffer: buffer.spec_handle(),
            offset: 0,
            size: buffer.spec_size_bytes() as u64,
        }
    }
}

/// One filled slot: its index and the resource in it.
#[derive(Debug, Clone, Copy, PartialEq, Eq, Structural)]
pub struct BindGroupEntry {
    pub binding: u32,
    pub resource: BindingResource,
}

/// Slots are numbered by their position.
pub open spec fn slots_in_order(slots: Seq<BindGroupLayoutEntry>) -> bool {
    &&& slots.len() <= u32::MAX
    &&& forall|i: int| 0 <= i < slots.len() ==> (#[trigger] slots[i]).binding == i
}

/// The resources in `bound` fill the first slots of `slots`, one each, in
/// order, and each has the kind that its slot declares.
pub open spec fn fills_prefix(slots: Seq<BindGroupLayoutEntry>, bound: Seq<BindGroupEntry>) -> bool {
    &&& bound.len() <= slots.len()
    &&& forall|i: int|
        0 <= i < bound.len() ==> {
            &&& (#[trigger] bound[i]).binding == i
            &&& slots[i].ty.accepts(bound[i].resource.kind())
        }
}

/// What offering `resource` to the next open slot comes to: the slots filled
/// afterwards, or the reason for the refusal.
pub open spec fn spec_bind(
    slots: Seq<BindGroupLayoutEntry>,
    bound: Seq<BindGroupEntry>,
    resource: BindingResource,
) -> Result<Seq<BindGroupEntry>, APURRendererError> {
    if bound.len() >= slots.len() {
        Err(APURRendererError::NumOfBindingsOverflowed)
    } else if !slots[bound.len() as int].ty.accepts(resource.kind()) {
        Err(APURRendererError::BindingResourceTypeUnmatched)
    } else {
        Ok(bound.push(BindGroupEntry { binding: bound.len() as u32, resource }))
    }
}

/// What offering each of `resources` in turn comes to; the first refusal ends it.
pub open spec fn spec_bind_all(
    slots: Seq<BindGroupLayoutEntry>,
    bound: Seq<BindGroupEntry>,
    resources: Seq<BindingResource>,
) -> Result<Seq<BindGroupEntry>, APURRendererError>
    decreases resources.len(),
{
    if resources.len() == 0 {
        Ok(bound)
    } else {
        match spec_bind(slots, bound, resources[0]) {
            Ok(next) => spec_bind_all(slots, next, resources.drop_first()),
            Err(e) => Err(e),
        }
    }
}

/// What building comes to: the filled slots, if none is left open.
pub open spec fn spec_build(slots: Seq<BindGroupLayoutEntry>, bound: Seq<BindGroupEntry>) -> Result<
    Seq<BindGroupEntry>,
    APURRendererError,
> {
    if bound.len() < slots.len() {
        Err(APURRendererError::NumOfBindingsUnderflowed)
    } else {
        Ok(bound)
    }
}

/// The entries that `resources` make when bound in order from slot `first` on.
pub open spec fn entries_from(first: nat, resources: Seq<BindingResource>) -> Seq<BindGroupEntry> {
    Seq::new(
        resources.len(),
        |i: int| BindGroupEntry { binding: (first + i) as u32, resource: resources[i] },
    )
}

/// Collects the slots of a layout, in the order of the calls.
#[derive(Debug)]
pub struct BindGroupLayoutBuilder {
    label: Option<String>,
    entries: Vec<BindGroupLayoutEntry>,
}

impl BindGroupLayoutBuilder {
    #[verifier::type_invariant]
    spec fn well_formed(self) -> bool {
        slots_in_order(self.entries@)
    }

    /// The slots declared so far.
    pub closed spec fn slots(&self) -> Seq<BindGroupLayoutEntry> {
        self.entries@
    }

    /// The label given to the layout, if any.
    pub closed spec fn tag(&self) -> Option<Seq<char>> {
        match self.label {
            Some(s) => Some(s@),
            None => None,
        }
    }

    pub fn new() -> (builder: Self)
        ensures
            builder.slots() == Seq::<BindGroupLayoutEntry>::empty(),
            builder.tag() == None::<Seq<char>>,
    {
        BindGroupLayoutBuilder { label: None, entries: Vec::new() }
    }

    pub fn with_tag(self, tag: &str) -> (builder: Self)
        ensures
            builder.slots() == self.slots(),
            builder.tag() == Some(tag@),
    {
        proof {
            use_type_invariant(&self);
        }
        BindGroupLayoutBuilder { label: Some(tag.to_owned()), entries: self.entries }
    }

    /// Declares the next slot. Its index is the number of slots declared before it.
    pub fn with_binding(self, visibility: ShaderStage, binding_type: BindingType) -> (builder: Self)
        requires
            self.slots().len() < u32::MAX,
        ensures
            builder.tag() == self.tag(),
            builder.slots() == self.slots().push(
                BindGroupLayoutEntry {
                    binding: self.slots().len() as u32,
                    visibility,
                    ty: binding_type,
                },
            ),
    {
        proof {
            use_type_invariant(&self);
        }
        let mut entries = self.entries;
        let binding: u32 = entries.len() as u32;
        entries.push(BindGroupLayoutEntry { binding, visibility, ty: binding_type });
        BindGroupLayoutBuilder { label: self.label, entries }
    }

    /// Fixes the declared slots as the layout that `handle` names with the
    /// graphics backend.
    pub fn build(self, handle: u64) -> (layout: BindGroupLayout)
        ensures
            layout.slots() == self.slots(),
            layout.spec_handle() == handle,
            slots_in_order(layout.slots()),
    {
        proof {
            use_type_invariant(&self);
        }
        BindGroupLayout { entries: self.entries, handle }
    }

    /// The number of slots declared so far.
    pub fn len(&self) -> (n: usize)
        ensures
            n == self.slots().len(),
    {
        self.entries.len()
    }

    /// The slots declared so far, for the graphics backend to compile.
    pub fn entries(&self) -> (entries: &Vec<BindGroupLayoutEntry>)
        ensures
            entries@ == self.slots(),
            slots_in_order(entries@),
    {
        proof {
            use_type_invariant(self);
        }
        &self.entries
    }
}

/// The ordered slots that a bind group must fill.
#[derive(Debug)]
pub struct BindGroupLayout {
    entries: Vec<BindGroupLayoutEntry>,
    handle: u64,
}

impl BindGroupLayout {
    #[verifier::type_invariant]
    spec fn well_formed(self) -> bool {
        slots_in_order(self.entries@)
    }

    /// The slots of the layout, in order.
    pub closed spec fn slots(&self) -> Seq<BindGroupLayoutEntry> {
        self.entries@
    }

    /// The compiled layout that this one stands for.
    pub closed spec fn spec_handle(&self) -> u64 {
        self.handle
    }

    /// Starts a bind group for this layout, with no slot filled.
    pub fn to_bind_group_builder(&self) -> (builder: BindGroupBuilder<'_>)
        ensures
            builder.layout() == self,
            builder.bound() == Seq::<BindGroupEntry>::empty(),
            builder.tag() == None::<Seq<char>>,
    {
        proof {
            use_type_invariant(self);
        }
        BindGroupBuilder { layout: self, label: None, bindings: Vec::new() }
    }

    pub fn handle(&self) -> (handle: u64)
        ensures
            handle == self.spec_handle(),
    {
        self.handle
    }

    pub fn entries(&self) -> (entries: &Vec<BindGroupLayoutEntry>)
        ensures
            entries@ == self.slots(),
            slots_in_order(entries@),
    {
        proof {
            use_type_invariant(self);
        }
        &self.entries
    }
}

/// Fills the slots of a layout, one resource per call, in slot order.
#[derive(Debug)]
pub struct BindGroupBuilder<'a> {
    layout: &'a BindGroupLayout,
    label: Option<String>,
    bindings: Vec<BindGroupEntry>,
}

/// A finished bind group: one resource for every slot of its layout.
#[derive(Debug)]
pub struct BindGroup {
    layout: u64,
    label: Option<String>,
    entries: Vec<BindGroupEntry>,
}

impl<'a> BindGroupBuilder<'a> {
    #[verifier::type_invariant]
    spec fn well_formed(self) -> bool {
        &&& slots_in_order(self.layout.slots())
        &&& fills_prefix(self.layout.slots(), self.bindings@)
    }

    /// The layout that is being filled.
    pub closed spec fn layout(&self) -> &BindGroupLayout {
        self.layout
    }

    /// The slots filled so far.
    pub closed spec fn bound(&self) -> Seq<BindGroupEntry> {
        self.bindings@
    }

    /// The label given to the bind group, if any.
    pub closed spec fn tag(&self) -> Option<Seq<char>> {
        match self.label {
            Some(s) => Some(s@),
            None => None,
        }
    }

    /// What offering `resource` comes to, over the builder's state.
    pub open spec fn spec_with(&self, resource: BindingResource) -> Result<
        Seq<BindGroupEntry>,
        APURRendererError,
    > {
        spec_bind(self.layout().slots(), self.bound(), resource)
    }

    /// A builder as it is after `self` took one more resource.
    pub open spec fn follows(&self, before: &Self, resource: BindingResource) -> bool {
        &&& self.layout() == before.layout()
        &&& self.tag() == before.tag()
        &&& Ok::<Seq<BindGroupEntry>, APURRendererError>(self.bound()) == before.spec_with(resource)
    }

    pub fn with_tag(self, tag: &str) -> (builder: Self)
        ensures
            builder.layout() == self.layout(),
            builder.bound() == self.bound(),
            builder.tag() == Some(tag@),
    {
        proof {
            use_type_invariant(&self);
        }
        BindGroupBuilder { layout: self.layout, label: Some(tag.to_owned()), bindings: self.bindings }
    }

    fn with_resource(self, resource: BindingResource) -> (next: Result<Self, APURRendererError>)
        ensures
            match self.spec_with(resource) {
                Ok(_) => next.is_ok() && next.unwrap().follows(&self, resource),
                Err(e) => next.is_err() && next.unwrap_err() == e,
            },
    {
        proof {
            use_type_invariant(&self);
            use_type_invariant(self.layout);
        }
        let slots = self.layout.entries();
        let filled: usize = self.bindings.len();
        if filled == slots.len() {
            return Err(APURRendererError::NumOfBindingsOverflowed);
        }
        let kind = match resource {
            BindingResource::Buffer { .. } => ResourceKind::Buffer,
            BindingResource::Sampler(_) => ResourceKind::Sampler,
            BindingResource::TextureView(_) => ResourceKind::Texture,
        };
        if !slots[filled].ty.takes(kind) {
            return Err(APURRendererError::BindingResourceTypeUnmatched);
        }
        let mut bindings = self.bindings;
        bindings.push(BindGroupEntry { binding: filled as u32, resource });
        Ok(BindGroupBuilder { layout: self.layout, label: self.label, bindings })
    }

    /// Offers the whole of `buffer` to the next open slot.
    ///
    /// Fails with `NumOfBindingsOverflowed` if no slot is open, else with
    /// `BindingResourceTypeUnmatched` if the slot does not hold a buffer.
    pub fn with_buffer(self, buffer: &ManagedBuffer) -> (next: Result<Self, APURRendererError>)
        ensures
            match self.spec_with(BindingResource::whole_buffer(*buffer)) {
                Ok(_) => next.is_ok() && next.unwrap().follows(
                    &self,
                    BindingResource::whole_buffer(*buffer),
                ),
                Err(e) => next.is_err() && next.unwrap_err() == e,
            },
    {
        let resource = BindingResource::Buffer {
            buffer: buffer.handle(),
            offset: 0,
            size: buffer.size_bytes() as u64,
        };
        self.with_resource(resource)
    }

    /// Offers `sampler` to the next open slot.
    ///
    /// Fails with `NumOfBindingsOverflowed` if no slot is open, else with
    /// `BindingResourceTypeUnmatched` if the slot does not hold a sampler.
    pub fn with_sampler(self, sampler: &Sampler) -> (next: Result<Self, APURRendererError>)
        ensures
            match self.spec_with(BindingResource::Sampler(*sampler)) {
                Ok(_) => next.is_ok() && next.unwrap().follows(
                    &self,
                    BindingResource::Sampler(*sampler),
                ),
                Err(e) => next.is_err() && next.unwrap_err() == e,
            },
    {
        self.with_resource(BindingResource::Sampler(*sampler))
    }

    /// Offers `texture_view` to the next open slot.
    ///
    /// Fails with `NumOfBindingsOverflowed` if no slot is open, else with
    /// `BindingResourceTypeUnmatched` if the slot does not hold a sampled
    /// texture.
    pub fn with_texture(self, texture_view: &TextureView) -> (next: Result<Self, APURRendererError>)
        ensures
            match self.spec_with(BindingResource::TextureView(*texture_view)) {
                Ok(_) => next.is_ok() && next.unwrap().follows(
                    &self,
                    BindingResource::TextureView(*texture_view),
                ),
                Err(e) => next.is_err() && next.unwrap_err() == e,
            },
    {
        self.with_resource(BindingResource::TextureView(*texture_view))
    }

    /// Finishes the bind group.
    ///
    /// Fails with `NumOfBindingsUnderflowed` exactly when a slot is still open.
    pub fn build(self) -> (group: Result<BindGroup, APURRendererError>)
        ensures
            match spec_build(self.layout().slots(), self.bound()) {
                Ok(bound) => group.is_ok() && group.unwrap().bound() == bound
                    && group.unwrap().spec_layout() == self.layout().spec_handle()
                    && group.unwrap().tag() == self.tag()
                    && group.unwrap().fills(self.layout().slots()),
                Err(e) => group.is_err() && group.unwrap_err() == e,
            },
    {
        proof {
            use_type_invariant(&self);
        }
        if self.bindings.len() < self.layout.entries().len() {
            return Err(APURRendererError::NumOfBindingsUnderflowed);
        }
        Ok(BindGroup { layout: self.layout.handle(), label: self.label, entries: self.bindings })
    }

    /// The number of slots filled so far. It never exceeds the number of
    /// slots of the layout.
    pub fn len(&self) -> (n: usize)
        ensures
            n == self.bound().len(),
            n <= self.layout().slots().len(),
    {
        proof {
            use_type_invariant(self);
        }
        self.bindings.len()
    }

    /// The slots filled so far: each holds a resource of the kind that the
    /// layout declares for it.
    pub fn bindings(&self) -> (entries: &Vec<BindGroupEntry>)
        ensures
            entries@ == self.bound(),
            fills_prefix(self.layout().slots(), self.bound()),
    {
        proof {
            use_type_invariant(self);
        }
        &self.bindings
    }
}

impl BindGroup {
    /// The resources of the group, one per slot, in slot order.
    pub closed spec fn bound(&self) -> Seq<BindGroupEntry> {
        self.entries@
    }

    /// The compiled layout that the group was made for.
    pub closed spec fn spec_layout(&self) -> u64 {
        self.layout
    }

    /// The label given to the group, if any.
    pub closed spec fn tag(&self) -> Option<Seq<char>> {
        match self.label {
            Some(s) => Some(s@),
            None => None,
        }
    }

    /// The group has exactly one resource of the declared kind for each of `slots`.
    pub open spec fn fills(&self, slots: Seq<BindGroupLayoutEntry>) -> bool {
        &&& self.bound().len() == slots.len()
        &&& fills_prefix(slots, self.bound())
    }

    pub fn layout(&self) -> (handle: u64)
        ensures
            handle == self.spec_layout(),
    {
        self.layout
    }

    pub fn entries(&self) -> (entries: &Vec<BindGroupEntry>)
        ensures
            entries@ == self.bound(),
    {
        &self.entries
    }

    pub fn label(&self) -> (label: Option<&str>)
        ensures
            match label {
                Some(s) => self.tag() == Some(s@),
                None => self.tag() == None::<Seq<char>>,
            },
    {
        match &self.label {
            Some(s) => Some(s.as_str()),
            None => None,
        }
    }
}

/// Offering resources that match the open slots, in order, fills those slots:
/// the resource offered `i`-th lands in slot `first + i`.
pub proof fn lemma_bind_matching(
    slots: Seq<BindGroupLayoutEntry>,
    bound: Seq<BindGroupEntry>,
    resources: Seq<BindingResource>,
)
    requires
        slots.len() <= u32::MAX,
        bound.len() + resources.len() <= slots.len(),
        forall|i: int|
            0 <= i < resources.len() ==> (#[trigger] slots[bound.len() + i]).ty.accepts(
                resources[i].kind(),
            ),
    ensures
        spec_bind_all(slots, bound, resources) == Ok::<Seq<BindGroupEntry>, APURRendererError>(
            bound + entries_from(bound.len(), resources),
        ),
    decreases resources.len(),
{
    if resources.len() == 0 {
        assert(bound + entries_from(bound.len(), resources) =~= bound);
    } else {
        let first = bound.len() as int;
        assert(slots[bound.len() + 0int].ty.accepts(resources[0].kind()));
        let next = bound.push(BindGroupEntry { binding: first as u32, resource: resources[0] });
        let rest = resources.drop_first();
        assert forall|i: int| 0 <= i < rest.len() implies (#[trigger] slots[next.len()
            + i]).ty.accepts(rest[i].kind()) by {
            assert(slots[bound.len() + (i + 1)].ty.accepts(resources[i + 1].kind()));
        }
        lemma_bind_matching(slots, next, rest);
        assert(next + entries_from(next.len(), rest) =~= bound + entries_from(bound.len(), resources));
    }
}

/// A layout with N slots takes N resources of the declared kinds, offered in
/// slot order, and the bind group can then be built: slot `i` holds the
/// `i`-th resource.
pub proof fn lemma_exact_fill_builds(
    slots: Seq<BindGroupLayoutEntry>,
    resources: Seq<BindingResource>,
)
    requires
        slots.len() <= u32::MAX,
        resources.len() == slots.len(),
        forall|i: int|
            0 <= i < slots.len() ==> (#[trigger] slots[i]).ty.accepts(resources[i].kind()),
    ensures
        spec_bind_all(slots, Seq::empty(), resources) == Ok::<
            Seq<BindGroupEntry>,
            APURRendererError,
        >(entries_from(0, resources)),
        spec_build(slots, entries_from(0, resources)) == Ok::<
            Seq<BindGroupEntry>,
            APURRendererError,
        >(entries_from(0, resources)),
{
    let none = Seq::<BindGroupEntry>::empty();
    assert forall|i: int| 0 <= i < resources.len() implies (#[trigger] slots[none.len()
        + i]).ty.accepts(resources[i].kind()) by {
        assert(slots[i].ty.accepts(resources[i].kind()));
    }
    lemma_bind_matching(slots, none, resources);
    assert(none + entries_from(0, resources) =~= entries_from(0, resources));
}

/// With one resource fewer than the layout has slots, every offer is taken
/// and the build is refused with `NumOfBindingsUnderflowed`.
pub proof fn lemma_short_fill_underflows(
    slots: Seq<BindGroupLayoutEntry>,
    resources: Seq<BindingResource>,
)
    requires
        slots.len() <= u32::MAX,
        resources.len() + 1 == slots.len(),
        forall|i: int|
            0 <= i < resources.len() ==> (#[trigger] slots[i]).ty.accepts(resources[i].kind()),
    ensures
        spec_bind_all(slots, Seq::empty(), resources) == Ok::<
            Seq<BindGroupEntry>,
            APURRendererError,
        >(entries_from(0, resources)),
        spec_build(slots, entries_from(0, resources)) == Err::<
            Seq<BindGroupEntry>,
            APURRendererError,
        >(APURRendererError::NumOfBindingsUnderflowed),
{
    let none = Seq::<BindGroupEntry>::empty();
    assert forall|i: int| 0 <= i < resources.len() implies (#[trigger] slots[none.len()
        + i]).ty.accepts(resources[i].kind()) by {
        assert(slots[i].ty.accepts(resources[i].kind()));
    }
    lemma_bind_matching(slots, none, resources);
    assert(none + entries_from(0, resources) =~= entries_from(0, resources));
}

/// After N matching resources filled the N slots of a layout, one more offer
/// of any kind is refused with `NumOfBindingsOverflowed`.
pub proof fn lemma_extra_offer_overflows(
    slots: Seq<BindGroupLayoutEntry>,
    resources: Seq<BindingResource>,
    extra: BindingResource,
)
    requires
        slots.len() <= u32::MAX,
        resources.len() == slots.len(),
        forall|i: int|
            0 <= i < slots.len() ==> (#[trigger] slots[i]).ty.accepts(resources[i].kind()),
    ensures
        spec_bind_all(slots, Seq::empty(), resources) == Ok::<
            Seq<BindGroupEntry>,
            APURRendererError,
        >(entries_from(0, resources)),
        spec_bind(slots, entries_from(0, resources), extra) == Err::<
            Seq<BindGroupEntry>,
            APURRendererError,
        >(APURRendererError::NumOfBindingsOverflowed),
        spec_bind_all(slots, Seq::empty(), resources.push(extra)) == Err::<
            Seq<BindGroupEntry>,
            APURRendererError,
        >(APURRendererError::NumOfBindingsOverflowed),
{
    lemma_exact_fill_builds(slots, resources);
    lemma_bind_all_push(slots, Seq::empty(), resources, extra);
}

/// Offering `resources` and then `last` is offering `last` to what
/// `resources` left; a refusal among `resources` stands.
pub proof fn lemma_bind_all_push(
    slots: Seq<BindGroupLayoutEntry>,
    bound: Seq<BindGroupEntry>,
    resources: Seq<BindingResource>,
    last: BindingResource,
)
    ensures
        spec_bind_all(slots, bound, resources.push(last)) == match spec_bind_all(
            slots,
            bound,
            resources,
        ) {
            Ok(filled) => spec_bind(slots, filled, last),
            Err(e) => Err(e),
        },
    decreases resources.len(),
{
    let all = resources.push(last);
    if resources.len() == 0 {
        assert(all[0] == last);
        assert(all.drop_first() =~= Seq::<BindingResource>::empty());
        match spec_bind(slots, bound, last) {
            Ok(next) => {
                assert(spec_bind_all(slots, next, all.drop_first()) == Ok::<
                    Seq<BindGroupEntry>,
                    APURRendererError,
                >(next));
            },
            Err(_) => {},
        }
    } else {
        assert(all[0] == resources[0]);
        assert(all.drop_first() =~= resources.drop_first().push(last));
        match spec_bind(slots, bound, resources[0]) {
            Ok(next) => {
                lemma_bind_all_push(slots, next, resources.drop_first(), last);
            },
            Err(_) => {},
        }
    }
}

/// Where the first slot of a layout holds a uniform buffer, a sampler offered
/// first is refused with `BindingResourceTypeUnmatched`, and so is every
/// sequence of offers that begins with it.
pub proof fn lemma_sampler_first_unmatched(
    slots: Seq<BindGroupLayoutEntry>,
    sampler: Sampler,
    rest: Seq<BindingResource>,
)
    requires
        slots.len() > 0,
        slots[0].ty is UniformBuffer,
    ensures
        spec_bind(slots, Seq::empty(), BindingResource::Sampler(sampler)) == Err::<
            Seq<BindGroupEntry>,
            APURRendererError,
        >(APURRendererError::BindingResourceTypeUnmatched),
        spec_bind_all(slots, Seq::empty(), seq![BindingResource::Sampler(sampler)] + rest) == Err::<
            Seq<BindGroupEntry>,
            APURRendererError,
        >(APURRendererError::BindingResourceTypeUnmatched),
{
    let offers = seq![BindingResource::Sampler(sampler)] + rest;
    assert(offers[0] == BindingResource::Sampler(sampler));
}

/// An offer that is taken keeps the filled slots in order and of the declared
/// kinds, and fills exactly one more.
pub proof fn lemma_bind_keeps_order(
    slots: Seq<BindGroupLayoutEntry>,
    bound: Seq<BindGroupEntry>,
    resource: BindingResource,
)
    requires
        slots.len() <= u32::MAX,
        fills_prefix(slots, bound),
    ensures
        match spec_bind(slots, bound, resource) {
            Ok(next) => fills_prefix(slots, next) && next.len() == bound.len() + 1
                && next.drop_last() == bound,
            Err(_) => true,
        },
{
    match spec_bind(slots, bound, resource) {
        Ok(next) => {
            assert(next.drop_last() =~= bound);
        },
        Err(_) => {},
    }
}

} // verus!
