//! What a kernel binds and expects, and the builder that collects the
//! arguments of one dispatch.
//!
//! A declaration lists buffer slots, each with a name, an access mode and an
//! element type, and parameter slots, each with a name and a kind. The
//! builder takes tensors and parameter values by name and accepts only what
//! the declaration allows. It also keeps the bindings of one dispatch apart:
//! no binding that is written overlaps another binding of the same buffer.

use crate::element::{Element, ElementType};
use crate::error::KernelError;
use crate::name::{first_named, lemma_first_named, names_equal};
use crate::tensor::strider::{as_ints, Strider};
use crate::tensor::{locate, spec_in_bounds, spec_region, Buffer, Region, Tensor};
use vstd::prelude::*;

verus! {

/// What a kernel does with a bound buffer.
#[derive(Clone, Copy, Debug, PartialEq, Eq, Hash, Structural)]
pub enum AccessMode {
    /// The kernel reads the buffer and leaves it as it is.
    ReadOnly,
    /// The kernel writes the buffer.
    ReadWrite,
}

/// The kind of value a parameter takes.
#[derive(Clone, Copy, Debug, PartialEq, Eq, Hash, Structural)]
pub enum ParameterKind {
    /// One integer.
    Int,
    /// One integer per dimension.
    Shaped,
}

/// A buffer slot of a kernel.
#[derive(Clone, Copy, Debug, PartialEq, Eq)]
pub struct KernelBindingDeclaration {
    /// The name by which arguments are bound to the slot.
    pub name: &'static str,
    /// What the kernel does with the buffer.
    pub access: AccessMode,
    /// The encoding of the scalars in the buffer.
    pub element: ElementType,
}

/// A buffer slot of a kernel, as a mathematical value.
pub ghost struct BindingSlot {
    /// The name by which arguments are bound to the slot.
    pub name: Seq<char>,
    /// What the kernel does with the buffer.
    pub access: AccessMode,
    /// The encoding of the scalars in the buffer.
    pub element: ElementType,
}

impl View for KernelBindingDeclaration {
    type V = BindingSlot;

    open spec fn view(&self) -> BindingSlot {
        BindingSlot { name: self.name@, access: self.access, element: self.element }
    }
}

impl KernelBindingDeclaration {
    /// A slot that the kernel writes, with elements encoded as `T`.
    pub fn read_write<T: Element>(name: &'static str) -> (d: Self)
        ensures
            d@ == (BindingSlot {
                name: name@,
                access: AccessMode::ReadWrite,
                element: T::spec_element_type(),
            }),
    {
        KernelBindingDeclaration {
            name,
            access: AccessMode::ReadWrite,
            element: T::element_type(),
        }
    }

    /// A slot that the kernel only reads, with elements encoded as `T`.
    pub fn read_only<T: Element>(name: &'static str) -> (d: Self)
        ensures
            d@ == (BindingSlot {
                name: name@,
                access: AccessMode::ReadOnly,
                element: T::spec_element_type(),
            }),
    {
        KernelBindingDeclaration { name, access: AccessMode::ReadOnly, element: T::element_type() }
    }
}

/// A parameter slot of a kernel.
#[derive(Clone, Copy, Debug, PartialEq, Eq)]
pub struct KernelParameterDeclaration {
    /// The name by which a value is given to the slot.
    pub name: &'static str,
    /// The kind of value the slot takes.
    pub kind: ParameterKind,
}

/// A parameter slot of a kernel, as a mathematical value.
pub ghost struct ParameterSlot {
    /// The name by which a value is given to the slot.
    pub name: Seq<char>,
    /// The kind of value the slot takes.
    pub kind: ParameterKind,
}

impl View for KernelParameterDeclaration {
    type V = ParameterSlot;

    open spec fn view(&self) -> ParameterSlot {
        ParameterSlot { name: self.name@, kind: self.kind }
    }
}

impl KernelParameterDeclaration {
    /// A slot for one integer per dimension.
    pub fn shaped(name: &'static str) -> (d: Self)
        ensures
            d@ == (ParameterSlot { name: name@, kind: ParameterKind::Shaped }),
    {
        KernelParameterDeclaration { name, kind: ParameterKind::Shaped }
    }

    /// A slot for one integer.
    pub fn integer(name: &'static str) -> (d: Self)
        ensures
            d@ == (ParameterSlot { name: name@, kind: ParameterKind::Int }),
    {
        KernelParameterDeclaration { name, kind: ParameterKind::Int }
    }
}

/// The slots of a kernel, in the order in which the kernel numbers them.
#[derive(Debug, PartialEq, Eq)]
pub struct KernelDeclaration {
    /// The buffer slots.
    pub bindings: Vec<KernelBindingDeclaration>,
    /// The parameter slots.
    pub parameters: Vec<KernelParameterDeclaration>,
}

/// The slots of a kernel, as a mathematical value.
pub ghost struct DeclarationView {
    /// The buffer slots.
    pub bindings: Seq<BindingSlot>,
    /// The parameter slots.
    pub parameters: Seq<ParameterSlot>,
}

impl DeclarationView {
    /// The names of the buffer slots, in order.
    pub open spec fn binding_names(self) -> Seq<Seq<char>> {
        self.bindings.map_values(|slot: BindingSlot| slot.name)
    }

    /// The names of the parameter slots, in order.
    pub open spec fn parameter_names(self) -> Seq<Seq<char>> {
        self.parameters.map_values(|slot: ParameterSlot| slot.name)
    }

    /// The first buffer slot called `name`.
    pub open spec fn binding_slot(self, name: Seq<char>) -> Option<int> {
        first_named(self.binding_names(), name)
    }

    /// The first parameter slot called `name`.
    pub open spec fn parameter_slot(self, name: Seq<char>) -> Option<int> {
        first_named(self.parameter_names(), name)
    }
}

impl View for KernelDeclaration {
    type V = DeclarationView;

    open spec fn view(&self) -> DeclarationView {
        DeclarationView {
            bindings: self.bindings@.map_values(|d: KernelBindingDeclaration| d@),
            parameters: self.parameters@.map_values(|d: KernelParameterDeclaration| d@),
        }
    }
}

impl KernelDeclaration {
    /// The declaration with the given slots.
    pub fn new(
        bindings: Vec<KernelBindingDeclaration>,
        parameters: Vec<KernelParameterDeclaration>,
    ) -> (d: Self)
        ensures
            d.bindings == bindings,
            d.parameters == parameters,
    {
        KernelDeclaration { bindings, parameters }
    }

    /// The first buffer slot called `name`.
    pub fn binding_slot(&self, name: &str) -> (slot: Option<usize>)
        ensures
            match slot {
                Some(i) => i < self.bindings.len() && self@.binding_slot(name@) == Some(i as int),
                None => self@.binding_slot(name@) is None,
            },
    {
        proof {
            lemma_first_named(self@.binding_names(), name@);
        }
        let mut i: usize = 0;
        while i < self.bindings.len()
            invariant
                i <= self.bindings.len(),
                forall|j: int| 0 <= j < i ==> self@.binding_names()[j] != name@,
            decreases self.bindings.len() - i,
        {
            if names_equal(self.bindings[i].name, name) {
                proof {
                    lemma_first_named(self@.binding_names(), name@);
                    assert(self@.binding_names()[i as int] == name@);
                }
                return Some(i);
            }
            i += 1;
        }
        None
    }

    /// The first parameter slot called `name`.
    pub fn parameter_slot(&self, name: &str) -> (slot: Option<usize>)
        ensures
            match slot {
                Some(i) => i < self.parameters.len() && self@.parameter_slot(name@) == Some(i as int),
                None => self@.parameter_slot(name@) is None,
            },
    {
        proof {
            lemma_first_named(self@.parameter_names(), name@);
        }
        let mut i: usize = 0;
        while i < self.parameters.len()
            invariant
                i <= self.parameters.len(),
                forall|j: int| 0 <= j < i ==> self@.parameter_names()[j] != name@,
            decreases self.parameters.len() - i,
        {
            if names_equal(self.parameters[i].name, name) {
                proof {
                    lemma_first_named(self@.parameter_names(), name@);
                    assert(self@.parameter_names()[i as int] == name@);
                }
                return Some(i);
            }
            i += 1;
        }
        None
    }
}

/// The value of a parameter.
#[derive(Clone, Copy, Debug, PartialEq, Eq)]
pub enum ParameterValue<const D: usize> {
    /// One integer, such as an offset.
    Int(usize),
    /// One extent per dimension.
    Shape([usize; D]),
    /// One stride per dimension.
    Strides([isize; D]),
}

/// The value of a parameter, as a mathematical value.
pub ghost enum ParameterData {
    /// One integer.
    Int(int),
    /// One integer per dimension.
    Shaped(Seq<int>),
}

impl ParameterData {
    /// The kind of slot that takes this value.
    pub open spec fn spec_kind(self) -> ParameterKind {
        match self {
            ParameterData::Int(_) => ParameterKind::Int,
            ParameterData::Shaped(_) => ParameterKind::Shaped,
        }
    }
}

impl<const D: usize> View for ParameterValue<D> {
    type V = ParameterData;

    open spec fn view(&self) -> ParameterData {
        match self {
            ParameterValue::Int(n) => ParameterData::Int(*n as int),
            ParameterValue::Shape(shape) => ParameterData::Shaped(as_ints(shape@)),
            ParameterValue::Strides(strides) => ParameterData::Shaped(as_ints(strides@)),
        }
    }
}

impl<const D: usize> ParameterValue<D> {
    /// The kind of slot that takes this value.
    pub fn kind(&self) -> (kind: ParameterKind)
        ensures
            kind == self@.spec_kind(),
    {
        match self {
            ParameterValue::Int(_) => ParameterKind::Int,
            ParameterValue::Shape(_) => ParameterKind::Shaped,
            ParameterValue::Strides(_) => ParameterKind::Shaped,
        }
    }
}

/// A tensor as a kernel sees it: a view of a buffer, the encoding of its
/// elements as a value, and the access asked for.
#[derive(Clone, Copy, Debug, PartialEq, Eq)]
pub struct Binding<const D: usize> {
    /// The buffer that holds the elements.
    pub buffer: Buffer,
    /// Where in the buffer each element stands.
    pub strider: Strider<D>,
    /// The encoding of the elements.
    pub element: ElementType,
    /// What the kernel is to do with the buffer.
    pub access: AccessMode,
}

impl<const D: usize> Binding<D> {
    /// The binding of `tensor` for `access`.
    pub open spec fn of<T: Element>(tensor: Tensor<D, T>, access: AccessMode) -> Binding<D> {
        Binding {
            buffer: tensor.buffer,
            strider: tensor.strider,
            element: T::spec_element_type(),
            access,
        }
    }

    /// Whether every element stands inside the buffer.
    pub open spec fn spec_in_bounds(self) -> bool {
        spec_in_bounds(self.buffer, self.strider, self.element)
    }

    /// The encoded units between the lowest and the highest element.
    pub open spec fn spec_region(self) -> Option<Region> {
        spec_region(self.strider, self.element)
    }

    /// Whether the two bindings cannot belong to one dispatch: they are
    /// views of one buffer, their regions overlap, and one of them is
    /// written. Regions are compared whole, so two views whose elements
    /// interleave conflict as well.
    pub open spec fn conflicts(self, other: Binding<D>) -> bool {
        &&& self.buffer.id == other.buffer.id
        &&& (self.access is ReadWrite || other.access is ReadWrite)
        &&& self.spec_region() is Some
        &&& other.spec_region() is Some
        &&& self.spec_region()->0.spec_overlaps(other.spec_region()->0)
    }

    /// The binding of `tensor` for `access`.
    pub fn new<T: Element>(tensor: &Tensor<D, T>, access: AccessMode) -> (b: Self)
        ensures
            b == Self::of(*tensor, access),
    {
        Binding {
            buffer: tensor.buffer,
            strider: tensor.strider,
            element: T::element_type(),
            access,
        }
    }

    /// The encoded units between the lowest and the highest element, or
    /// `AccessViolation` where an element stands outside the buffer.
    pub fn region(&self) -> (r: Result<Option<Region>, KernelError>)
        ensures
            r is Ok <==> self.spec_in_bounds(),
            r matches Ok(region) ==> region == self.spec_region(),
            r matches Err(e) ==> e == KernelError::AccessViolation,
    {
        locate(&self.buffer, &self.strider, self.element)
    }

    /// Whether the two bindings cannot belong to one dispatch, or
    /// `AccessViolation` where one of them reaches outside its buffer.
    pub fn conflicts_with(&self, other: &Binding<D>) -> (r: Result<bool, KernelError>)
        ensures
            r is Ok <==> self.spec_in_bounds() && other.spec_in_bounds(),
            r matches Ok(b) ==> b == self.conflicts(*other),
            r matches Err(e) ==> e == KernelError::AccessViolation,
    {
        let mine = self.region()?;
        let theirs = other.region()?;
        let written = match (self.access, other.access) {
            (AccessMode::ReadOnly, AccessMode::ReadOnly) => false,
            _ => true,
        };
        match (mine, theirs) {
            (Some(mine), Some(theirs)) => Ok(
                self.buffer.id == other.buffer.id && written && mine.overlaps(&theirs),
            ),
            _ => Ok(false),
        }
    }
}

/// The arguments collected for one dispatch, as a mathematical value: for
/// each slot of the declaration, what has been registered for it.
pub ghost struct BindGroup<const D: usize> {
    /// The slots.
    pub declaration: DeclarationView,
    /// The binding of each buffer slot, once one is registered.
    pub bindings: Seq<Option<Binding<D>>>,
    /// The value of each parameter slot, once one is registered.
    pub parameters: Seq<Option<ParameterData>>,
}

impl<const D: usize> BindGroup<D> {
    /// The group for `declaration` with nothing registered.
    pub open spec fn fresh(declaration: DeclarationView) -> Self {
        BindGroup {
            declaration,
            bindings: Seq::new(declaration.bindings.len(), |i: int| None),
            parameters: Seq::new(declaration.parameters.len(), |i: int| None),
        }
    }

    /// Whether `binding` conflicts with what is registered for a slot other
    /// than `slot`.
    pub open spec fn clashes(self, slot: int, binding: Binding<D>) -> bool {
        exists|j: int|
            0 <= j < self.bindings.len() && j != slot && (#[trigger] self.bindings[j]) is Some
                && binding.conflicts(self.bindings[j]->0)
    }

    /// What every group of a builder satisfies: it has one entry per slot,
    /// each entry is what its slot declares, every bound tensor lies inside
    /// its buffer, and no two bindings conflict.
    pub open spec fn wf(self) -> bool {
        &&& self.bindings.len() == self.declaration.bindings.len()
        &&& self.parameters.len() == self.declaration.parameters.len()
        &&& forall|i: int|
            0 <= i < self.bindings.len() && (#[trigger] self.bindings[i]) is Some ==> {
                &&& self.bindings[i]->0.element == self.declaration.bindings[i].element
                &&& self.bindings[i]->0.access == self.declaration.bindings[i].access
                &&& self.bindings[i]->0.spec_in_bounds()
            }
        &&& forall|i: int, j: int|
            0 <= i < self.bindings.len() && 0 <= j < self.bindings.len() && i != j && (
            #[trigger] self.bindings[i]) is Some && (#[trigger] self.bindings[j]) is Some
                ==> !self.bindings[i]->0.conflicts(self.bindings[j]->0)
        &&& forall|i: int|
            0 <= i < self.parameters.len() && (#[trigger] self.parameters[i]) is Some
                ==> self.parameters[i]->0.spec_kind() == self.declaration.parameters[i].kind
    }

    /// Whether something is registered for every slot.
    pub open spec fn spec_is_complete(self) -> bool {
        &&& forall|i: int| 0 <= i < self.bindings.len() ==> (#[trigger] self.bindings[i]) is Some
        &&& forall|i: int|
            0 <= i < self.parameters.len() ==> (#[trigger] self.parameters[i]) is Some
    }

    /// Registering `binding` under `name`: the group with the binding in the
    /// slot of that name, or why it is refused. The checks are made in this
    /// order: the name, the element type, the access, the bounds, the other
    /// bindings.
    pub open spec fn bind(self, name: Seq<char>, binding: Binding<D>) -> Result<
        Self,
        KernelError,
    > {
        match self.declaration.binding_slot(name) {
            None => Err(KernelError::UnknownBinding),
            Some(slot) => {
                let declared = self.declaration.bindings[slot];
                if declared.element != binding.element {
                    Err(KernelError::TypeMismatch)
                } else if declared.access != binding.access || !binding.spec_in_bounds()
                    || self.clashes(slot, binding) {
                    Err(KernelError::AccessViolation)
                } else {
                    Ok(
                        BindGroup {
                            declaration: self.declaration,
                            bindings: self.bindings.update(slot, Some(binding)),
                            parameters: self.parameters,
                        },
                    )
                }
            },
        }
    }

    /// A tensor of another element type than the slot declares is refused
    /// with `TypeMismatch`; a tensor of the declared type that is offered
    /// for writing to a slot declared read-only is refused with
    /// `AccessViolation`.
    pub proof fn lemma_refusals(self, name: Seq<char>, binding: Binding<D>)
        requires
            self.declaration.binding_slot(name) is Some,
        ensures
            ({
                let declared = self.declaration.bindings[self.declaration.binding_slot(name)->0];
                &&& declared.element != binding.element ==> self.bind(name, binding) == Err::<
                    Self,
                    KernelError,
                >(KernelError::TypeMismatch)
                &&& declared.element == binding.element && declared.access is ReadOnly
                    && binding.access is ReadWrite ==> self.bind(name, binding) == Err::<
                    Self,
                    KernelError,
                >(KernelError::AccessViolation)
            }),
    {
    }

    /// Registering a binding keeps the group well formed: whatever is
    /// accepted lies inside its buffer and conflicts with no other binding.
    pub proof fn lemma_bind_keeps_wf(self, name: Seq<char>, binding: Binding<D>)
        requires
            self.wf(),
            self.bind(name, binding) is Ok,
        ensures
            self.bind(name, binding)->Ok_0.wf(),
    {
        lemma_first_named(self.declaration.binding_names(), name);
        let slot = self.declaration.binding_slot(name)->0;
        let next = self.bind(name, binding)->Ok_0;
        assert forall|a: int, b: int|
            0 <= a < next.bindings.len() && 0 <= b < next.bindings.len() && a != b && (
            #[trigger] next.bindings[a]) is Some && (#[trigger] next.bindings[b]) is Some implies
            !next.bindings[a]->0.conflicts(next.bindings[b]->0) by {
            if a != slot && b != slot {
                assert(self.bindings[a] is Some && self.bindings[b] is Some);
            } else if a == slot {
                assert(self.bindings[b] is Some);
            } else {
                assert(self.bindings[a] is Some);
                assert(!binding.conflicts(self.bindings[a]->0));
            }
        }
    }

    /// Registering a parameter keeps the group well formed.
    pub proof fn lemma_set_keeps_wf(self, name: Seq<char>, value: ParameterData)
        requires
            self.wf(),
            self.set(name, value) is Ok,
        ensures
            self.set(name, value)->Ok_0.wf(),
    {
        lemma_first_named(self.declaration.parameter_names(), name);
    }

    /// Registering `value` under `name`: the group with the value in the
    /// slot of that name, or why it is refused.
    pub open spec fn set(self, name: Seq<char>, value: ParameterData) -> Result<
        Self,
        KernelError,
    > {
        match self.declaration.parameter_slot(name) {
            None => Err(KernelError::UnknownBinding),
            Some(slot) => {
                if self.declaration.parameters[slot].kind != value.spec_kind() {
                    Err(KernelError::TypeMismatch)
                } else {
                    Ok(
                        BindGroup {
                            declaration: self.declaration,
                            bindings: self.bindings,
                            parameters: self.parameters.update(slot, Some(value)),
                        },
                    )
                }
            },
        }
    }
}

/// A group under construction, and the first refusal it met, if any. After
/// a refusal nothing more is registered.
pub ghost struct Progress<const D: usize> {
    /// What has been registered.
    pub group: BindGroup<D>,
    /// The first refusal.
    pub failure: Option<KernelError>,
}

impl<const D: usize> Progress<D> {
    /// Nothing refused yet.
    pub open spec fn start(group: BindGroup<D>) -> Self {
        Progress { group, failure: None }
    }

    /// Then register `binding` under `name`.
    pub open spec fn bind(self, name: Seq<char>, binding: Binding<D>) -> Self {
        if self.failure is Some {
            self
        } else {
            match self.group.bind(name, binding) {
                Ok(group) => Progress { group, failure: None },
                Err(e) => Progress { group: self.group, failure: Some(e) },
            }
        }
    }

    /// Then register `value` under `name`.
    pub open spec fn set(self, name: Seq<char>, value: ParameterData) -> Self {
        if self.failure is Some {
            self
        } else {
            match self.group.set(name, value) {
                Ok(group) => Progress { group, failure: None },
                Err(e) => Progress { group: self.group, failure: Some(e) },
            }
        }
    }

    /// What the caller is told.
    pub open spec fn outcome(self) -> Result<(), KernelError> {
        match self.failure {
            None => Ok(()),
            Some(e) => Err(e),
        }
    }
}

/// Puts `value` into entry `slot`.
fn put<V>(entries: &mut Vec<Option<V>>, slot: usize, value: V)
    requires
        slot < old(entries).len(),
    ensures
        final(entries)@ == old(entries)@.update(slot as int, Some(value)),
    no_unwind
{
    entries[slot] = Some(value);
}

/// Collects the bindings and parameters of one dispatch.
#[derive(Debug, PartialEq, Eq)]
pub struct KernelBindingBuilder<const D: usize> {
    declaration: KernelDeclaration,
    bindings: Vec<Option<Binding<D>>>,
    parameters: Vec<Option<ParameterValue<D>>>,
}

impl<const D: usize> View for KernelBindingBuilder<D> {
    type V = BindGroup<D>;

    closed spec fn view(&self) -> BindGroup<D> {
        BindGroup {
            declaration: self.declaration@,
            bindings: self.bindings@,
            parameters: Seq::new(
                self.parameters@.len(),
                |i: int|
                    match self.parameters@[i] {
                        Some(value) => Some(value@),
                        None => None,
                    },
            ),
        }
    }
}

impl<const D: usize> KernelBindingBuilder<D> {
    #[verifier::type_invariant]
    spec fn well_formed(&self) -> bool {
        self@.wf()
    }

    /// A builder for `declaration` with nothing registered.
    pub fn new(declaration: KernelDeclaration) -> (builder: Self)
        ensures
            builder@ == BindGroup::<D>::fresh(declaration@),
            builder@.wf(),
    {
        let mut bindings: Vec<Option<Binding<D>>> = Vec::new();
        let mut i: usize = 0;
        while i < declaration.bindings.len()
            invariant
                i <= declaration.bindings.len(),
                bindings@.len() == i,
                forall|j: int| 0 <= j < i ==> bindings@[j] is None,
            decreases declaration.bindings.len() - i,
        {
            bindings.push(None);
            i += 1;
        }
        let mut parameters: Vec<Option<ParameterValue<D>>> = Vec::new();
        let mut i: usize = 0;
        while i < declaration.parameters.len()
            invariant
                i <= declaration.parameters.len(),
                parameters@.len() == i,
                forall|j: int| 0 <= j < i ==> parameters@[j] is None,
            decreases declaration.parameters.len() - i,
        {
            parameters.push(None);
            i += 1;
        }
        let builder = KernelBindingBuilder { declaration, bindings, parameters };
        assert(builder@.bindings =~= BindGroup::<D>::fresh(declaration@).bindings);
        assert(builder@.parameters =~= BindGroup::<D>::fresh(declaration@).parameters);
        builder
    }

    /// Every builder holds a well formed group.
    pub fn check_well_formed(&self)
        ensures
            self@.wf(),
    {
        proof {
            use_type_invariant(self);
        }
    }

    /// The declaration the builder was made for.
    pub fn declaration(&self) -> (declaration: &KernelDeclaration)
        ensures
            declaration@ == self@.declaration,
    {
        &self.declaration
    }

    /// Registers `tensor` for the buffer slot called `name`, to be accessed
    /// as `access` says. A registration replaces an earlier one for the
    /// same slot. On a refusal the builder is left as it was.
    #[verifier::loop_isolation(false)]
    pub fn add_binding<T: Element>(
        &mut self,
        name: &str,
        tensor: &Tensor<D, T>,
        access: AccessMode,
    ) -> (r: Result<(), KernelError>)
        ensures
            match old(self)@.bind(name@, Binding::of(*tensor, access)) {
                Ok(group) => r is Ok && final(self)@ == group,
                Err(e) => r == Err::<(), KernelError>(e) && final(self)@ == old(self)@,
            },
            final(self)@.wf(),
    {
        proof {
            use_type_invariant(&*self);
        }
        let slot = match self.declaration.binding_slot(name) {
            None => {
                return Err(KernelError::UnknownBinding);
            },
            Some(slot) => slot,
        };
        let declared = self.declaration.bindings[slot];
        let binding = Binding::new(tensor, access);
        if declared.element != binding.element {
            return Err(KernelError::TypeMismatch);
        }
        if declared.access != access {
            return Err(KernelError::AccessViolation);
        }
        if binding.region().is_err() {
            return Err(KernelError::AccessViolation);
        }
        let mut j: usize = 0;
        while j < self.bindings.len()
            invariant
                j <= self.bindings.len(),
                *self == *old(self),
                forall|i: int|
                    0 <= i < j && i != slot && (#[trigger] self.bindings@[i]) is Some
                        ==> !binding.conflicts(self.bindings@[i]->0),
            decreases self.bindings.len() - j,
        {
            if j != slot {
                if let Some(other) = &self.bindings[j] {
                    assert(self@.bindings[j as int] is Some);
                    if let Ok(true) = binding.conflicts_with(other) {
                        assert(self@.clashes(slot as int, binding));
                        return Err(KernelError::AccessViolation);
                    }
                }
            }
            j += 1;
        }
        proof {
            assert(!self@.clashes(slot as int, binding));
            self@.lemma_bind_keeps_wf(name@, binding);
        }
        put(&mut self.bindings, slot, binding);
        Ok(())
    }

    /// Registers `value` for the parameter slot called `name`. A
    /// registration replaces an earlier one for the same slot. On a refusal
    /// the builder is left as it was.
    pub fn add_parameter(&mut self, name: &str, value: ParameterValue<D>) -> (r: Result<
        (),
        KernelError,
    >)
        ensures
            match old(self)@.set(name@, value@) {
                Ok(group) => r is Ok && final(self)@ == group,
                Err(e) => r == Err::<(), KernelError>(e) && final(self)@ == old(self)@,
            },
            final(self)@.wf(),
    {
        proof {
            use_type_invariant(&*self);
        }
        let slot = match self.declaration.parameter_slot(name) {
            None => {
                return Err(KernelError::UnknownBinding);
            },
            Some(slot) => slot,
        };
        if self.declaration.parameters[slot].kind != value.kind() {
            return Err(KernelError::TypeMismatch);
        }
        proof {
            self@.lemma_set_keeps_wf(name@, value@);
            let next = self@.set(name@, value@)->Ok_0;
            let entries = self.parameters@.update(slot as int, Some(value));
            assert(next.parameters =~= Seq::new(
                entries.len(),
                |i: int|
                    match entries[i] {
                        Some(value) => Some(value@),
                        None => None,
                    },
            ));
        }
        put(&mut self.parameters, slot, value);
        Ok(())
    }

    /// What is registered for the buffer slot called `name`.
    pub fn binding(&self, name: &str) -> (binding: Option<Binding<D>>)
        ensures
            binding == match self@.declaration.binding_slot(name@) {
                Some(slot) => self@.bindings[slot],
                None => None,
            },
    {
        proof {
            use_type_invariant(self);
        }
        match self.declaration.binding_slot(name) {
            None => None,
            Some(slot) => self.bindings[slot],
        }
    }

    /// What is registered for the parameter slot called `name`.
    pub fn parameter(&self, name: &str) -> (value: Option<ParameterValue<D>>)
        ensures
            match self@.declaration.parameter_slot(name@) {
                Some(slot) => match value {
                    Some(v) => self@.parameters[slot] == Some(v@),
                    None => self@.parameters[slot] is None,
                },
                None => value is None,
            },
    {
        proof {
            use_type_invariant(self);
        }
        match self.declaration.parameter_slot(name) {
            None => None,
            Some(slot) => self.parameters[slot],
        }
    }

    /// Whether something is registered for every slot.
    pub fn is_complete(&self) -> (complete: bool)
        ensures
            complete == self@.spec_is_complete(),
    {
        let mut i: usize = 0;
        while i < self.bindings.len()
            invariant
                i <= self.bindings.len(),
                forall|j: int| 0 <= j < i ==> (#[trigger] self.bindings@[j]) is Some,
            decreases self.bindings.len() - i,
        {
            if self.bindings[i].is_none() {
                return false;
            }
            i += 1;
        }
        let mut i: usize = 0;
        while i < self.parameters.len()
            invariant
                i <= self.parameters.len(),
                forall|j: int| 0 <= j < self.bindings.len() ==> (#[trigger] self.bindings@[j]) is Some,
                forall|j: int| 0 <= j < i ==> (#[trigger] self@.parameters[j]) is Some,
            decreases self.parameters.len() - i,
        {
            if self.parameters[i].is_none() {
                assert(self@.parameters[i as int] is None);
                return false;
            }
            i += 1;
        }
        true
    }
}

} // verus!
