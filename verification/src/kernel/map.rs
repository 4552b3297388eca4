//! Elementwise maps: kernels that compute each element of their result from
//! the elements of their operands at the same index.
//!
//! A map is a label, a one-line body and an index step. The body reads the
//! variable `value_<name>` of each binding it takes from and assigns the
//! variable `value_<name>` of each binding it stores to. With an index step
//! above one, an invocation takes that many elements at once: a whole
//! encoded unit of a packed element type.

use crate::error::KernelError;
use crate::kernel::binding::{BindGroup, KernelBindingBuilder};
use crate::kernel::{Dispatch, KernelProgram, KernelSignature, ProgramText, TaskPartition};
use crate::packing::div_ceil;
use crate::tensor::strider::{shape_product, strides_fit};
use vstd::prelude::*;

pub mod unary;

verus! {

/// Which bindings of a declaration a map reads and which it writes.
pub trait MapSignature {
    /// The names of the bindings read, in order.
    spec fn spec_inputs() -> Seq<Seq<char>>;

    /// The names of the bindings written, in order.
    spec fn spec_outputs() -> Seq<Seq<char>>;

    /// The names of the bindings read, in order.
    fn inputs() -> (names: Vec<&'static str>)
        ensures
            names@.map_values(|name: &'static str| name@) == Self::spec_inputs(),
    ;

    /// The names of the bindings written, in order.
    fn outputs() -> (names: Vec<&'static str>)
        ensures
            names@.map_values(|name: &'static str| name@) == Self::spec_outputs(),
    ;
}

/// An elementwise operation, described by what a kernel is generated from.
pub trait ElementwiseMap {
    /// The bindings that the operation reads and writes.
    type Signature: MapSignature;

    /// The name of the operation.
    spec fn spec_label(&self) -> Seq<char>;

    /// The statement that computes one unit of the result.
    spec fn spec_body(&self) -> Seq<char>;

    /// Number of elements that one invocation takes.
    spec fn spec_index_step(&self) -> nat;

    /// Whether the body works on encoded units rather than on scalars.
    spec fn spec_map_encoded(&self) -> bool;

    /// The name of the operation.
    fn label(&self) -> (label: String)
        ensures
            label@ == self.spec_label(),
    ;

    /// The statement that computes one unit of the result.
    fn body(&self) -> (body: String)
        ensures
            body@ == self.spec_body(),
    ;

    /// Number of elements that one invocation takes.
    fn index_step(&self) -> (step: usize)
        ensures
            step == self.spec_index_step(),
            step >= 1,
    ;

    /// Whether the body works on encoded units rather than on scalars.
    fn map_encoded(&self) -> (encoded: bool)
        ensures
            encoded == self.spec_map_encoded(),
    ;
}

/// The variable that stands for one unit of the binding called `name`.
pub open spec fn spec_placeholder(name: Seq<char>) -> Seq<char> {
    "value_"@ + name
}

/// The variable that stands for one unit of the binding called `name`.
pub fn placeholder(name: &str) -> (variable: String)
    ensures
        variable@ == spec_placeholder(name@),
{
    String::from_str("value_").concat(name)
}

/// The variables that stand for the bindings called `names`.
pub fn placeholders(names: &Vec<&'static str>) -> (variables: Vec<String>)
    ensures
        variables@.map_values(|variable: String| variable@) == names@.map_values(
            |name: &'static str| spec_placeholder(name@),
        ),
{
    let mut variables: Vec<String> = Vec::new();
    let mut i: usize = 0;
    while i < names.len()
        invariant
            i <= names.len(),
            variables@.len() == i,
            forall|j: int| 0 <= j < i ==> variables@[j]@ == spec_placeholder(names@[j]@),
        decreases names.len() - i,
    {
        variables.push(placeholder(names[i]));
        i += 1;
    }
    assert(variables@.map_values(|variable: String| variable@) =~= names@.map_values(
        |name: &'static str| spec_placeholder(name@),
    ));
    variables
}

/// The kernel that applies a map to every element.
pub struct MapKernel<M: ElementwiseMap> {
    /// The operation applied.
    pub map: M,
}

impl<M: ElementwiseMap> MapKernel<M> {
    /// The text of the kernel: the label of the map as its name, the body of
    /// the map as its body, and one variable for each binding of the
    /// signature.
    pub open spec fn spec_program(&self) -> ProgramText {
        ProgramText {
            name: self.map.spec_label(),
            body: self.map.spec_body(),
            reads: M::Signature::spec_inputs().map_values(|name: Seq<char>| spec_placeholder(name)),
            writes: M::Signature::spec_outputs().map_values(
                |name: Seq<char>| spec_placeholder(name),
            ),
            index_step: self.map.spec_index_step(),
            map_encoded: self.map.spec_map_encoded(),
        }
    }

    /// The kernel that applies `map`.
    pub fn new(map: M) -> (kernel: Self)
        ensures
            kernel.map == map,
    {
        MapKernel { map }
    }

    /// The text of the kernel.
    pub fn program(&self) -> (program: KernelProgram)
        ensures
            program@ == self.spec_program(),
    {
        let inputs = M::Signature::inputs();
        let outputs = M::Signature::outputs();
        let program = KernelProgram {
            name: self.map.label(),
            body: self.map.body(),
            reads: placeholders(&inputs),
            writes: placeholders(&outputs),
            index_step: self.map.index_step(),
            map_encoded: self.map.map_encoded(),
        };
        assert(program@.reads =~= self.spec_program().reads);
        assert(program@.writes =~= self.spec_program().writes);
        program
    }

    /// One invocation for every `index_step` elements of the result: their
    /// number divided by the step, rounded up.
    pub fn task_partition<'a, const D: usize>(
        &self,
        args: &<M::Signature as KernelSignature<D>>::Args<'a>,
    ) -> (partition: TaskPartition) where M::Signature: KernelSignature<D>
        requires
            shape_product(<M::Signature as KernelSignature<D>>::result_shape(args)) <= usize::MAX,
        ensures
            partition.tasks == div_ceil(
                shape_product(<M::Signature as KernelSignature<D>>::result_shape(args)),
                self.map.spec_index_step(),
            ),
    {
        <M::Signature as KernelSignature<D>>::task_partition(args).step_by(self.map.index_step())
    }

    /// Prepares one run of the kernel on `args`: a fresh builder for the
    /// declaration of the signature, filled from the arguments, with the
    /// text of the kernel and its partition. Fails with the first refusal
    /// of the builder.
    pub fn dispatch<'a, const D: usize>(
        &self,
        args: <M::Signature as KernelSignature<D>>::Args<'a>,
    ) -> (r: Result<Dispatch<D>, KernelError>) where M::Signature: KernelSignature<D>
        requires
            strides_fit(<M::Signature as KernelSignature<D>>::result_shape(&args)),
            shape_product(<M::Signature as KernelSignature<D>>::result_shape(&args)) <= usize::MAX,
        ensures
            ({
                let end = <M::Signature as KernelSignature<D>>::bound(
                    &args,
                    BindGroup::fresh(<M::Signature as KernelSignature<D>>::spec_declaration()),
                );
                match r {
                    Ok(dispatch) => {
                        &&& end.failure is None
                        &&& dispatch.bind_group@ == end.group
                        &&& dispatch.bind_group@.wf()
                        &&& dispatch.program@ == self.spec_program()
                        &&& dispatch.partition.tasks == div_ceil(
                            shape_product(
                                <M::Signature as KernelSignature<D>>::result_shape(&args),
                            ),
                            self.map.spec_index_step(),
                        )
                    },
                    Err(e) => end.failure == Some(e),
                }
            }),
    {
        let partition = self.task_partition(&args);
        let mut bind_group = KernelBindingBuilder::new(
            <M::Signature as KernelSignature<D>>::declaration(),
        );
        match <M::Signature as KernelSignature<D>>::build_bind_group(args, &mut bind_group) {
            Ok(()) => {
                bind_group.check_well_formed();
                Ok(Dispatch { program: self.program(), bind_group, partition })
            },
            Err(e) => Err(e),
        }
    }
}

} // verus!
