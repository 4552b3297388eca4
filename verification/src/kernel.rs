//! Kernels: what they bind, what they expect and how they are sized.

use crate::element::Element;
use crate::error::KernelError;
use crate::kernel::binding::{
    BindGroup,
    DeclarationView,
    KernelBindingBuilder,
    KernelDeclaration,
    Progress,
};
use crate::packing::{div_ceil, div_ceil_usize};
use crate::tensor::strider::{shape_product, strides_fit};
use crate::tensor::Tensor;
use vstd::prelude::*;

pub mod binding;
pub mod map;

verus! {

/// How many invocations a dispatch takes.
#[derive(Clone, Copy, Debug, PartialEq, Eq, Hash)]
pub struct TaskPartition {
    /// Number of invocations.
    pub tasks: usize,
}

impl TaskPartition {
    /// One invocation for each element of `result`.
    pub fn for_result<const D: usize, T: Element>(result: &Tensor<D, T>) -> (partition: Self)
        requires
            result.strider.spec_len() <= usize::MAX,
        ensures
            partition.tasks == result.strider.spec_len(),
    {
        match result.strider.checked_len() {
            Some(tasks) => TaskPartition { tasks },
            None => {
                proof {
                    assert(false);
                }
                TaskPartition { tasks: 0 }
            },
        }
    }

    /// One invocation for each element of `result`, or `None` where their
    /// number is too large to represent.
    pub fn checked_for_result<const D: usize, T: Element>(result: &Tensor<D, T>) -> (partition:
        Option<Self>)
        ensures
            partition is Some <==> result.strider.spec_len() <= usize::MAX,
            partition matches Some(p) ==> p.tasks == result.strider.spec_len(),
    {
        match result.strider.checked_len() {
            Some(tasks) => Some(TaskPartition { tasks }),
            None => None,
        }
    }

    /// The partition of the same elements where one invocation takes
    /// `index_step` of them: their number divided by the step, rounded up.
    pub fn step_by(self, index_step: usize) -> (partition: Self)
        requires
            index_step > 0,
        ensures
            partition.tasks == div_ceil(self.tasks as nat, index_step as nat),
    {
        TaskPartition { tasks: div_ceil_usize(self.tasks, index_step) }
    }
}

/// Binds a declaration to the arguments of a call: says how bindings and
/// parameters are filled from the arguments, and how the dispatch is sized.
/// Both depend on the shapes, strides and offsets of the arguments alone.
pub trait KernelSignature<const D: usize> {
    /// The tensors of one call.
    type Args<'a>;

    /// The slots of the kernel.
    spec fn spec_declaration() -> DeclarationView;

    /// The shape of the tensor that the kernel writes.
    spec fn result_shape(args: &Self::Args<'_>) -> Seq<usize>;

    /// What registering `args` on top of `start` leads to.
    spec fn bound(args: &Self::Args<'_>, start: BindGroup<D>) -> Progress<D>;

    /// The slots of the kernel.
    fn declaration() -> (declaration: KernelDeclaration)
        ensures
            declaration@ == Self::spec_declaration(),
    ;

    /// Registers each tensor of `args` and each parameter derived from
    /// them, in a fixed order, and stops at the first refusal.
    fn build_bind_group<'a>(args: Self::Args<'a>, builder: &mut KernelBindingBuilder<D>) -> (r:
        Result<(), KernelError>)
        requires
            strides_fit(Self::result_shape(&args)),
        ensures
            final(builder)@ == Self::bound(&args, old(builder)@).group,
            r == Self::bound(&args, old(builder)@).outcome(),
    ;

    /// One invocation for each element of the tensor that the kernel writes.
    fn task_partition<'a>(args: &Self::Args<'a>) -> (partition: TaskPartition)
        requires
            shape_product(Self::result_shape(args)) <= usize::MAX,
        ensures
            partition.tasks == shape_product(Self::result_shape(args)),
    ;
}

/// The text of a kernel: its name, the body that computes one unit of work,
/// and the variables that stand for the unit of each binding.
#[derive(Debug, PartialEq, Eq)]
pub struct KernelProgram {
    /// The name of the program.
    pub name: String,
    /// The statement that computes the written variables from the read
    /// ones.
    pub body: String,
    /// The variables that hold what was read, one per binding read.
    pub reads: Vec<String>,
    /// The variables whose values are stored, one per binding written.
    pub writes: Vec<String>,
    /// Number of elements that one invocation takes.
    pub index_step: usize,
    /// Whether the variables hold encoded units rather than scalars.
    pub map_encoded: bool,
}

/// The text of a kernel, as a mathematical value.
pub ghost struct ProgramText {
    /// The name of the program.
    pub name: Seq<char>,
    /// The statement that computes the written variables from the read
    /// ones.
    pub body: Seq<char>,
    /// The variables that hold what was read, one per binding read.
    pub reads: Seq<Seq<char>>,
    /// The variables whose values are stored, one per binding written.
    pub writes: Seq<Seq<char>>,
    /// Number of elements that one invocation takes.
    pub index_step: nat,
    /// Whether the variables hold encoded units rather than scalars.
    pub map_encoded: bool,
}

impl View for KernelProgram {
    type V = ProgramText;

    open spec fn view(&self) -> ProgramText {
        ProgramText {
            name: self.name@,
            body: self.body@,
            reads: self.reads@.map_values(|variable: String| variable@),
            writes: self.writes@.map_values(|variable: String| variable@),
            index_step: self.index_step as nat,
            map_encoded: self.map_encoded,
        }
    }
}

/// Everything a runtime needs to run a kernel once.
#[derive(Debug, PartialEq, Eq)]
pub struct Dispatch<const D: usize> {
    /// The text of the kernel.
    pub program: KernelProgram,
    /// The buffers and parameters of the call.
    pub bind_group: KernelBindingBuilder<D>,
    /// How many invocations to start.
    pub partition: TaskPartition,
}

/// A tensor that a prepared dispatch will fill. It is handed out once the
/// dispatch has run, and only if it ran to completion.
#[derive(Debug)]
pub struct PendingTensor<const D: usize, T: Element> {
    result: Tensor<D, T>,
    dispatch: Dispatch<D>,
}

impl<const D: usize, T: Element> PendingTensor<D, T> {
    /// The tensor that the dispatch fills.
    pub closed spec fn spec_result(&self) -> Tensor<D, T> {
        self.result
    }

    /// What the runtime is to run.
    pub closed spec fn spec_dispatch(&self) -> Dispatch<D> {
        self.dispatch
    }

    /// The dispatch that fills `result`.
    pub fn new(result: Tensor<D, T>, dispatch: Dispatch<D>) -> (pending: Self)
        ensures
            pending.spec_result() == result,
            pending.spec_dispatch() == dispatch,
    {
        PendingTensor { result, dispatch }
    }

    /// What the runtime is to run.
    pub fn dispatch(&self) -> (dispatch: &Dispatch<D>)
        ensures
            *dispatch == self.spec_dispatch(),
    {
        &self.dispatch
    }

    /// Takes what the runtime reported: the tensor if the dispatch ran to
    /// completion, the reported error otherwise.
    pub fn complete(self, outcome: Result<(), KernelError>) -> (r: Result<Tensor<D, T>, KernelError>)
        ensures
            r == match outcome {
                Ok(()) => Ok::<Tensor<D, T>, KernelError>(self.spec_result()),
                Err(e) => Err::<Tensor<D, T>, KernelError>(e),
            },
    {
        match outcome {
            Ok(()) => Ok(self.result),
            Err(e) => Err(e),
        }
    }
}

} // verus!
