//! Maps of one operand.
//!
//! A unary kernel binds the tensor it writes as `result` and the tensor it
//! reads as `operand`. Its parameters tell it how to walk both: the shape of
//! the result with its row-major strides, which turn the number of an
//! invocation into an index, and the strides and offset of each tensor, which
//! turn the index into a position.

use crate::element::{Element, Number, UNIT_BITS};
use crate::error::KernelError;
use crate::kernel::binding::{
    AccessMode,
    BindGroup,
    Binding,
    BindingSlot,
    DeclarationView,
    KernelBindingBuilder,
    KernelBindingDeclaration,
    KernelDeclaration,
    KernelParameterDeclaration,
    ParameterData,
    ParameterKind,
    ParameterSlot,
    ParameterValue,
    Progress,
};
use crate::kernel::map::{ElementwiseMap, MapKernel, MapSignature};
use crate::kernel::{KernelSignature, PendingTensor, TaskPartition};
use crate::name::lemma_first_named;
use crate::packing::{div_ceil, lemma_div_ceil_last};
use crate::tensor::strider::{
    as_ints,
    contiguous_strides,
    lemma_product_grows,
    shape_product,
    spec_contiguous_strides,
};
use crate::tensor::{Buffer, Tensor};
use std::marker::PhantomData;
use vstd::prelude::*;

verus! {

/// The tensors of one call of a unary kernel.
#[derive(Debug)]
pub struct UnaryArgs<'a, const D: usize, R: Element, A: Element> {
    /// The tensor that the kernel writes.
    pub result: &'a Tensor<D, R>,
    /// The tensor that the kernel reads.
    pub operand: &'a Tensor<D, A>,
}

/// The signature of the kernels that write one tensor of `R` from one
/// tensor of `A`.
pub struct UnarySignature<R: Element, A: Element>(PhantomData<(R, A)>);

impl<const D: usize, R: Element, A: Element> KernelSignature<D> for UnarySignature<R, A> {
    type Args<'a> = UnaryArgs<'a, D, R, A>;

    open spec fn spec_declaration() -> DeclarationView {
        DeclarationView {
            bindings: seq![
                BindingSlot {
                    name: "result"@,
                    access: AccessMode::ReadWrite,
                    element: R::spec_element_type(),
                },
                BindingSlot {
                    name: "operand"@,
                    access: AccessMode::ReadOnly,
                    element: A::spec_element_type(),
                },
            ],
            parameters: seq![
                ParameterSlot { name: "op_strides"@, kind: ParameterKind::Shaped },
                ParameterSlot { name: "op_shape"@, kind: ParameterKind::Shaped },
                ParameterSlot { name: "result_offset"@, kind: ParameterKind::Int },
                ParameterSlot { name: "result_strides"@, kind: ParameterKind::Shaped },
                ParameterSlot { name: "operand_offset"@, kind: ParameterKind::Int },
                ParameterSlot { name: "operand_strides"@, kind: ParameterKind::Shaped },
            ],
        }
    }

    open spec fn result_shape(args: &Self::Args<'_>) -> Seq<usize> {
        args.result.strider.shape@
    }

    open spec fn bound(args: &Self::Args<'_>, start: BindGroup<D>) -> Progress<D> {
        Progress::start(start).bind(
            "result"@,
            Binding::of(*args.result, AccessMode::ReadWrite),
        ).bind("operand"@, Binding::of(*args.operand, AccessMode::ReadOnly)).set(
            "op_strides"@,
            ParameterData::Shaped(spec_contiguous_strides(args.result.strider.shape@)),
        ).set("op_shape"@, ParameterData::Shaped(as_ints(args.result.strider.shape@))).set(
            "result_offset"@,
            ParameterData::Int(args.result.strider.offset as int),
        ).set("result_strides"@, ParameterData::Shaped(as_ints(args.result.strider.strides@))).set(
            "operand_offset"@,
            ParameterData::Int(args.operand.strider.offset as int),
        ).set("operand_strides"@, ParameterData::Shaped(as_ints(args.operand.strider.strides@)))
    }

    fn declaration() -> (declaration: KernelDeclaration) {
        let mut bindings: Vec<KernelBindingDeclaration> = Vec::new();
        bindings.push(KernelBindingDeclaration::read_write::<R>("result"));
        bindings.push(KernelBindingDeclaration::read_only::<A>("operand"));
        let mut parameters: Vec<KernelParameterDeclaration> = Vec::new();
        parameters.push(KernelParameterDeclaration::shaped("op_strides"));
        parameters.push(KernelParameterDeclaration::shaped("op_shape"));
        parameters.push(KernelParameterDeclaration::integer("result_offset"));
        parameters.push(KernelParameterDeclaration::shaped("result_strides"));
        parameters.push(KernelParameterDeclaration::integer("operand_offset"));
        parameters.push(KernelParameterDeclaration::shaped("operand_strides"));
        let declaration = KernelDeclaration::new(bindings, parameters);
        assert(declaration@.bindings =~= <Self as KernelSignature<D>>::spec_declaration().bindings);
        assert(declaration@.parameters =~= <Self as KernelSignature<D>>::spec_declaration().parameters);
        declaration
    }

    fn build_bind_group<'a>(args: Self::Args<'a>, builder: &mut KernelBindingBuilder<D>) -> (r:
        Result<(), KernelError>) {
        builder.add_binding("result", args.result, AccessMode::ReadWrite)?;
        builder.add_binding("operand", args.operand, AccessMode::ReadOnly)?;

        let result_strider = args.result.strider();
        let op_shape = result_strider.shape();
        let op_strides = contiguous_strides(&op_shape);
        assert(as_ints(op_strides@) =~= spec_contiguous_strides(op_shape@));
        builder.add_parameter("op_strides", ParameterValue::Strides(op_strides))?;
        builder.add_parameter("op_shape", ParameterValue::Shape(op_shape))?;

        builder.add_parameter("result_offset", ParameterValue::Int(result_strider.offset()))?;
        builder.add_parameter("result_strides", ParameterValue::Strides(result_strider.strides()))?;

        let operand_strider = args.operand.strider();
        builder.add_parameter("operand_offset", ParameterValue::Int(operand_strider.offset()))?;
        builder.add_parameter(
            "operand_strides",
            ParameterValue::Strides(operand_strider.strides()),
        )?;

        Ok(())
    }

    fn task_partition<'a>(args: &Self::Args<'a>) -> (partition: TaskPartition) {
        TaskPartition::for_result(args.result)
    }
}

impl<R: Element, A: Element> UnarySignature<R, A> {
    /// What a call registers: both tensors and all six parameters.
    pub open spec fn spec_bind_group<const D: usize>(args: UnaryArgs<'_, D, R, A>) -> BindGroup<D> {
        BindGroup {
            declaration: <Self as KernelSignature<D>>::spec_declaration(),
            bindings: seq![
                Some(Binding::of(*args.result, AccessMode::ReadWrite)),
                Some(Binding::of(*args.operand, AccessMode::ReadOnly)),
            ],
            parameters: seq![
                Some(ParameterData::Shaped(spec_contiguous_strides(args.result.strider.shape@))),
                Some(ParameterData::Shaped(as_ints(args.result.strider.shape@))),
                Some(ParameterData::Int(args.result.strider.offset as int)),
                Some(ParameterData::Shaped(as_ints(args.result.strider.strides@))),
                Some(ParameterData::Int(args.operand.strider.offset as int)),
                Some(ParameterData::Shaped(as_ints(args.operand.strider.strides@))),
            ],
        }
    }

    /// Each name of the declaration stands for the slot that carries it.
    pub proof fn lemma_slots<const D: usize>()
        ensures
            ({
                let declaration = <Self as KernelSignature<D>>::spec_declaration();
                &&& declaration.binding_slot("result"@) == Some(0int)
                &&& declaration.binding_slot("operand"@) == Some(1int)
                &&& declaration.parameter_slot("op_strides"@) == Some(0int)
                &&& declaration.parameter_slot("op_shape"@) == Some(1int)
                &&& declaration.parameter_slot("result_offset"@) == Some(2int)
                &&& declaration.parameter_slot("result_strides"@) == Some(3int)
                &&& declaration.parameter_slot("operand_offset"@) == Some(4int)
                &&& declaration.parameter_slot("operand_strides"@) == Some(5int)
            }),
    {
        let declaration = <Self as KernelSignature<D>>::spec_declaration();
        reveal_strlit("result");
        reveal_strlit("operand");
        reveal_strlit("op_strides");
        reveal_strlit("op_shape");
        reveal_strlit("result_offset");
        reveal_strlit("result_strides");
        reveal_strlit("operand_offset");
        reveal_strlit("operand_strides");
        let bindings = declaration.binding_names();
        assert(bindings[0] == "result"@ && bindings[1] == "operand"@);
        lemma_first_named(bindings, "result"@);
        lemma_first_named(bindings, "operand"@);
        let parameters = declaration.parameter_names();
        assert(parameters[0] == "op_strides"@ && parameters[1] == "op_shape"@);
        assert(parameters[2] == "result_offset"@ && parameters[3] == "result_strides"@);
        assert(parameters[4] == "operand_offset"@ && parameters[5] == "operand_strides"@);
        assert("result_strides"@[0] != "operand_offset"@[0]);
        lemma_first_named(parameters, "op_strides"@);
        lemma_first_named(parameters, "op_shape"@);
        lemma_first_named(parameters, "result_offset"@);
        lemma_first_named(parameters, "result_strides"@);
        lemma_first_named(parameters, "operand_offset"@);
        lemma_first_named(parameters, "operand_strides"@);
    }

    /// On a builder with nothing registered, a call is refused only for an
    /// access violation: a tensor that reaches outside its buffer, or an
    /// operand that shares units with the result. Otherwise it registers
    /// both tensors and all six parameters.
    pub proof fn lemma_bound_on_fresh<const D: usize>(args: UnaryArgs<'_, D, R, A>)
        ensures
            ({
                let end = <Self as KernelSignature<D>>::bound(
                    &args,
                    BindGroup::fresh(<Self as KernelSignature<D>>::spec_declaration()),
                );
                let result = Binding::of(*args.result, AccessMode::ReadWrite);
                let operand = Binding::of(*args.operand, AccessMode::ReadOnly);
                &&& end.failure is None <==> result.spec_in_bounds() && operand.spec_in_bounds()
                    && !operand.conflicts(result)
                &&& end.failure is None ==> end.group == Self::spec_bind_group(args)
                &&& end.failure is Some ==> end.failure == Some(KernelError::AccessViolation)
                &&& Self::spec_bind_group(args).spec_is_complete()
            }),
    {
        Self::lemma_slots::<D>();
        let declaration = <Self as KernelSignature<D>>::spec_declaration();
        let fresh = BindGroup::<D>::fresh(declaration);
        let result = Binding::of(*args.result, AccessMode::ReadWrite);
        let operand = Binding::of(*args.operand, AccessMode::ReadOnly);
        assert(!fresh.clashes(0, result));
        let first = Progress::start(fresh).bind("result"@, result);
        if result.spec_in_bounds() {
            assert(first.failure is None);
            assert(first.group.bindings[0] == Some(result));
            if operand.conflicts(result) {
                assert(first.group.clashes(1, operand));
            } else {
                assert(!first.group.clashes(1, operand));
            }
            let second = first.bind("operand"@, operand);
            if operand.spec_in_bounds() && !operand.conflicts(result) {
                assert(second.failure is None);
                let end = <Self as KernelSignature<D>>::bound(&args, fresh);
                assert(end.failure is None);
                assert(end.group.bindings =~= Self::spec_bind_group(args).bindings);
                assert(end.group.parameters =~= Self::spec_bind_group(args).parameters);
            }
        }
    }
}

impl<R: Element, A: Element> MapSignature for UnarySignature<R, A> {
    open spec fn spec_inputs() -> Seq<Seq<char>> {
        seq!["operand"@]
    }

    open spec fn spec_outputs() -> Seq<Seq<char>> {
        seq!["result"@]
    }

    fn inputs() -> (names: Vec<&'static str>) {
        let mut names: Vec<&'static str> = Vec::new();
        names.push("operand");
        assert(names@.map_values(|name: &'static str| name@) =~= Self::spec_inputs());
        names
    }

    fn outputs() -> (names: Vec<&'static str>) {
        let mut names: Vec<&'static str> = Vec::new();
        names.push("result");
        assert(names@.map_values(|name: &'static str| name@) =~= Self::spec_outputs());
        names
    }
}

/// Copies each element.
pub struct Identity<T>(pub PhantomData<T>);

impl<T: Element> Identity<T> {
    /// The identity on tensors of `T`.
    pub fn new() -> (map: Self)
        ensures
            map == Identity::<T>(PhantomData),
    {
        Identity(PhantomData)
    }
}

impl<T: Element> ElementwiseMap for Identity<T> {
    type Signature = UnarySignature<T, T>;

    open spec fn spec_label(&self) -> Seq<char> {
        "Identity"@
    }

    open spec fn spec_body(&self) -> Seq<char> {
        "let value_result = value_operand;"@
    }

    open spec fn spec_index_step(&self) -> nat {
        1
    }

    open spec fn spec_map_encoded(&self) -> bool {
        false
    }

    fn label(&self) -> (label: String) {
        String::from_str("Identity")
    }

    fn body(&self) -> (body: String) {
        String::from_str("let value_result = value_operand;")
    }

    fn index_step(&self) -> (step: usize) {
        1
    }

    fn map_encoded(&self) -> (encoded: bool) {
        false
    }
}

/// Negates each element.
pub struct ElementwiseNegate<T>(pub PhantomData<T>);

impl<T: Element + Number> ElementwiseNegate<T> {
    /// The negation on tensors of `T`.
    pub fn new() -> (map: Self)
        ensures
            map == ElementwiseNegate::<T>(PhantomData),
    {
        ElementwiseNegate(PhantomData)
    }
}

impl<T: Element + Number> ElementwiseMap for ElementwiseNegate<T> {
    type Signature = UnarySignature<T, T>;

    open spec fn spec_label(&self) -> Seq<char> {
        "ElementwiseNegate"@
    }

    open spec fn spec_body(&self) -> Seq<char> {
        "let value_result = -value_operand;"@
    }

    open spec fn spec_index_step(&self) -> nat {
        1
    }

    open spec fn spec_map_encoded(&self) -> bool {
        false
    }

    fn label(&self) -> (label: String) {
        String::from_str("ElementwiseNegate")
    }

    fn body(&self) -> (body: String) {
        String::from_str("let value_result = -value_operand;")
    }

    fn index_step(&self) -> (step: usize) {
        1
    }

    fn map_encoded(&self) -> (encoded: bool) {
        false
    }
}

/// Inverts each truth value. The body complements a whole encoded unit, so
/// one invocation takes as many elements as a unit packs.
pub struct ElementwiseBoolNot;

impl ElementwiseMap for ElementwiseBoolNot {
    type Signature = UnarySignature<bool, bool>;

    open spec fn spec_label(&self) -> Seq<char> {
        "ElementwiseBoolNot"@
    }

    open spec fn spec_body(&self) -> Seq<char> {
        "let value_result = ~value_operand;"@
    }

    open spec fn spec_index_step(&self) -> nat {
        bool::spec_element_type().spec_num_packed()
    }

    open spec fn spec_map_encoded(&self) -> bool {
        true
    }

    fn label(&self) -> (label: String) {
        String::from_str("ElementwiseBoolNot")
    }

    fn body(&self) -> (body: String) {
        String::from_str("let value_result = ~value_operand;")
    }

    fn index_step(&self) -> (step: usize) {
        bool::num_packed()
    }

    fn map_encoded(&self) -> (encoded: bool) {
        true
    }
}

/// The functions of one number that a kernel can call by name.
#[derive(Clone, Copy, Debug, PartialEq, Eq, Hash, Structural)]
pub enum UnaryFunction {
    /// Radians to degrees.
    Degrees,
    /// Degrees to radians.
    Radians,
    /// Cosine.
    Cos,
    /// Hyperbolic cosine.
    Cosh,
    /// Inverse cosine.
    Acos,
    /// Inverse hyperbolic cosine.
    Acosh,
    /// Sine.
    Sin,
    /// Hyperbolic sine.
    Sinh,
    /// Inverse sine.
    Asin,
    /// Inverse hyperbolic sine.
    Asinh,
    /// Tangent.
    Tan,
    /// Hyperbolic tangent.
    Tanh,
    /// Inverse tangent.
    Atan,
    /// Inverse hyperbolic tangent.
    Atanh,
    /// Inverse tangent of a quotient.
    Atan2,
    /// Natural exponential.
    Exp,
    /// Power of two.
    Exp2,
    /// Natural logarithm.
    Log,
    /// Logarithm to base two.
    Log2,
    /// Square root.
    Sqrt,
    /// Reciprocal of the square root.
    InverseSqrt,
    /// Absolute value.
    Absolute,
    /// Sign.
    Signum,
    /// Fractional part.
    Fractional,
    /// Integer part, towards zero.
    Truncate,
    /// Next integer above.
    Ceil,
    /// Next integer below.
    Floor,
    /// Nearest integer.
    Round,
    /// Clamp to the unit interval.
    Saturate,
}

impl UnaryFunction {
    /// The label of the map that applies the function.
    pub open spec fn spec_label(self) -> Seq<char> {
        match self {
            UnaryFunction::Degrees => "ElementwiseDegrees"@,
            UnaryFunction::Radians => "ElementwiseRadians"@,
            UnaryFunction::Cos => "ElementwiseCos"@,
            UnaryFunction::Cosh => "ElementwiseCosh"@,
            UnaryFunction::Acos => "ElementwiseAcos"@,
            UnaryFunction::Acosh => "ElementwiseAcosh"@,
            UnaryFunction::Sin => "ElementwiseSin"@,
            UnaryFunction::Sinh => "ElementwiseSinh"@,
            UnaryFunction::Asin => "ElementwiseAsin"@,
            UnaryFunction::Asinh => "ElementwiseAsinh"@,
            UnaryFunction::Tan => "ElementwiseTan"@,
            UnaryFunction::Tanh => "ElementwiseTanh"@,
            UnaryFunction::Atan => "ElementwiseAtan"@,
            UnaryFunction::Atanh => "ElementwiseAtanh"@,
            UnaryFunction::Atan2 => "ElementwiseAtan2"@,
            UnaryFunction::Exp => "ElementwiseExp"@,
            UnaryFunction::Exp2 => "ElementwiseExp2"@,
            UnaryFunction::Log => "ElementwiseLog"@,
            UnaryFunction::Log2 => "ElementwiseLog2"@,
            UnaryFunction::Sqrt => "ElementwiseSqrt"@,
            UnaryFunction::InverseSqrt => "ElementwiseInverseSqrt"@,
            UnaryFunction::Absolute => "ElementwiseAbsolute"@,
            UnaryFunction::Signum => "ElementwiseSignum"@,
            UnaryFunction::Fractional => "ElementwiseFractional"@,
            UnaryFunction::Truncate => "ElementwiseTruncate"@,
            UnaryFunction::Ceil => "ElementwiseCeil"@,
            UnaryFunction::Floor => "ElementwiseFloor"@,
            UnaryFunction::Round => "ElementwiseRound"@,
            UnaryFunction::Saturate => "ElementwiseSaturate"@,
        }
    }

    /// The name by which a kernel calls the function.
    pub open spec fn spec_name(self) -> Seq<char> {
        match self {
            UnaryFunction::Degrees => "degrees"@,
            UnaryFunction::Radians => "radians"@,
            UnaryFunction::Cos => "cos"@,
            UnaryFunction::Cosh => "cosh"@,
            UnaryFunction::Acos => "acos"@,
            UnaryFunction::Acosh => "acosh"@,
            UnaryFunction::Sin => "sin"@,
            UnaryFunction::Sinh => "sinh"@,
            UnaryFunction::Asin => "asin"@,
            UnaryFunction::Asinh => "asinh"@,
            UnaryFunction::Tan => "tan"@,
            UnaryFunction::Tanh => "tanh"@,
            UnaryFunction::Atan => "atan"@,
            UnaryFunction::Atanh => "atanh"@,
            UnaryFunction::Atan2 => "atan2"@,
            UnaryFunction::Exp => "exp"@,
            UnaryFunction::Exp2 => "exp2"@,
            UnaryFunction::Log => "log"@,
            UnaryFunction::Log2 => "log2"@,
            UnaryFunction::Sqrt => "sqrt"@,
            UnaryFunction::InverseSqrt => "inverseSqrt"@,
            UnaryFunction::Absolute => "abs"@,
            UnaryFunction::Signum => "sign"@,
            UnaryFunction::Fractional => "fract"@,
            UnaryFunction::Truncate => "trunc"@,
            UnaryFunction::Ceil => "ceil"@,
            UnaryFunction::Floor => "floor"@,
            UnaryFunction::Round => "round"@,
            UnaryFunction::Saturate => "saturate"@,
        }
    }

    /// The label of the map that applies the function.
    pub fn label(self) -> (label: &'static str)
        ensures
            label@ == self.spec_label(),
    {
        match self {
            UnaryFunction::Degrees => "ElementwiseDegrees",
            UnaryFunction::Radians => "ElementwiseRadians",
            UnaryFunction::Cos => "ElementwiseCos",
            UnaryFunction::Cosh => "ElementwiseCosh",
            UnaryFunction::Acos => "ElementwiseAcos",
            UnaryFunction::Acosh => "ElementwiseAcosh",
            UnaryFunction::Sin => "ElementwiseSin",
            UnaryFunction::Sinh => "ElementwiseSinh",
            UnaryFunction::Asin => "ElementwiseAsin",
            UnaryFunction::Asinh => "ElementwiseAsinh",
            UnaryFunction::Tan => "ElementwiseTan",
            UnaryFunction::Tanh => "ElementwiseTanh",
            UnaryFunction::Atan => "ElementwiseAtan",
            UnaryFunction::Atanh => "ElementwiseAtanh",
            UnaryFunction::Atan2 => "ElementwiseAtan2",
            UnaryFunction::Exp => "ElementwiseExp",
            UnaryFunction::Exp2 => "ElementwiseExp2",
            UnaryFunction::Log => "ElementwiseLog",
            UnaryFunction::Log2 => "ElementwiseLog2",
            UnaryFunction::Sqrt => "ElementwiseSqrt",
            UnaryFunction::InverseSqrt => "ElementwiseInverseSqrt",
            UnaryFunction::Absolute => "ElementwiseAbsolute",
            UnaryFunction::Signum => "ElementwiseSignum",
            UnaryFunction::Fractional => "ElementwiseFractional",
            UnaryFunction::Truncate => "ElementwiseTruncate",
            UnaryFunction::Ceil => "ElementwiseCeil",
            UnaryFunction::Floor => "ElementwiseFloor",
            UnaryFunction::Round => "ElementwiseRound",
            UnaryFunction::Saturate => "ElementwiseSaturate",
        }
    }

    /// The name by which a kernel calls the function.
    pub fn name(self) -> (name: &'static str)
        ensures
            name@ == self.spec_name(),
    {
        match self {
            UnaryFunction::Degrees => "degrees",
            UnaryFunction::Radians => "radians",
            UnaryFunction::Cos => "cos",
            UnaryFunction::Cosh => "cosh",
            UnaryFunction::Acos => "acos",
            UnaryFunction::Acosh => "acosh",
            UnaryFunction::Sin => "sin",
            UnaryFunction::Sinh => "sinh",
            UnaryFunction::Asin => "asin",
            UnaryFunction::Asinh => "asinh",
            UnaryFunction::Tan => "tan",
            UnaryFunction::Tanh => "tanh",
            UnaryFunction::Atan => "atan",
            UnaryFunction::Atanh => "atanh",
            UnaryFunction::Atan2 => "atan2",
            UnaryFunction::Exp => "exp",
            UnaryFunction::Exp2 => "exp2",
            UnaryFunction::Log => "log",
            UnaryFunction::Log2 => "log2",
            UnaryFunction::Sqrt => "sqrt",
            UnaryFunction::InverseSqrt => "inverseSqrt",
            UnaryFunction::Absolute => "abs",
            UnaryFunction::Signum => "sign",
            UnaryFunction::Fractional => "fract",
            UnaryFunction::Truncate => "trunc",
            UnaryFunction::Ceil => "ceil",
            UnaryFunction::Floor => "floor",
            UnaryFunction::Round => "round",
            UnaryFunction::Saturate => "saturate",
        }
    }
}

/// Applies a named function to each element.
pub struct ElementwiseFunction<T> {
    /// The function applied.
    pub function: UnaryFunction,
    /// The encoding of the elements.
    pub element: PhantomData<T>,
}

impl<T: Element + Number> ElementwiseFunction<T> {
    /// The map that applies `function` on tensors of `T`.
    pub fn new(function: UnaryFunction) -> (map: Self)
        ensures
            map == (ElementwiseFunction::<T> { function, element: PhantomData }),
    {
        ElementwiseFunction { function, element: PhantomData }
    }
}

impl<T: Element + Number> ElementwiseMap for ElementwiseFunction<T> {
    type Signature = UnarySignature<T, T>;

    open spec fn spec_label(&self) -> Seq<char> {
        self.function.spec_label()
    }

    open spec fn spec_body(&self) -> Seq<char> {
        "let value_result = "@ + self.function.spec_name() + "(value_operand);"@
    }

    open spec fn spec_index_step(&self) -> nat {
        1
    }

    open spec fn spec_map_encoded(&self) -> bool {
        false
    }

    fn label(&self) -> (label: String) {
        String::from_str(self.function.label())
    }

    fn body(&self) -> (body: String) {
        String::from_str("let value_result = ").concat(self.function.name()).concat(
            "(value_operand);",
        )
    }

    fn index_step(&self) -> (step: usize) {
        1
    }

    fn map_encoded(&self) -> (encoded: bool) {
        false
    }
}

/// A map from tensors of `A` to tensors of `R` given by its parts.
pub struct UnaryMap<R: Element, A: Element> {
    label: String,
    body: String,
    index_step: usize,
    map_encoded: bool,
    elements: PhantomData<(R, A)>,
}

impl<R: Element, A: Element> UnaryMap<R, A> {
    #[verifier::type_invariant]
    spec fn well_formed(&self) -> bool {
        self.index_step >= 1
    }

    /// The map with the given label, body, index step and flag, or `None`
    /// for an index step of zero.
    pub fn new(label: &str, body: &str, index_step: usize, map_encoded: bool) -> (map: Option<Self>)
        ensures
            map is Some <==> index_step >= 1,
            map matches Some(m) ==> {
                &&& m.spec_label() == label@
                &&& m.spec_body() == body@
                &&& m.spec_index_step() == index_step
                &&& m.spec_map_encoded() == map_encoded
            },
    {
        if index_step == 0 {
            None
        } else {
            Some(
                UnaryMap {
                    label: String::from_str(label),
                    body: String::from_str(body),
                    index_step,
                    map_encoded,
                    elements: PhantomData,
                },
            )
        }
    }
}

impl<R: Element, A: Element> ElementwiseMap for UnaryMap<R, A> {
    type Signature = UnarySignature<R, A>;

    closed spec fn spec_label(&self) -> Seq<char> {
        self.label@
    }

    closed spec fn spec_body(&self) -> Seq<char> {
        self.body@
    }

    closed spec fn spec_index_step(&self) -> nat {
        self.index_step as nat
    }

    closed spec fn spec_map_encoded(&self) -> bool {
        self.map_encoded
    }

    fn label(&self) -> (label: String) {
        self.label.clone()
    }

    fn body(&self) -> (body: String) {
        self.body.clone()
    }

    fn index_step(&self) -> (step: usize) {
        proof {
            use_type_invariant(self);
        }
        self.index_step
    }

    fn map_encoded(&self) -> (encoded: bool) {
        self.map_encoded
    }
}

impl<const D: usize, T: Element> Tensor<D, T> {
    /// Whether this tensor has elements in the units that a row-major
    /// result of its shape fills in `buffer`.
    pub open spec fn shares_units_with_result<R: Element>(&self, buffer: Buffer) -> bool {
        &&& self.buffer.id == buffer.id
        &&& self.spec_region() is Some
        &&& self.spec_region()->0.first < Tensor::<D, R>::spec_required_units(self.strider.shape@)
    }

    /// What preparing a map of this tensor into `buffer` comes to.
    ///
    /// It succeeds where a row-major tensor of the same shape can be laid
    /// out in `buffer`, this tensor lies inside its own buffer and the two
    /// share no unit. The result then has the shape of this tensor, and the
    /// dispatch binds it as `result` and this tensor as `operand`, carries
    /// all six parameters and the text of the map, and takes one invocation
    /// for every `index_step` elements.
    pub open spec fn mapped<M: ElementwiseMap<Signature = UnarySignature<R, T>>, R: Element>(
        &self,
        map: M,
        buffer: Buffer,
        r: Result<PendingTensor<D, R>, KernelError>,
    ) -> bool {
        match r {
            Ok(pending) => {
                let result = pending.spec_result();
                let dispatch = pending.spec_dispatch();
                &&& Tensor::<D, R>::allocatable(buffer, self.strider.shape@)
                &&& self.spec_in_bounds()
                &&& !self.shares_units_with_result::<R>(buffer)
                &&& result.buffer == buffer
                &&& result.strider.shape == self.strider.shape
                &&& result.strider.spec_is_contiguous()
                &&& dispatch.bind_group@ == UnarySignature::<R, T>::spec_bind_group(
                    UnaryArgs { result: &result, operand: self },
                )
                &&& dispatch.program@ == (MapKernel { map }).spec_program()
                &&& dispatch.partition.tasks == div_ceil(
                    self.strider.spec_len(),
                    map.spec_index_step(),
                )
            },
            Err(e) => {
                if !Tensor::<D, R>::allocatable(buffer, self.strider.shape@) {
                    e == KernelError::AllocationFailure
                } else {
                    &&& e == KernelError::AccessViolation
                    &&& !self.spec_in_bounds() || self.shares_units_with_result::<R>(buffer)
                }
            },
        }
    }

    /// Prepares the kernel that computes a new tensor from this one by
    /// `map`. The new tensor is laid out row-major in `buffer`, which is to
    /// be an allocation of its own.
    pub fn map_unary_elementwise<M: ElementwiseMap<Signature = UnarySignature<R, T>>, R: Element>(
        &self,
        map: M,
        buffer: Buffer,
    ) -> (r: Result<PendingTensor<D, R>, KernelError>)
        ensures
            self.mapped(map, buffer, r),
    {
        let result = match Tensor::<D, R>::allocate(buffer, self.shape()) {
            Ok(result) => result,
            Err(e) => {
                return Err(e);
            },
        };
        proof {
            let args = UnaryArgs { result: &result, operand: self };
            UnarySignature::<R, T>::lemma_bound_on_fresh(args);
            self.lemma_shares_units(result);
        }
        let kernel = MapKernel::new(map);
        match kernel.dispatch(UnaryArgs { result: &result, operand: self }) {
            Ok(dispatch) => Ok(PendingTensor::new(result, dispatch)),
            Err(e) => Err(e),
        }
    }

    /// An operand conflicts with a row-major result of its shape exactly if
    /// it has elements in the units that the result fills.
    proof fn lemma_shares_units<R: Element>(&self, result: Tensor<D, R>)
        requires
            result.strider.shape == self.strider.shape,
            result.strider.spec_is_contiguous(),
            Tensor::<D, R>::allocatable(result.buffer, self.strider.shape@),
        ensures
            Binding::of(*self, AccessMode::ReadOnly).conflicts(
                Binding::of(result, AccessMode::ReadWrite),
            ) <==> self.shares_units_with_result::<R>(result.buffer),
    {
        let packed = R::spec_element_type().spec_num_packed();
        if result.strider.spec_is_empty() {
            // Both tensors have the same shape, so neither has an element.
            let k = choose|k: int| 0 <= k < D && result.strider.shape@[k] == 0;
            assert(self.strider.shape@[k] == 0);
        } else {
            // The result fills the units from the first to the one that holds
            // its last element.
            result.strider.lemma_contiguous_span();
            lemma_product_grows(result.strider.shape@, 0, 0);
            assert(result.strider.shape@.skip(0) =~= result.strider.shape@);
            lemma_div_ceil_last(result.strider.spec_len(), packed);
            assert(0int / packed as int == 0);
        }
    }

    /// A map keeps the shape, and the layout of its result follows from the
    /// shape alone: a result that is mapped again gives a tensor with the
    /// shape of the first operand and with the strides and offset of the
    /// first result.
    pub proof fn lemma_mapped_twice<
        M: ElementwiseMap<Signature = UnarySignature<R, T>>,
        R: Element,
        N: ElementwiseMap<Signature = UnarySignature<S, R>>,
        S: Element,
    >(
        &self,
        first: M,
        first_buffer: Buffer,
        once: PendingTensor<D, R>,
        second: N,
        second_buffer: Buffer,
        twice: PendingTensor<D, S>,
    )
        requires
            self.mapped(first, first_buffer, Ok(once)),
            once.spec_result().mapped(second, second_buffer, Ok(twice)),
        ensures
            once.spec_result().strider.shape == self.strider.shape,
            twice.spec_result().strider.shape == self.strider.shape,
            twice.spec_result().strider == once.spec_result().strider,
    {
        let a = once.spec_result().strider;
        let b = twice.spec_result().strider;
        assert forall|k: int| 0 <= k < D implies a.strides@[k] == b.strides@[k] by {
            assert(a.strides@[k] == shape_product(a.shape@.skip(k + 1)));
            assert(b.strides@[k] == shape_product(b.shape@.skip(k + 1)));
        }
        assert(a.strides =~= b.strides);
    }

    /// Prepares the kernel that copies this tensor into a new one.
    pub fn id(&self, buffer: Buffer) -> (r: Result<PendingTensor<D, T>, KernelError>)
        ensures
            self.mapped(Identity::<T>(PhantomData), buffer, r),
            r matches Ok(pending) ==> pending.spec_dispatch().partition.tasks
                == self.strider.spec_len(),
    {
        self.map_unary_elementwise::<Identity<T>, T>(Identity::new(), buffer)
    }
}

impl<const D: usize, T: Element + Number> Tensor<D, T> {
    /// Prepares the kernel that negates this tensor into a new one.
    pub fn neg(&self, buffer: Buffer) -> (r: Result<PendingTensor<D, T>, KernelError>)
        ensures
            self.mapped(ElementwiseNegate::<T>(PhantomData), buffer, r),
            r matches Ok(pending) ==> pending.spec_dispatch().partition.tasks
                == self.strider.spec_len(),
    {
        self.map_unary_elementwise::<ElementwiseNegate<T>, T>(ElementwiseNegate::new(), buffer)
    }

    /// Prepares the kernel that applies `function` to each element of this
    /// tensor into a new one.
    pub fn apply(&self, function: UnaryFunction, buffer: Buffer) -> (r: Result<
        PendingTensor<D, T>,
        KernelError,
    >)
        ensures
            self.mapped(ElementwiseFunction::<T> { function, element: PhantomData }, buffer, r),
            r matches Ok(pending) ==> pending.spec_dispatch().partition.tasks
                == self.strider.spec_len(),
    {
        self.map_unary_elementwise::<ElementwiseFunction<T>, T>(
            ElementwiseFunction::new(function),
            buffer,
        )
    }
}

impl<const D: usize> Tensor<D, bool> {
    /// Prepares the kernel that inverts this tensor into a new one. One
    /// invocation inverts a whole encoded unit.
    pub fn not(&self, buffer: Buffer) -> (r: Result<PendingTensor<D, bool>, KernelError>)
        ensures
            self.mapped(ElementwiseBoolNot, buffer, r),
            r matches Ok(pending) ==> pending.spec_dispatch().partition.tasks == div_ceil(
                self.strider.spec_len(),
                UNIT_BITS as nat,
            ),
    {
        self.map_unary_elementwise::<ElementwiseBoolNot, bool>(ElementwiseBoolNot, buffer)
    }
}

} // verus!
