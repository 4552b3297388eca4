use wgpu_tensors::element::{ElementType, Float32};
use wgpu_tensors::error::KernelError;
use wgpu_tensors::kernel::binding::{
    AccessMode, Binding, KernelBindingBuilder, KernelBindingDeclaration, KernelDeclaration,
    KernelParameterDeclaration, ParameterValue,
};
use wgpu_tensors::kernel::map::unary::{
    ElementwiseBoolNot, ElementwiseFunction, ElementwiseNegate, Identity, UnaryArgs, UnaryFunction,
    UnaryMap, UnarySignature,
};
use wgpu_tensors::kernel::map::{placeholder, placeholders, ElementwiseMap, MapKernel, MapSignature};
use wgpu_tensors::kernel::{KernelSignature, TaskPartition};
use wgpu_tensors::tensor::strider::Strider;
use wgpu_tensors::tensor::{Buffer, Tensor};

fn buffer(id: u64, units: usize) -> Buffer {
    Buffer { id, units }
}

fn all_functions() -> Vec<UnaryFunction> {
    vec![
        UnaryFunction::Degrees,
        UnaryFunction::Radians,
        UnaryFunction::Cos,
        UnaryFunction::Cosh,
        UnaryFunction::Acos,
        UnaryFunction::Acosh,
        UnaryFunction::Sin,
        UnaryFunction::Sinh,
        UnaryFunction::Asin,
        UnaryFunction::Asinh,
        UnaryFunction::Tan,
        UnaryFunction::Tanh,
        UnaryFunction::Atan,
        UnaryFunction::Atanh,
        UnaryFunction::Atan2,
        UnaryFunction::Exp,
        UnaryFunction::Exp2,
        UnaryFunction::Log,
        UnaryFunction::Log2,
        UnaryFunction::Sqrt,
        UnaryFunction::InverseSqrt,
        UnaryFunction::Absolute,
        UnaryFunction::Signum,
        UnaryFunction::Fractional,
        UnaryFunction::Truncate,
        UnaryFunction::Ceil,
        UnaryFunction::Floor,
        UnaryFunction::Round,
        UnaryFunction::Saturate,
    ]
}

#[test]
fn unary_declaration_lists_two_bindings_and_six_parameters() {
    let d = <UnarySignature<Float32, i32> as KernelSignature<3>>::declaration();
    assert_eq!(
        d,
        KernelDeclaration::new(
            vec![
                KernelBindingDeclaration::read_write::<Float32>("result"),
                KernelBindingDeclaration::read_only::<i32>("operand"),
            ],
            vec![
                KernelParameterDeclaration::shaped("op_strides"),
                KernelParameterDeclaration::shaped("op_shape"),
                KernelParameterDeclaration::integer("result_offset"),
                KernelParameterDeclaration::shaped("result_strides"),
                KernelParameterDeclaration::integer("operand_offset"),
                KernelParameterDeclaration::shaped("operand_strides"),
            ],
        )
    );
    assert_eq!(d.bindings[0].element, ElementType::Float32);
    assert_eq!(d.bindings[1].element, ElementType::Int32);
}

#[test]
fn unary_signature_reads_the_operand_and_writes_the_result() {
    assert_eq!(<UnarySignature<i32, i32> as MapSignature>::inputs(), vec!["operand"]);
    assert_eq!(<UnarySignature<i32, i32> as MapSignature>::outputs(), vec!["result"]);
}

#[test]
fn build_bind_group_fills_every_slot() {
    let result = Tensor::<2, i32>::allocate(buffer(1, 6), [2, 3]).unwrap();
    // A transposed view of a 3 x 2 tensor that starts at unit 4.
    let operand = Tensor::<2, i32>::new(buffer(2, 10), Strider::new([2, 3], [1, 2], 4));
    let mut b = KernelBindingBuilder::<2>::new(
        <UnarySignature<i32, i32> as KernelSignature<2>>::declaration(),
    );
    let args = UnaryArgs { result: &result, operand: &operand };
    assert_eq!(<UnarySignature<i32, i32> as KernelSignature<2>>::build_bind_group(args, &mut b), Ok(()));
    assert!(b.is_complete());
    assert_eq!(b.binding("result"), Some(Binding::new(&result, AccessMode::ReadWrite)));
    assert_eq!(b.binding("operand"), Some(Binding::new(&operand, AccessMode::ReadOnly)));
    assert_eq!(b.parameter("op_strides"), Some(ParameterValue::Strides([3, 1])));
    assert_eq!(b.parameter("op_shape"), Some(ParameterValue::Shape([2, 3])));
    assert_eq!(b.parameter("result_offset"), Some(ParameterValue::Int(0)));
    assert_eq!(b.parameter("result_strides"), Some(ParameterValue::Strides([3, 1])));
    assert_eq!(b.parameter("operand_offset"), Some(ParameterValue::Int(4)));
    assert_eq!(b.parameter("operand_strides"), Some(ParameterValue::Strides([1, 2])));
}

#[test]
fn build_bind_group_takes_op_strides_from_the_shape_of_the_result() {
    // The result is itself a strided view: every second unit, backwards.
    let result = Tensor::<2, i32>::new(buffer(1, 12), Strider::new([2, 3], [-6, 2], 6));
    let operand = Tensor::<2, i32>::allocate(buffer(2, 6), [2, 3]).unwrap();
    let mut b = KernelBindingBuilder::<2>::new(
        <UnarySignature<i32, i32> as KernelSignature<2>>::declaration(),
    );
    let args = UnaryArgs { result: &result, operand: &operand };
    assert_eq!(<UnarySignature<i32, i32> as KernelSignature<2>>::build_bind_group(args, &mut b), Ok(()));
    assert_eq!(b.parameter("op_strides"), Some(ParameterValue::Strides([3, 1])));
    assert_eq!(b.parameter("op_shape"), Some(ParameterValue::Shape([2, 3])));
    assert_eq!(b.parameter("result_offset"), Some(ParameterValue::Int(6)));
    assert_eq!(b.parameter("result_strides"), Some(ParameterValue::Strides([-6, 2])));
    assert_eq!(b.parameter("operand_offset"), Some(ParameterValue::Int(0)));
    assert_eq!(b.parameter("operand_strides"), Some(ParameterValue::Strides([3, 1])));
}

#[test]
fn build_bind_group_stops_at_the_first_refusal() {
    let result = Tensor::<1, i32>::allocate(buffer(1, 4), [4]).unwrap();
    let outside = Tensor::<1, i32>::new(buffer(2, 4), Strider::new([4], [1], 1));
    let mut b = KernelBindingBuilder::<1>::new(
        <UnarySignature<i32, i32> as KernelSignature<1>>::declaration(),
    );
    let args = UnaryArgs { result: &result, operand: &outside };
    assert_eq!(
        <UnarySignature<i32, i32> as KernelSignature<1>>::build_bind_group(args, &mut b),
        Err(KernelError::AccessViolation)
    );
    // The result was registered before the operand was refused; no parameter was.
    assert_eq!(b.binding("result"), Some(Binding::new(&result, AccessMode::ReadWrite)));
    assert_eq!(b.binding("operand"), None);
    assert_eq!(b.parameter("op_strides"), None);
    assert_eq!(b.parameter("operand_strides"), None);
}

#[test]
fn build_bind_group_rejects_an_operand_in_the_units_of_the_result() {
    let result = Tensor::<1, i32>::new(buffer(1, 8), Strider::new([4], [1], 0));
    let operand = Tensor::<1, i32>::new(buffer(1, 8), Strider::new([4], [1], 3));
    let mut b = KernelBindingBuilder::<1>::new(
        <UnarySignature<i32, i32> as KernelSignature<1>>::declaration(),
    );
    let args = UnaryArgs { result: &result, operand: &operand };
    assert_eq!(
        <UnarySignature<i32, i32> as KernelSignature<1>>::build_bind_group(args, &mut b),
        Err(KernelError::AccessViolation)
    );
}

#[test]
fn build_bind_group_on_a_foreign_declaration_fails_on_the_name() {
    let result = Tensor::<1, i32>::allocate(buffer(1, 4), [4]).unwrap();
    let operand = Tensor::<1, i32>::allocate(buffer(2, 4), [4]).unwrap();
    let foreign = KernelDeclaration::new(
        vec![KernelBindingDeclaration::read_write::<i32>("result")],
        vec![],
    );
    let mut b = KernelBindingBuilder::<1>::new(foreign);
    let args = UnaryArgs { result: &result, operand: &operand };
    assert_eq!(
        <UnarySignature<i32, i32> as KernelSignature<1>>::build_bind_group(args, &mut b),
        Err(KernelError::UnknownBinding)
    );
    assert_eq!(b.binding("result"), Some(Binding::new(&result, AccessMode::ReadWrite)));
}

#[test]
fn build_bind_group_on_a_declaration_of_other_types_fails_on_the_type() {
    let result = Tensor::<1, i32>::allocate(buffer(1, 4), [4]).unwrap();
    let operand = Tensor::<1, i32>::allocate(buffer(2, 4), [4]).unwrap();
    let mut b = KernelBindingBuilder::<1>::new(
        <UnarySignature<Float32, i32> as KernelSignature<1>>::declaration(),
    );
    let args = UnaryArgs { result: &result, operand: &operand };
    assert_eq!(
        <UnarySignature<i32, i32> as KernelSignature<1>>::build_bind_group(args, &mut b),
        Err(KernelError::TypeMismatch)
    );
    assert_eq!(b.binding("result"), None);
}

#[test]
fn task_partition_of_three_dimensions_is_their_product() {
    let result = Tensor::<3, Float32>::allocate(buffer(1, 24), [2, 3, 4]).unwrap();
    let operand = Tensor::<3, Float32>::allocate(buffer(2, 24), [2, 3, 4]).unwrap();
    let args = UnaryArgs { result: &result, operand: &operand };
    assert_eq!(
        <UnarySignature<Float32, Float32> as KernelSignature<3>>::task_partition(&args),
        TaskPartition { tasks: 24 }
    );
    assert_eq!(TaskPartition::for_result(&result), TaskPartition { tasks: 24 });
    assert_eq!(MapKernel::new(Identity::<Float32>::new()).task_partition(&args).tasks, 24);
    let larger = Tensor::<3, i32>::allocate(buffer(1, 5 * 7 * 11), [5, 7, 11]).unwrap();
    assert_eq!(TaskPartition::for_result(&larger).tasks, 5 * 7 * 11);
}

#[test]
fn task_partition_follows_the_result_not_the_operand() {
    let result = Tensor::<1, i32>::allocate(buffer(1, 5), [5]).unwrap();
    let operand = Tensor::<1, i32>::allocate(buffer(2, 9), [9]).unwrap();
    let args = UnaryArgs { result: &result, operand: &operand };
    assert_eq!(<UnarySignature<i32, i32> as KernelSignature<1>>::task_partition(&args).tasks, 5);
}

#[test]
fn task_partition_of_booleans_counts_encoded_units() {
    for (elements, units) in [(0usize, 0usize), (1, 1), (4, 1), (32, 1), (33, 2), (64, 2), (100, 4)] {
        let result = Tensor::<1, bool>::allocate(buffer(1, units), [elements]).unwrap();
        let operand = Tensor::<1, bool>::allocate(buffer(2, units), [elements]).unwrap();
        let args = UnaryArgs { result: &result, operand: &operand };
        assert_eq!(MapKernel::new(ElementwiseBoolNot).task_partition(&args).tasks, units);
        // A map that takes booleans one by one needs an invocation for each.
        assert_eq!(MapKernel::new(Identity::<bool>::new()).task_partition(&args).tasks, elements);
    }
}

#[test]
fn task_partition_checked_refuses_what_overflows() {
    let huge = Tensor::<2, i32>::new(buffer(1, 1), Strider::new([usize::MAX, 2], [0, 0], 0));
    assert_eq!(TaskPartition::checked_for_result(&huge), None);
    let fine = Tensor::<2, i32>::new(buffer(1, 1), Strider::new([7, 2], [0, 0], 0));
    assert_eq!(TaskPartition::checked_for_result(&fine), Some(TaskPartition { tasks: 14 }));
}

#[test]
fn step_by_rounds_up() {
    assert_eq!(TaskPartition { tasks: 100 }.step_by(32), TaskPartition { tasks: 4 });
    assert_eq!(TaskPartition { tasks: 96 }.step_by(32), TaskPartition { tasks: 3 });
    assert_eq!(TaskPartition { tasks: 0 }.step_by(32), TaskPartition { tasks: 0 });
    assert_eq!(TaskPartition { tasks: 24 }.step_by(1), TaskPartition { tasks: 24 });
}

#[test]
fn placeholders_are_named_after_bindings() {
    assert_eq!(placeholder("operand"), "value_operand");
    assert_eq!(placeholder("result"), "value_result");
    assert_eq!(placeholder(""), "value_");
    assert_eq!(placeholders(&vec!["a", "b"]), vec!["value_a".to_string(), "value_b".to_string()]);
}

#[test]
fn identity_copies_the_operand() {
    let map = Identity::<i32>::new();
    assert_eq!(map.label(), "Identity");
    assert_eq!(map.body(), "let value_result = value_operand;");
    assert_eq!(map.index_step(), 1);
    assert!(!map.map_encoded());
}

#[test]
fn negate_negates_the_operand() {
    let map = ElementwiseNegate::<Float32>::new();
    assert_eq!(map.label(), "ElementwiseNegate");
    assert_eq!(map.body(), "let value_result = -value_operand;");
    assert_eq!(map.index_step(), 1);
    assert!(!map.map_encoded());
}

#[test]
fn bool_not_complements_whole_units() {
    let map = ElementwiseBoolNot;
    assert_eq!(map.label(), "ElementwiseBoolNot");
    assert_eq!(map.body(), "let value_result = ~value_operand;");
    assert_eq!(map.index_step(), 32);
    assert!(map.map_encoded());
}

#[test]
fn catalogue_labels_and_names() {
    assert_eq!(UnaryFunction::Cos.label(), "ElementwiseCos");
    assert_eq!(UnaryFunction::Cos.name(), "cos");
    assert_eq!(UnaryFunction::InverseSqrt.label(), "ElementwiseInverseSqrt");
    assert_eq!(UnaryFunction::InverseSqrt.name(), "inverseSqrt");
    assert_eq!(UnaryFunction::Absolute.name(), "abs");
    assert_eq!(UnaryFunction::Signum.name(), "sign");
    assert_eq!(UnaryFunction::Fractional.name(), "fract");
    assert_eq!(UnaryFunction::Truncate.name(), "trunc");
    assert_eq!(UnaryFunction::Atan2.name(), "atan2");
    assert_eq!(UnaryFunction::Log2.name(), "log2");
    assert_eq!(all_functions().len(), 29);
    for function in all_functions() {
        assert_eq!(function.label(), format!("Elementwise{:?}", function));
        assert!(!function.name().is_empty());
    }
}

#[test]
fn catalogue_names_are_distinct() {
    let all = all_functions();
    for (i, a) in all.iter().enumerate() {
        for b in &all[i + 1..] {
            assert_ne!(a.name(), b.name());
            assert_ne!(a.label(), b.label());
        }
    }
}

#[test]
fn catalogue_bodies_call_the_function_on_the_operand() {
    assert_eq!(
        ElementwiseFunction::<Float32>::new(UnaryFunction::Cos).body(),
        "let value_result = cos(value_operand);"
    );
    assert_eq!(
        ElementwiseFunction::<Float32>::new(UnaryFunction::InverseSqrt).body(),
        "let value_result = inverseSqrt(value_operand);"
    );
    for function in all_functions() {
        let map = ElementwiseFunction::<i32>::new(function);
        assert_eq!(map.label(), function.label());
        assert_eq!(map.body(), format!("let value_result = {}(value_operand);", function.name()));
        assert_eq!(map.index_step(), 1);
        assert!(!map.map_encoded());
    }
}

#[test]
fn map_kernel_program_is_label_body_and_placeholders() {
    let program = MapKernel::new(ElementwiseNegate::<i32>::new()).program();
    assert_eq!(program.name, "ElementwiseNegate");
    assert_eq!(program.body, "let value_result = -value_operand;");
    assert_eq!(program.reads, vec!["value_operand".to_string()]);
    assert_eq!(program.writes, vec!["value_result".to_string()]);
    assert_eq!(program.index_step, 1);
    assert!(!program.map_encoded);
    let packed = MapKernel::new(ElementwiseBoolNot).program();
    assert_eq!(packed.name, "ElementwiseBoolNot");
    assert_eq!(packed.index_step, 32);
    assert!(packed.map_encoded);
}

#[test]
fn map_kernel_dispatch_binds_sizes_and_names() {
    let result = Tensor::<2, i32>::allocate(buffer(1, 6), [2, 3]).unwrap();
    let operand = Tensor::<2, i32>::new(buffer(2, 6), Strider::new([2, 3], [1, 2], 0));
    let kernel = MapKernel::new(ElementwiseFunction::<i32>::new(UnaryFunction::Absolute));
    let dispatch = kernel.dispatch(UnaryArgs { result: &result, operand: &operand }).unwrap();
    assert_eq!(dispatch.program, kernel.program());
    assert_eq!(dispatch.program.body, "let value_result = abs(value_operand);");
    assert_eq!(dispatch.partition, TaskPartition { tasks: 6 });
    assert!(dispatch.bind_group.is_complete());
    assert_eq!(dispatch.bind_group.parameter("operand_strides"), Some(ParameterValue::Strides([1, 2])));
}

#[test]
fn map_kernel_dispatch_fails_as_the_builder_does() {
    let result = Tensor::<1, i32>::allocate(buffer(1, 4), [4]).unwrap();
    let outside = Tensor::<1, i32>::new(buffer(2, 3), Strider::new([4], [1], 0));
    let kernel = MapKernel::new(Identity::<i32>::new());
    assert_eq!(
        kernel.dispatch(UnaryArgs { result: &result, operand: &outside }).err(),
        Some(KernelError::AccessViolation)
    );
}

#[test]
fn id_keeps_the_shape() {
    let t = Tensor::<3, i32>::new(buffer(1, 100), Strider::new([2, 3, 4], [1, 2, 6], 7));
    let pending = t.id(buffer(2, 24)).unwrap();
    let dispatch = pending.dispatch();
    assert_eq!(dispatch.program.name, "Identity");
    assert_eq!(dispatch.program.body, "let value_result = value_operand;");
    assert_eq!(dispatch.partition.tasks, 24);
    assert_eq!(dispatch.bind_group.parameter("op_shape"), Some(ParameterValue::Shape([2, 3, 4])));
    assert_eq!(dispatch.bind_group.parameter("operand_offset"), Some(ParameterValue::Int(7)));
    let result = pending.complete(Ok(())).unwrap();
    assert_eq!(result.shape(), t.shape());
    assert_eq!(result.buffer(), buffer(2, 24));
    assert_eq!(result.strider(), Strider::contiguous([2, 3, 4]));
}

#[test]
fn id_of_id_has_the_layout_of_id() {
    let t = Tensor::<2, u32>::new(buffer(1, 100), Strider::new([3, 5], [-1, 10], 2));
    let once = t.id(buffer(2, 15)).unwrap().complete(Ok(())).unwrap();
    let twice = once.id(buffer(3, 15)).unwrap().complete(Ok(())).unwrap();
    assert_eq!(twice.shape(), t.shape());
    assert_eq!(twice.strider(), once.strider());
}

#[test]
fn neg_of_four_floats() {
    let t = Tensor::<1, Float32>::allocate(buffer(1, 4), [4]).unwrap();
    let pending = t.neg(buffer(2, 4)).unwrap();
    let dispatch = pending.dispatch();
    assert_eq!(dispatch.program.name, "ElementwiseNegate");
    assert_eq!(dispatch.program.body, "let value_result = -value_operand;");
    assert_eq!(dispatch.program.reads, vec!["value_operand".to_string()]);
    assert_eq!(dispatch.program.writes, vec!["value_result".to_string()]);
    assert_eq!(dispatch.partition.tasks, 4);
    assert_eq!(dispatch.bind_group.binding("operand"), Some(Binding::new(&t, AccessMode::ReadOnly)));
    assert_eq!(dispatch.bind_group.binding("result").map(|b| (b.buffer, b.access, b.element)), Some((
        buffer(2, 4),
        AccessMode::ReadWrite,
        ElementType::Float32
    )));
    assert_eq!(dispatch.bind_group.parameter("op_strides"), Some(ParameterValue::Strides([1])));
    assert_eq!(dispatch.bind_group.parameter("op_shape"), Some(ParameterValue::Shape([4])));
    assert_eq!(dispatch.bind_group.parameter("result_offset"), Some(ParameterValue::Int(0)));
    assert_eq!(dispatch.bind_group.parameter("result_strides"), Some(ParameterValue::Strides([1])));
    assert_eq!(dispatch.bind_group.parameter("operand_offset"), Some(ParameterValue::Int(0)));
    assert_eq!(dispatch.bind_group.parameter("operand_strides"), Some(ParameterValue::Strides([1])));
    let result = pending.complete(Ok(())).unwrap();
    assert_eq!(result.shape(), [4]);
}

#[test]
fn neg_of_neg_has_the_shape_of_the_operand() {
    let t = Tensor::<2, i32>::new(buffer(1, 30), Strider::new([2, 5], [5, -1], 4));
    let once = t.neg(buffer(2, 10)).unwrap().complete(Ok(())).unwrap();
    let twice = once.neg(buffer(3, 10)).unwrap().complete(Ok(())).unwrap();
    assert_eq!(twice.shape(), t.shape());
}

#[test]
fn abs_of_four_floats() {
    let t = Tensor::<1, Float32>::allocate(buffer(1, 4), [4]).unwrap();
    let pending = t.apply(UnaryFunction::Absolute, buffer(2, 4)).unwrap();
    assert_eq!(pending.dispatch().program.name, "ElementwiseAbsolute");
    assert_eq!(pending.dispatch().program.body, "let value_result = abs(value_operand);");
    assert_eq!(pending.dispatch().partition.tasks, 4);
    assert_eq!(pending.complete(Ok(())).unwrap().shape(), [4]);
}

#[test]
fn not_of_four_booleans() {
    let t = Tensor::<1, bool>::allocate(buffer(1, 1), [4]).unwrap();
    let pending = t.not(buffer(2, 1)).unwrap();
    let dispatch = pending.dispatch();
    assert_eq!(dispatch.program.name, "ElementwiseBoolNot");
    assert_eq!(dispatch.program.body, "let value_result = ~value_operand;");
    assert_eq!(dispatch.program.index_step, 32);
    assert!(dispatch.program.map_encoded);
    // Four booleans share one encoded unit.
    assert_eq!(dispatch.partition.tasks, 1);
    assert_eq!(dispatch.bind_group.binding("result").map(|b| b.element), Some(ElementType::Bool));
    let result = pending.complete(Ok(())).unwrap();
    assert_eq!(result.shape(), [4]);
}

#[test]
fn not_of_many_booleans_takes_one_invocation_per_unit() {
    let t = Tensor::<2, bool>::allocate(buffer(1, 4), [10, 10]).unwrap();
    assert_eq!(t.not(buffer(2, 4)).unwrap().dispatch().partition.tasks, 4);
    let exact = Tensor::<1, bool>::allocate(buffer(1, 2), [64]).unwrap();
    assert_eq!(exact.not(buffer(2, 2)).unwrap().dispatch().partition.tasks, 2);
    let none = Tensor::<1, bool>::allocate(buffer(1, 0), [0]).unwrap();
    assert_eq!(none.not(buffer(2, 0)).unwrap().dispatch().partition.tasks, 0);
}

#[test]
fn not_of_not_has_the_shape_of_the_operand() {
    let t = Tensor::<1, bool>::new(buffer(1, 4), Strider::new([50], [2], 1));
    let once = t.not(buffer(2, 2)).unwrap().complete(Ok(())).unwrap();
    let twice = once.not(buffer(3, 2)).unwrap().complete(Ok(())).unwrap();
    assert_eq!(twice.shape(), t.shape());
    assert_eq!(twice.strider(), once.strider());
}

#[test]
fn map_fails_where_the_result_cannot_be_laid_out() {
    let t = Tensor::<1, i32>::allocate(buffer(1, 4), [4]).unwrap();
    assert_eq!(t.id(buffer(2, 3)).err(), Some(KernelError::AllocationFailure));
    let huge = Tensor::<2, i32>::new(buffer(1, 1), Strider::new([usize::MAX, 2], [0, 0], 0));
    assert_eq!(huge.neg(buffer(2, usize::MAX)).err(), Some(KernelError::AllocationFailure));
    // The allocation is checked first.
    let outside = Tensor::<1, i32>::new(buffer(1, 2), Strider::new([4], [1], 0));
    assert_eq!(outside.id(buffer(2, 3)).err(), Some(KernelError::AllocationFailure));
}

#[test]
fn map_fails_where_the_operand_leaves_its_buffer() {
    let outside = Tensor::<1, i32>::new(buffer(1, 2), Strider::new([4], [1], 0));
    assert_eq!(outside.id(buffer(2, 4)).err(), Some(KernelError::AccessViolation));
    assert_eq!(
        outside.apply(UnaryFunction::Sqrt, buffer(2, 4)).err(),
        Some(KernelError::AccessViolation)
    );
}

#[test]
fn map_fails_where_the_result_would_overwrite_the_operand() {
    let t = Tensor::<1, i32>::allocate(buffer(1, 8), [4]).unwrap();
    assert_eq!(t.id(buffer(1, 8)).err(), Some(KernelError::AccessViolation));
    // An operand behind the units of the result, in the same buffer, is left alone.
    let behind = Tensor::<1, i32>::new(buffer(1, 8), Strider::new([4], [1], 4));
    assert!(behind.id(buffer(1, 8)).is_ok());
    let touching = Tensor::<1, i32>::new(buffer(1, 8), Strider::new([4], [1], 3));
    assert_eq!(touching.neg(buffer(1, 8)).err(), Some(KernelError::AccessViolation));
    // Without elements nothing overlaps.
    let empty = Tensor::<1, i32>::new(buffer(1, 8), Strider::new([0], [1], 0));
    assert!(empty.id(buffer(1, 8)).is_ok());
}

#[test]
fn map_of_packed_operand_overlaps_by_unit() {
    // Result: 40 booleans in units 0 and 1. Operand: bits 60 to 99, units 1 to 3.
    let operand = Tensor::<1, bool>::new(buffer(1, 4), Strider::new([40], [1], 60));
    assert_eq!(operand.not(buffer(1, 4)).err(), Some(KernelError::AccessViolation));
    let apart = Tensor::<1, bool>::new(buffer(1, 4), Strider::new([40], [1], 64));
    assert!(apart.not(buffer(1, 4)).is_ok());
}

#[test]
fn map_into_another_element_type() {
    let t = Tensor::<1, bool>::allocate(buffer(1, 2), [40]).unwrap();
    // A map from booleans to integers writes one unit per element.
    let widen = || {
        UnaryMap::<i32, bool>::new("Widen", "let value_result = i32(value_operand);", 1, false)
            .unwrap()
    };
    assert_eq!(
        t.map_unary_elementwise(widen(), buffer(2, 39)).err(),
        Some(KernelError::AllocationFailure)
    );
    let pending = t.map_unary_elementwise(widen(), buffer(2, 40)).unwrap();
    assert_eq!(pending.dispatch().program.name, "Widen");
    assert_eq!(pending.dispatch().partition.tasks, 40);
    assert_eq!(
        pending.dispatch().bind_group.binding("result").map(|b| b.element),
        Some(ElementType::Int32)
    );
    assert_eq!(
        pending.dispatch().bind_group.binding("operand").map(|b| b.element),
        Some(ElementType::Bool)
    );
}

#[test]
fn pending_tensor_is_handed_out_only_after_success() {
    let t = Tensor::<1, i32>::allocate(buffer(1, 4), [4]).unwrap();
    let failed = t.id(buffer(2, 4)).unwrap().complete(Err(KernelError::DispatchFailure));
    assert_eq!(failed, Err(KernelError::DispatchFailure));
    let ok = t.id(buffer(2, 4)).unwrap().complete(Ok(()));
    assert_eq!(ok, Tensor::<1, i32>::allocate(buffer(2, 4), [4]));
}

#[test]
fn unary_map_is_given_by_its_parts() {
    let map = UnaryMap::<u32, u32>::new("Twice", "let value_result = 2u * value_operand;", 1, false)
        .unwrap();
    assert_eq!(map.label(), "Twice");
    assert_eq!(map.body(), "let value_result = 2u * value_operand;");
    assert_eq!(map.index_step(), 1);
    assert!(!map.map_encoded());
    assert!(UnaryMap::<u32, u32>::new("Twice", "", 0, false).is_none());
    let packed = UnaryMap::<bool, bool>::new("Keep", "let value_result = value_operand;", 32, true)
        .unwrap();
    let t = Tensor::<1, bool>::allocate(buffer(1, 3), [70]).unwrap();
    let pending = t.map_unary_elementwise(packed, buffer(2, 3)).unwrap();
    assert_eq!(pending.dispatch().partition.tasks, 3);
    assert_eq!(pending.dispatch().program.index_step, 32);
    assert!(pending.dispatch().program.map_encoded);
    let by_seven = UnaryMap::<i32, i32>::new("Keep", "let value_result = value_operand;", 7, false)
        .unwrap();
    let u = Tensor::<1, i32>::allocate(buffer(1, 50), [50]).unwrap();
    assert_eq!(u.map_unary_elementwise(by_seven, buffer(2, 50)).unwrap().dispatch().partition.tasks, 8);
}
