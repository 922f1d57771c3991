use global_lp_pool::codegen::{LpPoolForward, LpReduction};
use global_lp_pool::global_lp_pool::{GlobalLpPoolConfig, GlobalLpPoolNode};
use global_lp_pool::ir::{ArgType, Argument, DType, TensorType};

fn tensor(name: &str, rank: usize, dtype: DType) -> Argument {
    Argument {
        name: name.to_string(),
        ty: ArgType::Tensor(TensorType { dtype, rank, static_shape: None }),
    }
}

fn node(input: Argument, output: Argument, p: i64) -> GlobalLpPoolNode {
    GlobalLpPoolNode {
        name: "global_lp_pool".to_string(),
        inputs: vec![input],
        outputs: vec![output],
        config: GlobalLpPoolConfig::new(p),
    }
}

fn reduce(abs: bool, reduction: LpReduction, dims: Vec<isize>) -> LpPoolForward {
    LpPoolForward::Reduce { abs, reduction, dims }
}

#[test]
fn global_lp_pool_rank3_l1() {
    let node = node(tensor("input", 3, DType::F32), tensor("output", 3, DType::F32), 1);
    // x = input.abs(); x.sum_dims(&[2isize])
    assert_eq!(node.forward(), reduce(true, LpReduction::Sum, vec![2]));
}

#[test]
fn global_lp_pool_rank3_l2() {
    let node = node(tensor("input", 3, DType::F32), tensor("output", 3, DType::F32), 2);
    // x = input; x.square().sum_dims(&[2isize]).sqrt()
    assert_eq!(node.forward(), reduce(false, LpReduction::SquareSumSqrt, vec![2]));
}

#[test]
fn global_lp_pool_rank3_l3() {
    let node = node(tensor("input", 3, DType::F32), tensor("output", 3, DType::F32), 3);
    // x = input.abs(); x.powi_scalar(3i64).sum_dims(&[2isize]).powf_scalar(0.3333333333333333f64)
    assert_eq!(node.forward(), reduce(true, LpReduction::PowSumRoot(3), vec![2]));
}

#[test]
fn global_lp_pool_rank5_l1() {
    let node = node(tensor("input", 5, DType::F32), tensor("output", 5, DType::F32), 1);
    assert_eq!(node.forward(), reduce(true, LpReduction::Sum, vec![2, 3, 4]));
}

#[test]
fn global_lp_pool_rank5_l2() {
    let node = node(tensor("input", 5, DType::F32), tensor("output", 5, DType::F32), 2);
    assert_eq!(node.forward(), reduce(false, LpReduction::SquareSumSqrt, vec![2, 3, 4]));
}

#[test]
fn global_lp_pool_rank6_l8() {
    let node = node(tensor("input", 6, DType::F32), tensor("output", 6, DType::F32), 8);
    // x = input; x.powi_scalar(8i64).sum_dims(&[2isize, 3isize, 4isize, 5isize]).powf_scalar(0.125f64)
    assert_eq!(node.forward(), reduce(false, LpReduction::PowSumRoot(8), vec![2, 3, 4, 5]));
}

#[test]
fn global_lp_pool_non_tensor_input_emits_compile_error() {
    let input = Argument { name: "input".to_string(), ty: ArgType::Scalar(DType::F32) };
    let node = node(input, tensor("output", 3, DType::F32), 2);
    assert_eq!(
        node.forward(),
        LpPoolForward::CompileError("GlobalLpPool node 'global_lp_pool': input must be a tensor".to_string())
    );
}

#[test]
fn non_tensor_input_errors_whatever_p() {
    let input = Argument { name: "input".to_string(), ty: ArgType::Shape(2) };
    let mut n = node(input, tensor("output", 3, DType::F32), 0);
    n.name = "pool_7".to_string();
    assert_eq!(
        n.forward(),
        LpPoolForward::CompileError("GlobalLpPool node 'pool_7': input must be a tensor".to_string())
    );
}

#[test]
fn odd_orders_take_the_absolute_value() {
    let n = node(tensor("input", 4, DType::F64), tensor("output", 4, DType::F64), 5);
    assert_eq!(n.forward(), reduce(true, LpReduction::PowSumRoot(5), vec![2, 3]));
    let n = node(tensor("input", 4, DType::F64), tensor("output", 4, DType::F64), 4);
    assert_eq!(n.forward(), reduce(false, LpReduction::PowSumRoot(4), vec![2, 3]));
}

#[test]
fn getters_return_arguments() {
    let n = node(tensor("input", 4, DType::F64), tensor("output", 4, DType::F64), 5);
    assert_eq!(n.inputs(), &[tensor("input", 4, DType::F64)][..]);
    assert_eq!(n.outputs()[0].name, "output");
}

