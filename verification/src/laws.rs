//! Properties that hold across the processor's operations and the forward
//! pass of the nodes it builds.

use vstd::prelude::*;

use crate::codegen::{forward_plannable, spatial_dims, spec_forward, LpPoolForwardView};
use crate::global_lp_pool::{
    infer_reaches_p, lp_pool_node_spec, p_attr_is_int, spec_extract_p, spec_infer_output,
    with_output_type, GlobalLpPoolConfig, GlobalLpPoolNode,
};
use crate::codegen::LpReduction;
use crate::ir::{
    attr_lookup, attr_names_unique, dtype_text, ArgTypeView, AttributeValueView, DType,
    ProcessErrorView, RawNode, RawNodeView, TensorTypeView,
};
use crate::processor::spec_validation;

verus! {

/// The `GlobalLpPool` declaration accepts a node exactly when the opset is 1
/// or later and the node has one input and one output.
pub proof fn lemma_spec_accepts_single_input_and_output(opset: usize, num_inputs: nat, num_outputs: nat)
    ensures
        spec_validation(lp_pool_node_spec(), opset, num_inputs, num_outputs) is Ok <==> (opset >= 1
            && num_inputs == 1 && num_outputs == 1),
{
}

/// Without an attribute `p`, the norm is the Euclidean one: `p` is 2.
pub proof fn lemma_p_defaults_to_two(node: RawNodeView)
    requires
        attr_lookup(node.attrs, "p"@) is None,
    ensures
        spec_extract_p(node) == Ok::<i64, crate::ir::ProcessErrorView>(2),
{
}

/// The inferred output type depends on the node's inputs and attributes only,
/// not on its outputs.
pub proof fn lemma_infer_ignores_outputs(a: RawNodeView, b: RawNodeView)
    requires
        a.inputs == b.inputs,
        a.attrs == b.attrs,
    ensures
        spec_infer_output(a) == spec_infer_output(b),
{
}

/// Type inference is idempotent: once a node's output type has been set, a
/// second inference accepts the node again, infers the same type and leaves
/// the node as it is.
pub proof fn lemma_infer_types_idempotent(node: RawNodeView)
    requires
        spec_infer_output(node) is Ok,
        node.outputs.len() > 0,
    ensures
        spec_infer_output(with_output_type(node, spec_infer_output(node)->Ok_0)) == spec_infer_output(
            node,
        ),
        with_output_type(
            with_output_type(node, spec_infer_output(node)->Ok_0),
            spec_infer_output(node)->Ok_0,
        ) == with_output_type(node, spec_infer_output(node)->Ok_0),
{
    let t = spec_infer_output(node)->Ok_0;
    let once = with_output_type(node, t);
    lemma_infer_ignores_outputs(once, node);
    assert(with_output_type(once, t).outputs =~= once.outputs);
}

/// Once the input is a float tensor of rank at least 3, type inference and
/// configuration agree: inference accepts the node exactly when `p` is
/// accepted, and refuses it with the same error otherwise.
pub proof fn lemma_infer_agrees_with_config(node: RawNodeView)
    requires
        infer_reaches_p(node),
    ensures
        spec_infer_output(node) is Ok <==> spec_extract_p(node) is Ok,
        spec_extract_p(node) is Err ==> spec_infer_output(node)->Err_0 == spec_extract_p(node)->Err_0,
{
}

/// An accepted node's output keeps the input's element type and rank (at
/// least 3), and its static shape has one entry per entry of the input's
/// static shape (one per dimension where the input has none): the batch and
/// channel sizes of the input, then size 1 in every spatial dimension.
pub proof fn lemma_output_is_pooled(node: RawNodeView)
    requires
        spec_infer_output(node) is Ok,
    ensures
        ({
            let input = node.inputs[0].ty->Tensor_0;
            let out = spec_infer_output(node)->Ok_0;
            let shape = out.static_shape->0;
            &&& node.inputs[0].ty is Tensor
            &&& out.dtype == input.dtype
            &&& out.rank == input.rank
            &&& out.rank >= 3
            &&& out.static_shape is Some
            &&& shape.len() == (match input.static_shape {
                Some(s) => s.len(),
                None => input.rank as nat,
            })
            &&& forall|i: int|
                0 <= i < 2 && i < shape.len() ==> #[trigger] shape[i] == (match input.static_shape {
                    Some(s) => s[i],
                    None => None,
                })
            &&& forall|i: int| 2 <= i < shape.len() ==> #[trigger] shape[i] == Some(1usize)
        }),
{
}

/// A node built from a raw node that type inference accepts always has a
/// plannable forward pass, and that pass reduces over every spatial axis, of
/// which there is at least one: a non-positive `p` or a rank under 3 can
/// only come from a node built by hand.
pub proof fn lemma_accepted_node_plans_reduction(raw: RawNode)
    requires
        spec_infer_output(raw@) is Ok,
        attr_names_unique(raw@.attrs),
        infer_reaches_p(raw@) ==> p_attr_is_int(raw@),
        raw.outputs.len() > 0,
    ensures
        attr_names_unique(raw@.attrs),
        p_attr_is_int(raw@),
        spec_extract_p(raw@) is Ok,
        ({
            let built = GlobalLpPoolNode {
                name: raw.name,
                inputs: raw.inputs,
                outputs: raw.outputs,
                config: GlobalLpPoolConfig { p: spec_extract_p(raw@)->Ok_0 },
            };
            let rank = raw@.inputs[0].ty->Tensor_0.rank;
            &&& forward_plannable(built)
            &&& spec_forward(built.name@, built.inputs@[0].ty@, built.config.p)
                == LpPoolForwardView::Reduce {
                abs: built.config.p % 2 != 0,
                reduction: crate::codegen::lp_reduction(built.config.p),
                dims: spatial_dims(rank),
            }
            &&& spatial_dims(rank).len() >= 1
        }),
{
    assert(raw@.inputs[0] == raw.inputs@[0]@);
}

/// The order `p` comes from the node's attribute: a positive integer
/// attribute `v` gives `v` exactly, no attribute gives 2, and a zero or
/// negative attribute is refused.
pub proof fn lemma_p_is_the_positive_attribute(node: RawNodeView)
    ensures
        forall|v: i64|
            attr_lookup(node.attrs, "p"@) == Some(AttributeValueView::Int64(v)) && v > 0
                ==> spec_extract_p(node) == Ok::<i64, ProcessErrorView>(v),
        forall|v: i64|
            attr_lookup(node.attrs, "p"@) == Some(AttributeValueView::Int64(v)) && v <= 0
                ==> spec_extract_p(node) is Err,
        attr_lookup(node.attrs, "p"@) is None ==> spec_extract_p(node) == Ok::<i64, ProcessErrorView>(
            2,
        ),
        spec_extract_p(node) is Ok ==> spec_extract_p(node)->Ok_0 > 0,
{
}

/// The node built from a raw node carries the raw node's positive integer
/// attribute `p` unchanged as its configuration (2 where there is none).
pub proof fn lemma_built_config_is_the_attribute(raw: RawNodeView)
    requires
        spec_extract_p(raw) is Ok,
    ensures
        ({
            let config = GlobalLpPoolConfig { p: spec_extract_p(raw)->Ok_0 };
            &&& forall|v: i64|
                attr_lookup(raw.attrs, "p"@) == Some(AttributeValueView::Int64(v)) ==> config.p == v
            &&& attr_lookup(raw.attrs, "p"@) is None ==> config.p == 2
        }),
{
}

/// Type inference accepts a node exactly when its first input is a tensor of
/// rank at least 3 whose element type is `F16`, `F32` or `F64`, and its
/// attribute `p`, if any, is a positive integer.
pub proof fn lemma_infer_accepts_exactly(node: RawNodeView)
    requires
        p_attr_is_int(node),
    ensures
        spec_infer_output(node) is Ok <==> {
            &&& node.inputs.len() > 0
            &&& node.inputs[0].ty is Tensor
            &&& node.inputs[0].ty->Tensor_0.rank >= 3
            &&& (node.inputs[0].ty->Tensor_0.dtype == DType::F16
                || node.inputs[0].ty->Tensor_0.dtype == DType::F32
                || node.inputs[0].ty->Tensor_0.dtype == DType::F64)
            &&& forall|v: i64|
                attr_lookup(node.attrs, "p"@) == Some(AttributeValueView::Int64(v)) ==> v > 0
        },
{
    lemma_p_is_the_positive_attribute(node);
}

/// A tensor input of rank at least 3 whose element type is anything but
/// `F16`, `F32` or `F64` is refused with a type mismatch that names its type.
pub proof fn lemma_infer_refuses_other_dtypes(node: RawNodeView)
    requires
        node.inputs.len() > 0,
        node.inputs[0].ty is Tensor,
        node.inputs[0].ty->Tensor_0.rank >= 3,
        node.inputs[0].ty->Tensor_0.dtype != DType::F16,
        node.inputs[0].ty->Tensor_0.dtype != DType::F32,
        node.inputs[0].ty->Tensor_0.dtype != DType::F64,
    ensures
        spec_infer_output(node) == Err::<TensorTypeView, ProcessErrorView>(
            ProcessErrorView::TypeMismatch {
                expected: "DType::F16 | DType::F32 | DType::F64"@,
                actual: dtype_text(node.inputs[0].ty->Tensor_0.dtype),
            },
        ),
{
}

/// The forward pass of a tensor input reduces with a plain sum exactly when
/// `p` is 1, with the square root of the sum of squares exactly when `p` is
/// 2, and with the `p`-th root of the sum of `p`-th powers for every other
/// `p`; it takes the absolute value exactly when `p` is odd, and reduces the
/// axes `2, ..., rank - 1` in order.
pub proof fn lemma_forward_reduction_follows_p(name: Seq<char>, t: TensorTypeView, p: i64)
    requires
        p > 0,
        t.rank >= 3,
    ensures
        ({
            let f = spec_forward(name, ArgTypeView::Tensor(t), p);
            &&& f is Reduce
            &&& (f->Reduce_reduction == LpReduction::Sum <==> p == 1)
            &&& (f->Reduce_reduction == LpReduction::SquareSumSqrt <==> p == 2)
            &&& (p != 1 && p != 2 ==> f->Reduce_reduction == LpReduction::PowSumRoot(p))
            &&& (f->Reduce_abs <==> p % 2 == 1)
            &&& f->Reduce_dims.len() == t.rank - 2
            &&& forall|i: int| 0 <= i < t.rank - 2 ==> f->Reduce_dims[i] == (i + 2) as isize
        }),
{
}

} // verus!
