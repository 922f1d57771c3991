//! The `GlobalLpPool` operator: its configuration, its typed node, and the
//! processor that checks a raw node, infers its output type and builds the
//! typed node.
//!
//! Opset 1 introduced the operator and opset 2 changed nothing that concerns
//! it, so every opset from 1 on is accepted. The input is a float tensor of
//! rank at least 3 laid out as `[N, C, D1, D2, ...]`; the output has the same
//! element type and rank, with every spatial dimension pooled to size 1.

use vstd::prelude::*;

use crate::ir::{
    arg_type_wf, attr_lookup, attr_names_unique, dtype_text, arg_type_text, ArgType, ArgTypeView, Argument, ArgumentView,
    AttributeValue, AttributeValueView, DType, ProcessError, ProcessErrorView, RawNode,
    RawNodeView, TensorType, TensorTypeView, args_view,
};
use crate::processor::{InputSpec, NodeSpec, OutputPreferences, OutputSpec};
use crate::text::{int_decimal, nat_decimal, push_i64_decimal, push_usize_decimal};

verus! {

/// The configuration of a `GlobalLpPool` node.
#[derive(Debug, Clone, Copy, PartialEq, Eq, Structural)]
pub struct GlobalLpPoolConfig {
    /// The order `p` of the norm (2 where the node does not say).
    pub p: i64,
}

impl GlobalLpPoolConfig {
    pub fn new(p: i64) -> (r: Self)
        ensures
            r.p == p,
    {
        GlobalLpPoolConfig { p }
    }
}

/// A typed `GlobalLpPool` node.
#[derive(Debug, Clone, PartialEq)]
pub struct GlobalLpPoolNode {
    pub name: String,
    pub inputs: Vec<Argument>,
    pub outputs: Vec<Argument>,
    pub config: GlobalLpPoolConfig,
}

/// A typed node of the graph.
#[derive(Debug, Clone, PartialEq)]
pub enum Node {
    GlobalLpPool(GlobalLpPoolNode),
}

/// The processor of `GlobalLpPool` nodes.
#[derive(Debug, Clone, Copy, PartialEq, Eq, Structural)]
pub struct GlobalLpPoolProcessor;

/// The `p` that a node asks for: its integer attribute `p`, or 2 where it
/// has none.
pub open spec fn spec_p_value(node: RawNodeView) -> i64 {
    match attr_lookup(node.attrs, "p"@) {
        Some(AttributeValueView::Int64(v)) => v,
        _ => 2,
    }
}

/// The node's attribute `p`, if it has one, holds an integer.
pub open spec fn p_attr_is_int(node: RawNodeView) -> bool {
    match attr_lookup(node.attrs, "p"@) {
        Some(AttributeValueView::Int64(_)) => true,
        None => true,
        _ => false,
    }
}

/// The message that refuses a `p` that is not positive.
pub open spec fn p_error_text(p: i64) -> Seq<char> {
    "GlobalLpPool: p must be > 0, got "@ + int_decimal(p as int)
}

/// The `p` of a node, or the error that refuses it.
pub open spec fn spec_extract_p(node: RawNodeView) -> Result<i64, ProcessErrorView> {
    let p = spec_p_value(node);
    if p <= 0 {
        Err(ProcessErrorView::Custom(p_error_text(p)))
    } else {
        Ok(p)
    }
}

/// The view of a result that carries a `p`.
pub open spec fn p_result_view(r: Result<i64, ProcessError>) -> Result<i64, ProcessErrorView> {
    match r {
        Ok(p) => Ok(p),
        Err(e) => Err(e@),
    }
}

/// Reads the order `p` of the norm from the node's attribute `p` (2 where the
/// node has none) and refuses it unless it is positive.
pub fn extract_p(node: &RawNode) -> (r: Result<i64, ProcessError>)
    requires
        attr_names_unique(node@.attrs),
        p_attr_is_int(node@),
    ensures
        p_result_view(r) == spec_extract_p(node@),
{
    let key = String::from_str("p");
    let p: i64 = match node.attr(&key) {
        Some(AttributeValue::Int64(v)) => *v,
        _ => 2,
    };
    if p <= 0 {
        let mut msg = String::from_str("GlobalLpPool: p must be > 0, got ");
        push_i64_decimal(&mut msg, p);
        return Err(ProcessError::Custom(msg));
    }
    Ok(p)
}

/// The element types that the operator takes.
pub open spec fn is_lp_pool_dtype(d: DType) -> bool {
    d == DType::F16 || d == DType::F32 || d == DType::F64
}

/// The static shape of the output: the input's static shape, or one unknown
/// size per dimension where the input has none, with every dimension from the
/// third on set to 1.
pub open spec fn pooled_shape(t: TensorTypeView) -> Seq<Option<usize>> {
    let base = match t.static_shape {
        Some(s) => s,
        None => Seq::new(t.rank as nat, |i: int| None),
    };
    Seq::new(base.len(), |i: int| if i < 2 { base[i] } else { Some(1usize) })
}

/// The message that refuses an input of too small a rank.
pub open spec fn rank_error_text(rank: usize) -> Seq<char> {
    "GlobalLpPool: input tensor requires rank at least 3, got rank "@ + nat_decimal(rank as nat)
}

/// The type of the node's output, or the error that refuses the node: a
/// missing input, an input that is no tensor, a rank under 3, an element type
/// other than `F16`, `F32` or `F64`, or a `p` that is not positive, checked in
/// this order.
pub open spec fn spec_infer_output(node: RawNodeView) -> Result<TensorTypeView, ProcessErrorView> {
    if node.inputs.len() == 0 {
        Err(ProcessErrorView::MissingInput("GlobalLpPool: missing input"@))
    } else {
        match node.inputs[0].ty {
            ArgTypeView::Tensor(t) => if t.rank <= 2 {
                Err(ProcessErrorView::Custom(rank_error_text(t.rank)))
            } else if !is_lp_pool_dtype(t.dtype) {
                Err(
                    ProcessErrorView::TypeMismatch {
                        expected: "DType::F16 | DType::F32 | DType::F64"@,
                        actual: dtype_text(t.dtype),
                    },
                )
            } else {
                match spec_extract_p(node) {
                    Err(e) => Err(e),
                    Ok(_) => Ok(
                        TensorTypeView {
                            dtype: t.dtype,
                            rank: t.rank,
                            static_shape: Some(pooled_shape(t)),
                        },
                    ),
                }
            },
            other => Err(
                ProcessErrorView::TypeMismatch {
                    expected: "GlobalLpPool: input should be a tensor"@,
                    actual: arg_type_text(other),
                },
            ),
        }
    }
}

/// Type inference reaches the reading of `p`: the node's input is a tensor of
/// rank at least 3 and of a float type that the operator takes.
pub open spec fn infer_reaches_p(node: RawNodeView) -> bool {
    &&& node.inputs.len() > 0
    &&& node.inputs[0].ty is Tensor
    &&& node.inputs[0].ty->Tensor_0.rank > 2
    &&& is_lp_pool_dtype(node.inputs[0].ty->Tensor_0.dtype)
}

/// The node with the type of its first output replaced by the tensor type `t`.
pub open spec fn with_output_type(node: RawNodeView, t: TensorTypeView) -> RawNodeView {
    RawNodeView {
        outputs: node.outputs.update(
            0,
            ArgumentView { name: node.outputs[0].name, ty: ArgTypeView::Tensor(t) },
        ),
        ..node
    }
}

/// The accepted opsets and argument counts of `GlobalLpPool`.
pub open spec fn lp_pool_node_spec() -> NodeSpec {
    NodeSpec {
        min_opset: 1,
        max_opset: None,
        inputs: InputSpec::Exact(1),
        outputs: OutputSpec::Exact(1),
    }
}

impl GlobalLpPoolProcessor {
    /// The opsets and argument counts that `GlobalLpPool` accepts: opset 1 or
    /// later, one input and one output.
    pub fn spec(&self) -> (r: NodeSpec)
        ensures
            r == lp_pool_node_spec(),
    {
        NodeSpec {
            min_opset: 1,
            max_opset: None,
            inputs: InputSpec::Exact(1),
            outputs: OutputSpec::Exact(1),
        }
    }

    /// Checks the node's input and `p`, and sets the type of its first
    /// output: a tensor of the input's element type and rank whose static
    /// shape keeps the first two sizes of the input's and has size 1 in
    /// every spatial dimension. A refused node is left unchanged.
    pub fn infer_types(
        &self,
        node: &mut RawNode,
        _opset: usize,
        _output_preferences: &OutputPreferences,
    ) -> (r: Result<(), ProcessError>)
        requires
            attr_names_unique(old(node)@.attrs),
            old(node).inputs.len() > 0 ==> arg_type_wf(old(node)@.inputs[0].ty),
            infer_reaches_p(old(node)@) ==> p_attr_is_int(old(node)@),
            spec_infer_output(old(node)@) is Ok ==> old(node).outputs.len() > 0,
        ensures
            r is Ok <==> spec_infer_output(old(node)@) is Ok,
            r is Ok ==> final(node)@ == with_output_type(
                old(node)@,
                spec_infer_output(old(node)@)->Ok_0,
            ),
            r is Err ==> r->Err_0@ == spec_infer_output(old(node)@)->Err_0,
            r is Err ==> *final(node) == *old(node),
    {
        if node.inputs.len() == 0 {
            return Err(ProcessError::MissingInput(String::from_str("GlobalLpPool: missing input")));
        }
        let dtype: DType;
        let rank: usize;
        let mut shape: Vec<Option<usize>> = Vec::new();
        match &node.inputs[0].ty {
            ArgType::Tensor(t) => {
                if t.rank <= 2 {
                    let mut msg = String::from_str(
                        "GlobalLpPool: input tensor requires rank at least 3, got rank ",
                    );
                    push_usize_decimal(&mut msg, t.rank);
                    return Err(ProcessError::Custom(msg));
                }
                let is_float = match t.dtype {
                    DType::F16 | DType::F32 | DType::F64 => true,
                    _ => false,
                };
                if !is_float {
                    let mut actual = String::new();
                    t.dtype.push_text(&mut actual);
                    return Err(
                        ProcessError::TypeMismatch {
                            expected: String::from_str("DType::F16 | DType::F32 | DType::F64"),
                            actual,
                        },
                    );
                }
                dtype = t.dtype;
                rank = t.rank;
                shape = pool_shape(t);
            },
            other => {
                let mut actual = String::new();
                other.push_text(&mut actual);
                return Err(
                    ProcessError::TypeMismatch {
                        expected: String::from_str("GlobalLpPool: input should be a tensor"),
                        actual,
                    },
                );
            },
        }
        extract_p(node)?;
        let out_name = node.outputs[0].name.clone();
        let ghost before = node@;
        let ghost out_ty = TensorTypeView { dtype, rank, static_shape: Some(shape@) };
        let out = Argument {
            name: out_name,
            ty: ArgType::Tensor(TensorType { dtype, rank, static_shape: Some(shape) }),
        };
        assert(out@.ty == ArgTypeView::Tensor(out_ty));
        node.outputs.set(0, out);
        assert(node@.outputs =~= before.outputs.update(0, out@));
        Ok(())
    }

    /// The configuration of the node: its `p`, or the error that refuses it.
    pub fn extract_config(&self, node: &RawNode, _opset: usize) -> (r: Result<
        GlobalLpPoolConfig,
        ProcessError,
    >)
        requires
            attr_names_unique(node@.attrs),
            p_attr_is_int(node@),
        ensures
            match r {
                Ok(c) => spec_extract_p(node@) == Ok::<i64, ProcessErrorView>(c.p),
                Err(e) => spec_extract_p(node@) == Err::<i64, ProcessErrorView>(e@),
            },
    {
        let p = extract_p(node)?;
        Ok(GlobalLpPoolConfig::new(p))
    }

    /// Turns an accepted raw node into a typed node, keeping its name and
    /// arguments and adding its configuration.
    pub fn build_node(&self, builder: RawNode, opset: usize) -> (r: Node)
        requires
            attr_names_unique(builder@.attrs),
            p_attr_is_int(builder@),
            spec_extract_p(builder@) is Ok,
        ensures
            r == Node::GlobalLpPool(
                GlobalLpPoolNode {
                    name: builder.name,
                    inputs: builder.inputs,
                    outputs: builder.outputs,
                    config: GlobalLpPoolConfig { p: spec_extract_p(builder@)->Ok_0 },
                },
            ),
    {
        let config = match self.extract_config(&builder, opset) {
            Ok(c) => c,
            Err(_) => GlobalLpPoolConfig::new(2),
        };
        Node::GlobalLpPool(
            GlobalLpPoolNode {
                name: builder.name,
                inputs: builder.inputs,
                outputs: builder.outputs,
                config,
            },
        )
    }
}

/// The pooled static shape of a tensor type.
fn pool_shape(t: &TensorType) -> (r: Vec<Option<usize>>)
    ensures
        r@ == pooled_shape(t@),
{
    let mut shape: Vec<Option<usize>> = Vec::new();
    match &t.static_shape {
        Some(s) => {
            let mut i: usize = 0;
            while i < s.len()
                invariant
                    0 <= i <= s.len(),
                    shape@.len() == i,
                    forall|j: int| 0 <= j < i ==> shape@[j] == (if j < 2 { s@[j] } else { Some(1usize) }),
                decreases s.len() - i,
            {
                if i < 2 {
                    shape.push(s[i]);
                } else {
                    shape.push(Some(1));
                }
                i = i + 1;
            }
        },
        None => {
            let mut i: usize = 0;
            while i < t.rank
                invariant
                    0 <= i <= t.rank,
                    shape@.len() == i,
                    forall|j: int| 0 <= j < i ==> shape@[j] == (if j < 2 { None } else { Some(1usize) }),
                decreases t.rank - i,
            {
                if i < 2 {
                    shape.push(None);
                } else {
                    shape.push(Some(1));
                }
                i = i + 1;
            }
        },
    }
    assert(shape@ =~= pooled_shape(t@));
    shape
}

} // verus!
