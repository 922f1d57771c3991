//! What the forward pass of a `GlobalLpPool` node computes, decided from the
//! node: the reduction over every spatial axis that gives the Lp norm of each
//! `[N, C]` slice, or the compile error that a non-tensor input calls for.
//!
//! For an input `x` of rank `r`, the forward pass reduces axes `2..r`, keeping
//! each as size 1, so that the output is `[N, C, 1, 1, ...]`:
//! - `p == 1`: the sum of `|x|`;
//! - `p == 2`: the square root of the sum of `x²`;
//! - otherwise: the sum of `|x|^p`, raised to `1/p`.
//!
//! The absolute value is taken for odd `p` only: an even power already
//! discards the sign.

use vstd::prelude::*;

use crate::global_lp_pool::GlobalLpPoolNode;
use crate::ir::{ArgType, ArgTypeView, Argument};

verus! {

/// The reduction that turns the (possibly absolute) input into the norm.
#[derive(Debug, Clone, Copy, PartialEq, Eq, Structural)]
pub enum LpReduction {
    /// The sum over the spatial axes.
    Sum,
    /// The square root of the sum of squares over the spatial axes.
    SquareSumSqrt,
    /// The sum of the `p`-th powers over the spatial axes, raised to `1/p`.
    PowSumRoot(i64),
}

/// The forward pass of a `GlobalLpPool` node.
#[derive(Debug, Clone, PartialEq)]
pub enum LpPoolForward {
    /// Take the absolute value of the input where `abs` holds, then reduce
    /// over the axes `dims`, keeping each as size 1.
    Reduce { abs: bool, reduction: LpReduction, dims: Vec<isize> },
    /// Emit a compile error with this message.
    CompileError(String),
}

#[verifier::ext_equal]
pub enum LpPoolForwardView {
    Reduce { abs: bool, reduction: LpReduction, dims: Seq<isize> },
    CompileError(Seq<char>),
}

impl View for LpPoolForward {
    type V = LpPoolForwardView;

    open spec fn view(&self) -> LpPoolForwardView {
        match self {
            LpPoolForward::Reduce { abs, reduction, dims } => LpPoolForwardView::Reduce {
                abs: *abs,
                reduction: *reduction,
                dims: dims@,
            },
            LpPoolForward::CompileError(m) => LpPoolForwardView::CompileError(m@),
        }
    }
}

/// The spatial axes of a tensor of rank `rank` (at least 3):
/// `2, 3, ..., rank - 1`.
pub open spec fn spatial_dims(rank: usize) -> Seq<isize> {
    Seq::new((rank - 2) as nat, |i: int| (i + 2) as isize)
}

/// The reduction for the norm of order `p`.
pub open spec fn lp_reduction(p: i64) -> LpReduction {
    if p == 1 {
        LpReduction::Sum
    } else if p == 2 {
        LpReduction::SquareSumSqrt
    } else {
        LpReduction::PowSumRoot(p)
    }
}

/// The message of the compile error for a node whose input is no tensor.
pub open spec fn non_tensor_error_text(name: Seq<char>) -> Seq<char> {
    "GlobalLpPool node '"@ + name + "': input must be a tensor"@
}

/// The forward pass of a node named `name` whose first input has type
/// `input` and whose norm has order `p`.
pub open spec fn spec_forward(name: Seq<char>, input: ArgTypeView, p: i64) -> LpPoolForwardView {
    match input {
        ArgTypeView::Tensor(t) => LpPoolForwardView::Reduce {
            abs: p % 2 != 0,
            reduction: lp_reduction(p),
            dims: spatial_dims(t.rank),
        },
        _ => LpPoolForwardView::CompileError(non_tensor_error_text(name)),
    }
}

/// The forward pass can be planned: the node has an input and an output, and
/// where its input is a tensor, `p` is positive and the rank is at least 3,
/// so that there is at least one spatial axis to reduce.
pub open spec fn forward_plannable(node: GlobalLpPoolNode) -> bool {
    &&& node.inputs.len() > 0
    &&& node.outputs.len() > 0
    &&& (node.inputs@[0].ty is Tensor ==> {
        &&& node.config.p > 0
        &&& node.inputs@[0].ty->Tensor_0.rank >= 3
    })
}

impl GlobalLpPoolNode {
    /// The node's inputs.
    pub fn inputs(&self) -> (r: &[Argument])
        ensures
            r@ == self.inputs@,
    {
        self.inputs.as_slice()
    }

    /// The node's outputs.
    pub fn outputs(&self) -> (r: &[Argument])
        ensures
            r@ == self.outputs@,
    {
        self.outputs.as_slice()
    }

    /// The forward pass of the node.
    pub fn forward(&self) -> (r: LpPoolForward)
        requires
            forward_plannable(*self),
        ensures
            r@ == spec_forward(self.name@, self.inputs@[0].ty@, self.config.p),
    {
        let p = self.config.p;
        let rank = match &self.inputs[0].ty {
            ArgType::Tensor(t) => t.rank,
            _ => {
                let mut msg = String::from_str("GlobalLpPool node '");
                msg.append(self.name.as_str());
                msg.append("': input must be a tensor");
                return LpPoolForward::CompileError(msg);
            },
        };
        let mut dims: Vec<isize> = Vec::new();
        let mut i: usize = 2;
        while i < rank
            invariant
                2 <= i <= rank,
                dims@.len() == i - 2,
                forall|j: int| 0 <= j < i - 2 ==> dims@[j] == (j + 2) as isize,
            decreases rank - i,
        {
            dims.push(i as isize);
            i = i + 1;
        }
        assert(dims@ =~= spatial_dims(rank));
        let abs = p % 2 != 0;
        let reduction = if p == 1 {
            LpReduction::Sum
        } else if p == 2 {
            LpReduction::SquareSumSqrt
        } else {
            LpReduction::PowSumRoot(p)
        };
        LpPoolForward::Reduce { abs, reduction, dims }
    }
}

} // verus!
