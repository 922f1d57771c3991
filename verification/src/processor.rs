//! What a node processor declares of the nodes it accepts, and the check of a
//! raw node against that declaration.

use vstd::prelude::*;

use crate::ir::{ProcessError, ProcessErrorView, RawNode};

verus! {

/// How many inputs an operator takes.
#[derive(Debug, Clone, Copy, PartialEq, Eq, Structural)]
pub enum InputSpec {
    Exact(usize),
    AtLeast(usize),
    Range(usize, usize),
}

/// How many outputs an operator produces.
#[derive(Debug, Clone, Copy, PartialEq, Eq, Structural)]
pub enum OutputSpec {
    Exact(usize),
    AtLeast(usize),
    Range(usize, usize),
}

/// The opset versions and argument counts that an operator accepts.
#[derive(Debug, Clone, Copy, PartialEq, Eq, Structural)]
pub struct NodeSpec {
    pub min_opset: usize,
    pub max_opset: Option<usize>,
    pub inputs: InputSpec,
    pub outputs: OutputSpec,
}

/// Preferences of later stages about the types of a node's outputs. No
/// preference is expressed by an empty value.
#[derive(Debug, Clone, Copy, PartialEq, Eq, Structural)]
pub struct OutputPreferences {}

impl OutputPreferences {
    pub fn new() -> (r: Self)
        ensures
            r == (OutputPreferences {}),
    {
        OutputPreferences {  }
    }
}

/// The error for `count` inputs under `spec`, if the count is refused.
pub open spec fn input_count_error(spec: InputSpec, count: nat) -> Option<ProcessErrorView> {
    match spec {
        InputSpec::Exact(n) => if count != n {
            Some(ProcessErrorView::InvalidInputCount { expected: n, actual: count as usize })
        } else {
            None
        },
        InputSpec::AtLeast(n) => if count < n {
            Some(ProcessErrorView::InvalidInputCount { expected: n, actual: count as usize })
        } else {
            None
        },
        InputSpec::Range(lo, hi) => if count < lo || count > hi {
            Some(ProcessErrorView::InvalidInputCount { expected: lo, actual: count as usize })
        } else {
            None
        },
    }
}

/// The error for `count` outputs under `spec`, if the count is refused.
pub open spec fn output_count_error(spec: OutputSpec, count: nat) -> Option<ProcessErrorView> {
    match spec {
        OutputSpec::Exact(n) => if count != n {
            Some(ProcessErrorView::InvalidOutputCount { expected: n, actual: count as usize })
        } else {
            None
        },
        OutputSpec::AtLeast(n) => if count < n {
            Some(ProcessErrorView::InvalidOutputCount { expected: n, actual: count as usize })
        } else {
            None
        },
        OutputSpec::Range(lo, hi) => if count < lo || count > hi {
            Some(ProcessErrorView::InvalidOutputCount { expected: lo, actual: count as usize })
        } else {
            None
        },
    }
}

/// The outcome of checking a node with `num_inputs` inputs and `num_outputs`
/// outputs at opset `opset` against `spec`: the opset first, then the inputs,
/// then the outputs.
pub open spec fn spec_validation(spec: NodeSpec, opset: usize, num_inputs: nat, num_outputs: nat) -> Result<
    (),
    ProcessErrorView,
> {
    if opset < spec.min_opset {
        Err(ProcessErrorView::UnsupportedOpset { required: spec.min_opset, actual: opset })
    } else if spec.max_opset is Some && opset > spec.max_opset->0 {
        Err(ProcessErrorView::UnsupportedOpset { required: spec.max_opset->0, actual: opset })
    } else if input_count_error(spec.inputs, num_inputs) is Some {
        Err(input_count_error(spec.inputs, num_inputs)->0)
    } else if output_count_error(spec.outputs, num_outputs) is Some {
        Err(output_count_error(spec.outputs, num_outputs)->0)
    } else {
        Ok(())
    }
}

/// The view of a result that carries no value.
pub open spec fn unit_result_view(r: Result<(), ProcessError>) -> Result<(), ProcessErrorView> {
    match r {
        Ok(()) => Ok(()),
        Err(e) => Err(e@),
    }
}

fn check_input_count(spec: InputSpec, count: usize) -> (r: Result<(), ProcessError>)
    ensures
        match input_count_error(spec, count as nat) {
            Some(e) => r is Err && r->Err_0@ == e,
            None => r is Ok,
        },
{
    match spec {
        InputSpec::Exact(n) => if count != n {
            return Err(ProcessError::InvalidInputCount { expected: n, actual: count });
        },
        InputSpec::AtLeast(n) => if count < n {
            return Err(ProcessError::InvalidInputCount { expected: n, actual: count });
        },
        InputSpec::Range(lo, hi) => if count < lo || count > hi {
            return Err(ProcessError::InvalidInputCount { expected: lo, actual: count });
        },
    }
    Ok(())
}

fn check_output_count(spec: OutputSpec, count: usize) -> (r: Result<(), ProcessError>)
    ensures
        match output_count_error(spec, count as nat) {
            Some(e) => r is Err && r->Err_0@ == e,
            None => r is Ok,
        },
{
    match spec {
        OutputSpec::Exact(n) => if count != n {
            return Err(ProcessError::InvalidOutputCount { expected: n, actual: count });
        },
        OutputSpec::AtLeast(n) => if count < n {
            return Err(ProcessError::InvalidOutputCount { expected: n, actual: count });
        },
        OutputSpec::Range(lo, hi) => if count < lo || count > hi {
            return Err(ProcessError::InvalidOutputCount { expected: lo, actual: count });
        },
    }
    Ok(())
}

/// Checks `node` at opset `opset` against what `spec` accepts.
pub fn validate_node_spec(node: &RawNode, opset: usize, spec: &NodeSpec) -> (r: Result<
    (),
    ProcessError,
>)
    ensures
        unit_result_view(r) == spec_validation(
            *spec,
            opset,
            node.inputs@.len(),
            node.outputs@.len(),
        ),
{
    if opset < spec.min_opset {
        return Err(ProcessError::UnsupportedOpset { required: spec.min_opset, actual: opset });
    }
    if let Some(max) = spec.max_opset {
        if opset > max {
            return Err(ProcessError::UnsupportedOpset { required: max, actual: opset });
        }
    }
    check_input_count(spec.inputs, node.inputs.len())?;
    check_output_count(spec.outputs, node.outputs.len())?;
    Ok(())
}

} // verus!
