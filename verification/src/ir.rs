//! The intermediate representation that node processors read and write:
//! element types, argument types, arguments, attributes, raw nodes and the
//! errors that processing reports, each with a mathematical view.

use vstd::prelude::*;

use crate::quant::{quant_scheme_text, quant_scheme_wf, QuantScheme};
use crate::text::{nat_decimal, push_usize_decimal};

verus! {

/// How a boolean tensor is stored.
#[derive(Debug, Clone, Copy, PartialEq, Eq, Structural)]
pub enum BoolStore {
    Native,
    U8,
    U32,
}

/// The element type of a tensor or a scalar; a quantized float type carries
/// its quantization scheme.
#[derive(Debug, Clone, Copy, PartialEq, Eq)]
pub enum DType {
    F64,
    F32,
    Flex32,
    F16,
    BF16,
    I64,
    I32,
    I16,
    I8,
    U64,
    U32,
    U16,
    U8,
    Bool(BoolStore),
    QFloat(QuantScheme),
}

/// The `Debug` text of a `BoolStore`.
pub open spec fn bool_store_text(s: BoolStore) -> Seq<char> {
    match s {
        BoolStore::Native => "Native"@,
        BoolStore::U8 => "U8"@,
        BoolStore::U32 => "U32"@,
    }
}

/// An element type that can occur: a quantized type's scheme is well formed.
pub open spec fn dtype_wf(d: DType) -> bool {
    match d {
        DType::QFloat(q) => quant_scheme_wf(q),
        _ => true,
    }
}

/// The `Debug` text of a `DType`, as in `F32` or `Bool(Native)`.
pub open spec fn dtype_text(d: DType) -> Seq<char> {
    match d {
        DType::F64 => "F64"@,
        DType::F32 => "F32"@,
        DType::Flex32 => "Flex32"@,
        DType::F16 => "F16"@,
        DType::BF16 => "BF16"@,
        DType::I64 => "I64"@,
        DType::I32 => "I32"@,
        DType::I16 => "I16"@,
        DType::I8 => "I8"@,
        DType::U64 => "U64"@,
        DType::U32 => "U32"@,
        DType::U16 => "U16"@,
        DType::U8 => "U8"@,
        DType::Bool(s) => "Bool("@ + bool_store_text(s) + ")"@,
        DType::QFloat(q) => "QFloat("@ + quant_scheme_text(q) + ")"@,
    }
}

impl BoolStore {
    /// Appends the `Debug` text of this store to `out`.
    pub fn push_text(&self, out: &mut String)
        ensures
            final(out)@ == old(out)@ + bool_store_text(*self),
    {
        match self {
            BoolStore::Native => out.append("Native"),
            BoolStore::U8 => out.append("U8"),
            BoolStore::U32 => out.append("U32"),
        }
    }
}

impl DType {
    /// Appends the `Debug` text of this element type to `out`.
    pub fn push_text(&self, out: &mut String)
        requires
            dtype_wf(*self),
        ensures
            final(out)@ == old(out)@ + dtype_text(*self),
    {
        match self {
            DType::F64 => out.append("F64"),
            DType::F32 => out.append("F32"),
            DType::Flex32 => out.append("Flex32"),
            DType::F16 => out.append("F16"),
            DType::BF16 => out.append("BF16"),
            DType::I64 => out.append("I64"),
            DType::I32 => out.append("I32"),
            DType::I16 => out.append("I16"),
            DType::I8 => out.append("I8"),
            DType::U64 => out.append("U64"),
            DType::U32 => out.append("U32"),
            DType::U16 => out.append("U16"),
            DType::U8 => out.append("U8"),
            DType::Bool(s) => {
                out.append("Bool(");
                s.push_text(out);
                out.append(")");
                assert(final(out)@ =~= old(out)@ + dtype_text(*self));
            },
            DType::QFloat(q) => {
                out.append("QFloat(");
                q.push_text(out);
                out.append(")");
                assert(final(out)@ =~= old(out)@ + dtype_text(*self));
            },
        }
    }
}

/// The type of a tensor: its element type, its rank and, where known, the
/// size of each of its dimensions.
#[derive(Debug, Clone, PartialEq)]
pub struct TensorType {
    pub dtype: DType,
    pub rank: usize,
    pub static_shape: Option<Vec<Option<usize>>>,
}

#[verifier::ext_equal]
pub struct TensorTypeView {
    pub dtype: DType,
    pub rank: usize,
    pub static_shape: Option<Seq<Option<usize>>>,
}

impl View for TensorType {
    type V = TensorTypeView;

    open spec fn view(&self) -> TensorTypeView {
        TensorTypeView {
            dtype: self.dtype,
            rank: self.rank,
            static_shape: match self.static_shape {
                Some(s) => Some(s@),
                None => None,
            },
        }
    }
}

/// The type of an argument of a node.
#[derive(Debug, Clone, PartialEq)]
pub enum ArgType {
    Scalar(DType),
    Shape(usize),
    Tensor(TensorType),
}

#[verifier::ext_equal]
pub enum ArgTypeView {
    Scalar(DType),
    Shape(usize),
    Tensor(TensorTypeView),
}

impl View for ArgType {
    type V = ArgTypeView;

    open spec fn view(&self) -> ArgTypeView {
        match self {
            ArgType::Scalar(d) => ArgTypeView::Scalar(*d),
            ArgType::Shape(n) => ArgTypeView::Shape(*n),
            ArgType::Tensor(t) => ArgTypeView::Tensor(t@),
        }
    }
}

/// An argument type that can occur: its element type can occur.
pub open spec fn arg_type_wf(t: ArgTypeView) -> bool {
    match t {
        ArgTypeView::Scalar(d) => dtype_wf(d),
        ArgTypeView::Shape(_) => true,
        ArgTypeView::Tensor(tt) => dtype_wf(tt.dtype),
    }
}

/// The `Debug` text of one known or unknown dimension size.
pub open spec fn dim_text(d: Option<usize>) -> Seq<char> {
    match d {
        Some(n) => "Some("@ + nat_decimal(n as nat) + ")"@,
        None => "None"@,
    }
}

/// The `Debug` texts of the dimension sizes, separated by `", "`.
pub open spec fn dims_text(s: Seq<Option<usize>>) -> Seq<char>
    decreases s.len(),
{
    if s.len() == 0 {
        Seq::empty()
    } else if s.len() == 1 {
        dim_text(s[0])
    } else {
        dims_text(s.drop_last()) + ", "@ + dim_text(s.last())
    }
}

/// The `Debug` text of an optional static shape.
pub open spec fn static_shape_text(s: Option<Seq<Option<usize>>>) -> Seq<char> {
    match s {
        Some(dims) => "Some(["@ + dims_text(dims) + "])"@,
        None => "None"@,
    }
}

/// The `Debug` text of a tensor type.
pub open spec fn tensor_type_text(t: TensorTypeView) -> Seq<char> {
    "TensorType { dtype: "@ + dtype_text(t.dtype) + ", rank: "@ + nat_decimal(t.rank as nat)
        + ", static_shape: "@ + static_shape_text(t.static_shape) + " }"@
}

/// The `Debug` text of an argument type, as in `Scalar(F32)` or `Shape(3)`.
pub open spec fn arg_type_text(t: ArgTypeView) -> Seq<char> {
    match t {
        ArgTypeView::Scalar(d) => "Scalar("@ + dtype_text(d) + ")"@,
        ArgTypeView::Shape(n) => "Shape("@ + nat_decimal(n as nat) + ")"@,
        ArgTypeView::Tensor(tt) => "Tensor("@ + tensor_type_text(tt) + ")"@,
    }
}

fn push_dim_text(out: &mut String, d: Option<usize>)
    ensures
        final(out)@ == old(out)@ + dim_text(d),
{
    match d {
        Some(n) => {
            out.append("Some(");
            push_usize_decimal(out, n);
            out.append(")");
            assert(final(out)@ =~= old(out)@ + dim_text(d));
        },
        None => out.append("None"),
    }
}

impl TensorType {
    /// Appends the `Debug` text of this tensor type to `out`.
    pub fn push_text(&self, out: &mut String)
        requires
            dtype_wf(self.dtype),
        ensures
            final(out)@ == old(out)@ + tensor_type_text(self@),
    {
        out.append("TensorType { dtype: ");
        self.dtype.push_text(out);
        out.append(", rank: ");
        push_usize_decimal(out, self.rank);
        out.append(", static_shape: ");
        let ghost before_shape = out@;
        match &self.static_shape {
            Some(dims) => {
                out.append("Some([");
                let ghost start = out@;
                let mut i: usize = 0;
                while i < dims.len()
                    invariant
                        0 <= i <= dims.len(),
                        out@ == start + dims_text(dims@.take(i as int)),
                    decreases dims.len() - i,
                {
                    let ghost prev = out@;
                    if i > 0 {
                        out.append(", ");
                    }
                    push_dim_text(out, dims[i]);
                    proof {
                        let t = dims@.take(i + 1);
                        assert(t.drop_last() =~= dims@.take(i as int));
                        assert(t.last() == dims@[i as int]);
                        if i == 0 {
                            assert(dims_text(dims@.take(0)) =~= Seq::<char>::empty());
                            assert(out@ =~= start + dims_text(t));
                        } else {
                            assert(out@ =~= start + dims_text(t));
                        }
                    }
                    i = i + 1;
                }
                assert(dims@.take(dims@.len() as int) =~= dims@);
                out.append("])");
                assert(out@ =~= before_shape + static_shape_text(self@.static_shape));
            },
            None => {
                out.append("None");
            },
        }
        out.append(" }");
        assert(final(out)@ =~= old(out)@ + tensor_type_text(self@));
    }
}

impl ArgType {
    /// Appends the `Debug` text of this argument type to `out`.
    pub fn push_text(&self, out: &mut String)
        requires
            arg_type_wf(self@),
        ensures
            final(out)@ == old(out)@ + arg_type_text(self@),
    {
        match self {
            ArgType::Scalar(d) => {
                out.append("Scalar(");
                d.push_text(out);
                out.append(")");
            },
            ArgType::Shape(n) => {
                out.append("Shape(");
                push_usize_decimal(out, *n);
                out.append(")");
            },
            ArgType::Tensor(t) => {
                out.append("Tensor(");
                t.push_text(out);
                out.append(")");
            },
        }
        assert(final(out)@ =~= old(out)@ + arg_type_text(self@));
    }
}

/// A named input or output of a node.
#[derive(Debug, Clone, PartialEq)]
pub struct Argument {
    pub name: String,
    pub ty: ArgType,
}

#[verifier::ext_equal]
pub struct ArgumentView {
    pub name: Seq<char>,
    pub ty: ArgTypeView,
}

impl View for Argument {
    type V = ArgumentView;

    open spec fn view(&self) -> ArgumentView {
        ArgumentView { name: self.name@, ty: self.ty@ }
    }
}

/// The value of a node attribute.
#[derive(Debug, Clone, PartialEq)]
pub enum AttributeValue {
    Int64(i64),
    Int64s(Vec<i64>),
    String(String),
    Strings(Vec<String>),
}

#[verifier::ext_equal]
pub enum AttributeValueView {
    Int64(i64),
    Int64s(Seq<i64>),
    String(Seq<char>),
    Strings(Seq<Seq<char>>),
}

impl View for AttributeValue {
    type V = AttributeValueView;

    open spec fn view(&self) -> AttributeValueView {
        match self {
            AttributeValue::Int64(v) => AttributeValueView::Int64(*v),
            AttributeValue::Int64s(v) => AttributeValueView::Int64s(v@),
            AttributeValue::String(s) => AttributeValueView::String(s@),
            AttributeValue::Strings(v) => AttributeValueView::Strings(
                v@.map_values(|s: String| s@),
            ),
        }
    }
}

/// A node as read from an ONNX graph, before its operator's processor has
/// turned it into a typed node. Its attributes are looked up by name; the
/// processors take nodes in which no two attributes share a name
/// (`attr_names_unique`).
#[derive(Debug, Clone, PartialEq)]
pub struct RawNode {
    pub name: String,
    pub inputs: Vec<Argument>,
    pub outputs: Vec<Argument>,
    pub attrs: Vec<(String, AttributeValue)>,
}

#[verifier::ext_equal]
pub struct RawNodeView {
    pub name: Seq<char>,
    pub inputs: Seq<ArgumentView>,
    pub outputs: Seq<ArgumentView>,
    pub attrs: Seq<(Seq<char>, AttributeValueView)>,
}

/// The views of a sequence of arguments.
pub open spec fn args_view(args: Seq<Argument>) -> Seq<ArgumentView> {
    args.map_values(|a: Argument| a@)
}

impl View for RawNode {
    type V = RawNodeView;

    open spec fn view(&self) -> RawNodeView {
        RawNodeView {
            name: self.name@,
            inputs: args_view(self.inputs@),
            outputs: args_view(self.outputs@),
            attrs: self.attrs@.map_values(|e: (String, AttributeValue)| (e.0@, e.1@)),
        }
    }
}

/// The value of the first attribute named `key`, if there is one.
pub open spec fn attr_lookup(attrs: Seq<(Seq<char>, AttributeValueView)>, key: Seq<char>) -> Option<
    AttributeValueView,
>
    decreases attrs.len(),
{
    if attrs.len() == 0 {
        None
    } else if attrs[0].0 == key {
        Some(attrs[0].1)
    } else {
        attr_lookup(attrs.drop_first(), key)
    }
}

proof fn lemma_attr_lookup_prefix(attrs: Seq<(Seq<char>, AttributeValueView)>, key: Seq<char>, i: int)
    requires
        0 <= i < attrs.len(),
        forall|j: int| 0 <= j < i ==> attrs[j].0 != key,
    ensures
        attr_lookup(attrs, key) == attr_lookup(attrs.subrange(i, attrs.len() as int), key),
    decreases i,
{
    if i > 0 {
        let rest = attrs.drop_first();
        assert forall|j: int| 0 <= j < i - 1 implies rest[j].0 != key by {
            assert(rest[j] == attrs[j + 1]);
        }
        lemma_attr_lookup_prefix(rest, key, i - 1);
        assert(rest.subrange(i - 1, rest.len() as int) =~= attrs.subrange(i, attrs.len() as int));
    } else {
        assert(attrs.subrange(0, attrs.len() as int) =~= attrs);
    }
}

proof fn lemma_attr_lookup_absent(attrs: Seq<(Seq<char>, AttributeValueView)>, key: Seq<char>)
    requires
        forall|j: int| 0 <= j < attrs.len() ==> attrs[j].0 != key,
    ensures
        attr_lookup(attrs, key) is None,
    decreases attrs.len(),
{
    if attrs.len() > 0 {
        let rest = attrs.drop_first();
        assert forall|j: int| 0 <= j < rest.len() implies rest[j].0 != key by {
            assert(rest[j] == attrs[j + 1]);
        }
        lemma_attr_lookup_absent(rest, key);
    }
}

/// No two attributes share a name, as in a graph read from ONNX.
pub open spec fn attr_names_unique(attrs: Seq<(Seq<char>, AttributeValueView)>) -> bool {
    forall|i: int, j: int| 0 <= i < j < attrs.len() ==> attrs[i].0 != attrs[j].0
}

/// Where no two attributes share a name, looking up a name gives the value of
/// whichever attribute carries it: taking the first match loses nothing.
pub proof fn lemma_unique_names_lookup(attrs: Seq<(Seq<char>, AttributeValueView)>, i: int)
    requires
        attr_names_unique(attrs),
        0 <= i < attrs.len(),
    ensures
        attr_lookup(attrs, attrs[i].0) == Some(attrs[i].1),
{
    lemma_attr_lookup_prefix(attrs, attrs[i].0, i);
    let rest = attrs.subrange(i, attrs.len() as int);
    assert(rest[0] == attrs[i]);
}

impl RawNode {
    /// The first attribute named `key`, if the node has one.
    pub fn attr(&self, key: &String) -> (r: Option<&AttributeValue>)
        ensures
            match r {
                Some(v) => attr_lookup(self@.attrs, key@) == Some(v@),
                None => attr_lookup(self@.attrs, key@) is None,
            },
    {
        let ghost attrs = self@.attrs;
        let mut i: usize = 0;
        while i < self.attrs.len()
            invariant
                0 <= i <= self.attrs.len(),
                attrs == self@.attrs,
                attrs.len() == self.attrs@.len(),
                forall|j: int| 0 <= j < i ==> attrs[j].0 != key@,
            decreases self.attrs.len() - i,
        {
            let entry = &self.attrs[i];
            assert(attrs[i as int] == (entry.0@, entry.1@));
            if entry.0 == *key {
                proof {
                    lemma_attr_lookup_prefix(attrs, key@, i as int);
                    let rest = attrs.subrange(i as int, attrs.len() as int);
                    assert(rest[0] == attrs[i as int]);
                }
                return Some(&entry.1);
            }
            i = i + 1;
        }
        proof {
            lemma_attr_lookup_absent(attrs, key@);
        }
        None
    }
}

/// What processing a node reports when the node does not fit its operator.
#[derive(Debug, Clone, PartialEq)]
pub enum ProcessError {
    UnsupportedOpset { required: usize, actual: usize },
    MissingInput(String),
    InvalidInputCount { expected: usize, actual: usize },
    InvalidOutputCount { expected: usize, actual: usize },
    TypeMismatch { expected: String, actual: String },
    Custom(String),
}

#[verifier::ext_equal]
pub enum ProcessErrorView {
    UnsupportedOpset { required: usize, actual: usize },
    MissingInput(Seq<char>),
    InvalidInputCount { expected: usize, actual: usize },
    InvalidOutputCount { expected: usize, actual: usize },
    TypeMismatch { expected: Seq<char>, actual: Seq<char> },
    Custom(Seq<char>),
}

impl View for ProcessError {
    type V = ProcessErrorView;

    open spec fn view(&self) -> ProcessErrorView {
        match self {
            ProcessError::UnsupportedOpset { required, actual } => ProcessErrorView::UnsupportedOpset {
                required: *required,
                actual: *actual,
            },
            ProcessError::MissingInput(m) => ProcessErrorView::MissingInput(m@),
            ProcessError::InvalidInputCount { expected, actual } =>
                ProcessErrorView::InvalidInputCount { expected: *expected, actual: *actual },
            ProcessError::InvalidOutputCount { expected, actual } =>
                ProcessErrorView::InvalidOutputCount { expected: *expected, actual: *actual },
            ProcessError::TypeMismatch { expected, actual } => ProcessErrorView::TypeMismatch {
                expected: expected@,
                actual: actual@,
            },
            ProcessError::Custom(m) => ProcessErrorView::Custom(m@),
        }
    }
}

} // verus!
