//! Quantization schemes of quantized float element types, held as plain
//! values, with the `Debug` text that names them.

use vstd::prelude::*;

use crate::text::{nat_decimal, push_u64_decimal, push_usize_decimal};

verus! {

/// The logical type of quantized values.
#[derive(Debug, Clone, Copy, PartialEq, Eq, Structural)]
pub enum QuantValue {
    Q8F,
    E5M2,
    E4M3,
    Q4F,
    E2M1,
    Q2F,
    Q8S,
    Q4S,
    Q2S,
}

/// How quantized values are stored; a packed store names the dimension it
/// packs along.
#[derive(Debug, Clone, Copy, PartialEq, Eq, Structural)]
pub enum QuantStore {
    Native,
    PackedNative(usize),
    PackedU32(usize),
}

/// The quantization strategy.
#[derive(Debug, Clone, Copy, PartialEq, Eq, Structural)]
pub enum QuantMode {
    Symmetric,
    Lookup,
}

/// The type that a scale level stores its scales in.
#[derive(Debug, Clone, Copy, PartialEq, Eq, Structural)]
pub enum ScaleDtype {
    F32,
    F16,
    BF16,
    UE8M0,
    UE4M3,
}

/// The dimensions of a block of values that share one scale: the first
/// `len` entries of `dims` (see `block_size_wf` for the values it can take).
#[derive(Debug, Clone, Copy, PartialEq, Eq)]
pub struct BlockSize {
    pub dims: [u8; 5],
    pub len: u8,
}

/// A per-block scale level: the block that shares one scale, and the type of
/// its scales.
#[derive(Debug, Clone, Copy, PartialEq, Eq)]
pub struct BlockScale {
    pub size: BlockSize,
    pub dtype: ScaleDtype,
}

/// A quantization scheme: the value type, its store, the mode, and the scale
/// levels it stores (per tensor, per block, both or neither).
#[derive(Debug, Clone, Copy, PartialEq, Eq)]
pub struct QuantScheme {
    pub value: QuantValue,
    pub store: QuantStore,
    pub mode: QuantMode,
    pub tensor: Option<ScaleDtype>,
    pub block: Option<BlockScale>,
}

/// The values a block size takes: at most five dimensions, with no leading
/// dimension of size 1 (such a dimension is implied), and every unused entry
/// set to 1.
pub open spec fn block_size_wf(b: BlockSize) -> bool {
    &&& b.len <= 5
    &&& b.len > 0 ==> b.dims@[0] != 1
    &&& forall|i: int| b.len <= i < 5 ==> b.dims@[i] == 1
}

/// Every block level of the scheme is well formed.
pub open spec fn quant_scheme_wf(s: QuantScheme) -> bool {
    match s.block {
        Some(b) => block_size_wf(b.size),
        None => true,
    }
}

/// The dimensions that a block size holds.
pub open spec fn block_dims(b: BlockSize) -> Seq<u8> {
    b.dims@.take(b.len as int)
}

pub open spec fn quant_value_text(v: QuantValue) -> Seq<char> {
    match v {
        QuantValue::Q8F => "Q8F"@,
        QuantValue::E5M2 => "E5M2"@,
        QuantValue::E4M3 => "E4M3"@,
        QuantValue::Q4F => "Q4F"@,
        QuantValue::E2M1 => "E2M1"@,
        QuantValue::Q2F => "Q2F"@,
        QuantValue::Q8S => "Q8S"@,
        QuantValue::Q4S => "Q4S"@,
        QuantValue::Q2S => "Q2S"@,
    }
}

pub open spec fn quant_store_text(s: QuantStore) -> Seq<char> {
    match s {
        QuantStore::Native => "Native"@,
        QuantStore::PackedNative(d) => "PackedNative("@ + nat_decimal(d as nat) + ")"@,
        QuantStore::PackedU32(d) => "PackedU32("@ + nat_decimal(d as nat) + ")"@,
    }
}

pub open spec fn quant_mode_text(m: QuantMode) -> Seq<char> {
    match m {
        QuantMode::Symmetric => "Symmetric"@,
        QuantMode::Lookup => "Lookup"@,
    }
}

pub open spec fn scale_dtype_text(d: ScaleDtype) -> Seq<char> {
    match d {
        ScaleDtype::F32 => "F32"@,
        ScaleDtype::F16 => "F16"@,
        ScaleDtype::BF16 => "BF16"@,
        ScaleDtype::UE8M0 => "UE8M0"@,
        ScaleDtype::UE4M3 => "UE4M3"@,
    }
}

/// The decimal texts of the bytes, separated by `", "`.
pub open spec fn bytes_text(s: Seq<u8>) -> Seq<char>
    decreases s.len(),
{
    if s.len() == 0 {
        Seq::empty()
    } else if s.len() == 1 {
        nat_decimal(s[0] as nat)
    } else {
        bytes_text(s.drop_last()) + ", "@ + nat_decimal(s.last() as nat)
    }
}

/// The `Debug` text of a block size, as in `BlockSize([32])`.
pub open spec fn block_size_text(b: BlockSize) -> Seq<char> {
    "BlockSize(["@ + bytes_text(block_dims(b)) + "])"@
}

pub open spec fn block_scale_text(b: BlockScale) -> Seq<char> {
    "BlockScale { size: "@ + block_size_text(b.size) + ", dtype: "@ + scale_dtype_text(b.dtype)
        + " }"@
}

pub open spec fn opt_scale_dtype_text(d: Option<ScaleDtype>) -> Seq<char> {
    match d {
        Some(d) => "Some("@ + scale_dtype_text(d) + ")"@,
        None => "None"@,
    }
}

pub open spec fn opt_block_scale_text(b: Option<BlockScale>) -> Seq<char> {
    match b {
        Some(b) => "Some("@ + block_scale_text(b) + ")"@,
        None => "None"@,
    }
}

/// The `Debug` text of a quantization scheme, as in
/// `QuantScheme { value: Q8F, store: PackedU32(0), mode: Symmetric, tensor: None, block: None }`.
pub open spec fn quant_scheme_text(s: QuantScheme) -> Seq<char> {
    "QuantScheme { value: "@ + quant_value_text(s.value) + ", store: "@ + quant_store_text(s.store)
        + ", mode: "@ + quant_mode_text(s.mode) + ", tensor: "@ + opt_scale_dtype_text(s.tensor)
        + ", block: "@ + opt_block_scale_text(s.block) + " }"@
}

impl QuantValue {
    pub fn push_text(&self, out: &mut String)
        ensures
            final(out)@ == old(out)@ + quant_value_text(*self),
    {
        match self {
            QuantValue::Q8F => out.append("Q8F"),
            QuantValue::E5M2 => out.append("E5M2"),
            QuantValue::E4M3 => out.append("E4M3"),
            QuantValue::Q4F => out.append("Q4F"),
            QuantValue::E2M1 => out.append("E2M1"),
            QuantValue::Q2F => out.append("Q2F"),
            QuantValue::Q8S => out.append("Q8S"),
            QuantValue::Q4S => out.append("Q4S"),
            QuantValue::Q2S => out.append("Q2S"),
        }
    }
}

impl QuantStore {
    pub fn push_text(&self, out: &mut String)
        ensures
            final(out)@ == old(out)@ + quant_store_text(*self),
    {
        match self {
            QuantStore::Native => out.append("Native"),
            QuantStore::PackedNative(d) => {
                out.append("PackedNative(");
                push_usize_decimal(out, *d);
                out.append(")");
                assert(final(out)@ =~= old(out)@ + quant_store_text(*self));
            },
            QuantStore::PackedU32(d) => {
                out.append("PackedU32(");
                push_usize_decimal(out, *d);
                out.append(")");
                assert(final(out)@ =~= old(out)@ + quant_store_text(*self));
            },
        }
    }
}

impl QuantMode {
    pub fn push_text(&self, out: &mut String)
        ensures
            final(out)@ == old(out)@ + quant_mode_text(*self),
    {
        match self {
            QuantMode::Symmetric => out.append("Symmetric"),
            QuantMode::Lookup => out.append("Lookup"),
        }
    }
}

impl ScaleDtype {
    pub fn push_text(&self, out: &mut String)
        ensures
            final(out)@ == old(out)@ + scale_dtype_text(*self),
    {
        match self {
            ScaleDtype::F32 => out.append("F32"),
            ScaleDtype::F16 => out.append("F16"),
            ScaleDtype::BF16 => out.append("BF16"),
            ScaleDtype::UE8M0 => out.append("UE8M0"),
            ScaleDtype::UE4M3 => out.append("UE4M3"),
        }
    }
}

impl BlockSize {
    /// Appends the `Debug` text of this block size to `out`.
    pub fn push_text(&self, out: &mut String)
        requires
            block_size_wf(*self),
        ensures
            final(out)@ == old(out)@ + block_size_text(*self),
    {
        out.append("BlockSize([");
        let ghost start = out@;
        let ghost dims = block_dims(*self);
        let n: usize = self.len as usize;
        assert(dims.len() == n);
        let mut i: usize = 0;
        while i < n
            invariant
                0 <= i <= n,
                n <= 5,
                dims == block_dims(*self),
                dims.len() == n,
                forall|j: int| 0 <= j < n ==> dims[j] == self.dims@[j],
                out@ == start + bytes_text(dims.take(i as int)),
            decreases n - i,
        {
            if i > 0 {
                out.append(", ");
            }
            push_u64_decimal(out, self.dims[i] as u64);
            proof {
                let t = dims.take(i + 1);
                assert(t.drop_last() =~= dims.take(i as int));
                assert(t.last() == dims[i as int]);
                if i == 0 {
                    assert(bytes_text(dims.take(0)) =~= Seq::<char>::empty());
                }
                assert(out@ =~= start + bytes_text(t));
            }
            i = i + 1;
        }
        assert(dims.take(n as int) =~= dims);
        out.append("])");
        assert(final(out)@ =~= old(out)@ + block_size_text(*self));
    }
}

impl BlockScale {
    pub fn push_text(&self, out: &mut String)
        requires
            block_size_wf(self.size),
        ensures
            final(out)@ == old(out)@ + block_scale_text(*self),
    {
        out.append("BlockScale { size: ");
        self.size.push_text(out);
        out.append(", dtype: ");
        self.dtype.push_text(out);
        out.append(" }");
        assert(final(out)@ =~= old(out)@ + block_scale_text(*self));
    }
}

fn push_opt_scale_dtype_text(out: &mut String, d: Option<ScaleDtype>)
    ensures
        final(out)@ == old(out)@ + opt_scale_dtype_text(d),
{
    match d {
        Some(d) => {
            out.append("Some(");
            d.push_text(out);
            out.append(")");
            assert(final(out)@ =~= old(out)@ + opt_scale_dtype_text(Some(d)));
        },
        None => out.append("None"),
    }
}

fn push_opt_block_scale_text(out: &mut String, b: Option<BlockScale>)
    requires
        b matches Some(bs) ==> block_size_wf(bs.size),
    ensures
        final(out)@ == old(out)@ + opt_block_scale_text(b),
{
    match b {
        Some(b) => {
            out.append("Some(");
            b.push_text(out);
            out.append(")");
            assert(final(out)@ =~= old(out)@ + opt_block_scale_text(Some(b)));
        },
        None => out.append("None"),
    }
}

impl QuantScheme {
    /// Appends the `Debug` text of this scheme to `out`.
    pub fn push_text(&self, out: &mut String)
        requires
            quant_scheme_wf(*self),
        ensures
            final(out)@ == old(out)@ + quant_scheme_text(*self),
    {
        out.append("QuantScheme { value: ");
        self.value.push_text(out);
        out.append(", store: ");
        self.store.push_text(out);
        out.append(", mode: ");
        self.mode.push_text(out);
        out.append(", tensor: ");
        push_opt_scale_dtype_text(out, self.tensor);
        out.append(", block: ");
        push_opt_block_scale_text(out, self.block);
        out.append(" }");
        assert(final(out)@ =~= old(out)@ + quant_scheme_text(*self));
    }
}

} // verus!
