use burn_tensor::quantization as bq;
use global_lp_pool::ir::{ArgType, BoolStore, DType, TensorType};
use global_lp_pool::quant::{BlockScale, BlockSize, QuantMode, QuantScheme, QuantStore, QuantValue, ScaleDtype};
use global_lp_pool::text::{push_i64_decimal, push_u64_decimal, push_usize_decimal};

fn text_of(d: DType) -> String {
    let mut s = String::new();
    d.push_text(&mut s);
    s
}

#[test]
fn decimal_text_matches_display() {
    for n in [0u64, 7, 10, 99, 100, 12345, u64::MAX] {
        let mut s = String::from("n=");
        push_u64_decimal(&mut s, n);
        assert_eq!(s, format!("n={}", n));
    }
    for i in [0i64, 5, -5, 10, -10, i64::MAX, i64::MIN] {
        let mut s = String::new();
        push_i64_decimal(&mut s, i);
        assert_eq!(s, i.to_string());
    }
    let mut s = String::new();
    push_usize_decimal(&mut s, 4096);
    assert_eq!(s, "4096");
}

#[test]
fn dtype_texts_match_burn() {
    let pairs = [
        (DType::F64, burn_tensor::DType::F64),
        (DType::F32, burn_tensor::DType::F32),
        (DType::Flex32, burn_tensor::DType::Flex32),
        (DType::F16, burn_tensor::DType::F16),
        (DType::BF16, burn_tensor::DType::BF16),
        (DType::I64, burn_tensor::DType::I64),
        (DType::I8, burn_tensor::DType::I8),
        (DType::U64, burn_tensor::DType::U64),
        (DType::U16, burn_tensor::DType::U16),
        (DType::Bool(BoolStore::Native), burn_tensor::DType::Bool(burn_tensor::BoolStore::Native)),
        (DType::Bool(BoolStore::U32), burn_tensor::DType::Bool(burn_tensor::BoolStore::U32)),
    ];
    for (ours, burn) in pairs {
        assert_eq!(text_of(ours), format!("{:?}", burn));
    }
}

#[test]
fn quantized_dtype_texts_match_burn() {
    let default = QuantScheme {
        value: QuantValue::Q8F,
        store: QuantStore::PackedU32(0),
        mode: QuantMode::Symmetric,
        tensor: None,
        block: None,
    };
    assert_eq!(
        text_of(DType::QFloat(default)),
        format!("{:?}", burn_tensor::DType::QFloat(bq::QuantScheme::default()))
    );

    let two_level = QuantScheme {
        tensor: Some(ScaleDtype::F32),
        block: Some(BlockScale {
            size: BlockSize { dims: [16, 1, 1, 1, 1], len: 1 },
            dtype: ScaleDtype::UE4M3,
        }),
        ..default
    };
    let burn_two_level = bq::QuantScheme::default()
        .per_block([16], bq::ScaleDtype::UE4M3)
        .per_tensor(bq::ScaleDtype::F32);
    assert_eq!(
        text_of(DType::QFloat(two_level)),
        format!("{:?}", burn_tensor::DType::QFloat(burn_two_level))
    );

    let blocky = QuantScheme {
        value: QuantValue::E2M1,
        store: QuantStore::PackedNative(1),
        mode: QuantMode::Lookup,
        tensor: Some(ScaleDtype::BF16),
        block: Some(BlockScale {
            size: BlockSize { dims: [4, 32, 8, 1, 1], len: 3 },
            dtype: ScaleDtype::UE8M0,
        }),
    };
    let burn_blocky = bq::QuantScheme::default()
        .with_value(bq::QuantValue::E2M1)
        .with_store(bq::QuantStore::PackedNative(1))
        .with_mode(bq::QuantMode::Lookup)
        .per_tensor(bq::ScaleDtype::BF16)
        .per_block([4, 32, 8], bq::ScaleDtype::UE8M0);
    assert_eq!(
        text_of(DType::QFloat(blocky)),
        format!("{:?}", burn_tensor::DType::QFloat(burn_blocky))
    );
    assert_eq!(
        text_of(DType::QFloat(blocky)),
        "QFloat(QuantScheme { value: E2M1, store: PackedNative(1), mode: Lookup, tensor: Some(BF16), \
         block: Some(BlockScale { size: BlockSize([4, 32, 8]), dtype: UE8M0 }) })"
    );
}

#[test]
fn arg_type_texts_match_debug() {
    let types = [
        ArgType::Scalar(DType::F16),
        ArgType::Shape(3),
        ArgType::Tensor(TensorType { dtype: DType::F32, rank: 3, static_shape: None }),
        ArgType::Tensor(TensorType { dtype: DType::I64, rank: 3, static_shape: Some(vec![Some(2), None, Some(1)]) }),
        ArgType::Tensor(TensorType { dtype: DType::I64, rank: 0, static_shape: Some(vec![]) }),
        ArgType::Tensor(TensorType { dtype: DType::Bool(BoolStore::Native), rank: 1, static_shape: Some(vec![Some(10)]) }),
    ];
    for t in types {
        let mut s = String::new();
        t.push_text(&mut s);
        assert_eq!(s, format!("{:?}", t));
    }
}
