# global_lp_pool

Verified processing of the ONNX `GlobalLpPool` operator.

- `src/ir.rs`: element types, argument types, arguments, attributes, raw
  nodes and processing errors, each with a view, and the `Debug` texts that
  error messages quote.
- `src/quant.rs`: quantization schemes of quantized float types, held as
  plain values, with their `Debug` text.
- `src/processor.rs`: what an operator declares it accepts, and the check of
  a raw node against it.
- `src/global_lp_pool.rs`: the operator's configuration, typed node and
  processor (declaration, type inference, configuration, node building).
- `src/codegen.rs`: the forward pass of a typed node, as a reduction plan.
- `src/laws.rs`: properties that span these operations.
- `src/text.rs`: decimal rendering of integers.
- `app/lib.rs`: conversion from and to `burn_tensor` element types and
  quantization schemes, and the
  Rust tokens of the forward pass.
