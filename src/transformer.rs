//! Transformer model configuration, weight bundles and layers.

use vstd::prelude::*;
use crate::error::CoreError;
use crate::gpu::{GpuDevice, GpuTensor};
use crate::tensor::Tensor;

verus! {

/// Dimensions and constants of a transformer model. The two real-valued
/// settings are kept as IEEE-754 single-precision bit patterns.
#[derive(Debug, Clone, Copy)]
pub struct TransformerConfig {
    /// Hidden size.
    pub d_model: usize,
    /// Number of attention heads.
    pub n_heads: usize,
    /// Number of layers.
    pub n_layers: usize,
    /// Feed-forward size.
    pub d_ff: usize,
    /// Vocabulary size.
    pub vocab_size: usize,
    /// Longest sequence.
    pub max_seq_len: usize,
    /// Dropout rate (unused at inference), as `f32` bits.
    pub dropout_bits: u32,
    /// Layer-norm epsilon, as `f32` bits.
    pub layer_norm_eps_bits: u32,
}

/// `f32` bit pattern of 0.1.
pub const TINY_DROPOUT_BITS: u32 = 0x3DCC_CCCD;

/// `f32` bit pattern of 1e-5.
pub const TINY_LAYER_NORM_EPS_BITS: u32 = 0x3727_C5AC;

/// Bytes of one layer's weights: four projections, two feed-forward
/// matrices and two layer norms, in `f32`.
pub open spec fn layer_size(c: TransformerConfig) -> nat {
    ((4 * c.d_model * c.d_model + 2 * c.d_model * c.d_ff + 4 * c.d_model) * 4) as nat
}

/// Bytes of the embedding table and all layers, in `f32`.
pub open spec fn model_size(c: TransformerConfig) -> nat {
    (c.vocab_size * c.d_model * 4 + layer_size(c) * c.n_layers) as nat
}

impl TransformerConfig {
    /// The tiny configuration: 512 wide, 8 heads, 6 layers, 2048 feed-forward,
    /// 32000 tokens, sequences up to 512.
    pub fn tiny() -> (r: Self)
        ensures
            r.d_model == 512 && r.n_heads == 8 && r.n_layers == 6 && r.d_ff == 2048,
            r.vocab_size == 32000 && r.max_seq_len == 512,
            r.dropout_bits == TINY_DROPOUT_BITS,
            r.layer_norm_eps_bits == TINY_LAYER_NORM_EPS_BITS,
    {
        TransformerConfig {
            d_model: 512,
            n_heads: 8,
            n_layers: 6,
            d_ff: 2048,
            vocab_size: 32000,
            max_seq_len: 512,
            dropout_bits: TINY_DROPOUT_BITS,
            layer_norm_eps_bits: TINY_LAYER_NORM_EPS_BITS,
        }
    }

    /// Estimated size of the model's weights in bytes.
    pub fn estimate_size(&self) -> (r: usize)
        requires
            layer_size(*self) <= usize::MAX,
            model_size(*self) <= usize::MAX,
        ensures
            r == model_size(*self),
    {
        let ghost v = self.vocab_size as int;
        let ghost d = self.d_model as int;
        let ghost f = self.d_ff as int;
        let ghost n = self.n_layers as int;
        let ghost m = usize::MAX as int;
        proof {
            assert(v * d <= v * d * 4 <= m) by (nonlinear_arith)
                requires
                    v >= 0,
                    d >= 0,
                    f >= 0,
                    n >= 0,
                    v * d * 4 + ((4 * d * d + 2 * d * f + 4 * d) * 4) * n <= m,
                    (4 * d * d + 2 * d * f + 4 * d) * 4 <= m,
            ;
            assert(2 * d <= 4 * d <= m && 4 * d * d <= m && 2 * d * f <= m && 4 * d * d + 2 * d
                * f + 4 * d <= m) by (nonlinear_arith)
                requires
                    d >= 0,
                    f >= 0,
                    (4 * d * d + 2 * d * f + 4 * d) * 4 <= m,
            ;
            assert(((4 * d * d + 2 * d * f + 4 * d) * 4) * n <= m) by (nonlinear_arith)
                requires
                    v >= 0,
                    d >= 0,
                    f >= 0,
                    n >= 0,
                    v * d * 4 + ((4 * d * d + 2 * d * f + 4 * d) * 4) * n <= m,
            ;
        }
        let embedding_size = self.vocab_size * self.d_model * 4;
        let per_layer_size = (4 * self.d_model * self.d_model + 2 * self.d_model * self.d_ff + 4
            * self.d_model) * 4;
        embedding_size + per_layer_size * self.n_layers
    }
}

/// Attention projections, each `[d_model, d_model]`.
#[derive(Debug, Clone)]
pub struct AttentionWeights {
    /// Query projection.
    pub wq: Tensor,
    /// Key projection.
    pub wk: Tensor,
    /// Value projection.
    pub wv: Tensor,
    /// Output projection.
    pub wo: Tensor,
}

/// Feed-forward weights.
#[derive(Debug, Clone)]
pub struct FeedForwardWeights {
    /// First linear layer, `[d_model, d_ff]`.
    pub w1: Tensor,
    /// Second linear layer, `[d_ff, d_model]`.
    pub w2: Tensor,
}

/// Layer-norm parameters, each `[d_model]`.
#[derive(Debug, Clone)]
pub struct LayerNormWeights {
    /// Scale.
    pub gamma: Tensor,
    /// Bias.
    pub beta: Tensor,
}

/// All weights of one transformer layer.
#[derive(Debug, Clone)]
pub struct TransformerLayerWeights {
    /// Attention projections.
    pub attention: AttentionWeights,
    /// Feed-forward weights.
    pub feed_forward: FeedForwardWeights,
    /// Layer norm before attention.
    pub ln1: LayerNormWeights,
    /// Layer norm before the feed-forward block.
    pub ln2: LayerNormWeights,
}

/// One transformer layer with its weights.
pub struct TransformerLayer {
    config: TransformerConfig,
    #[allow(dead_code)]
    weights: TransformerLayerWeights,
}

impl TransformerLayer {
    /// A layer with the given configuration and weights.
    pub fn new(config: TransformerConfig, weights: TransformerLayerWeights) -> (r: Self)
        ensures
            r.layer_config() == config,
    {
        TransformerLayer { config, weights }
    }

    /// The configuration the layer was built with.
    pub closed spec fn layer_config(&self) -> TransformerConfig {
        self.config
    }

    /// Forward pass on the host; the layer's numerics are the identity here,
    /// so the input comes back unchanged.
    pub fn forward_cpu(&self, input: &Tensor) -> (r: Result<Tensor, CoreError>)
        ensures
            r matches Ok(t) && t.shape@ == input.shape@ && t.dtype == input.dtype && t.data@
                == input.data@,
    {
        Ok(input.clone())
    }

    /// Forward pass on a device; the layer's numerics are the identity here,
    /// so a handle to the input comes back.
    pub fn forward_gpu<D: GpuDevice>(&self, input: &GpuTensor, device: &D) -> (r: Result<
        GpuTensor,
        CoreError,
    >)
        ensures
            r matches Ok(g) && g.mirrors(input),
    {
        Ok(input.clone())
    }

    /// The configuration the layer was built with.
    pub fn config(&self) -> (r: &TransformerConfig)
        ensures
            *r == self.layer_config(),
    {
        &self.config
    }
}

/// A complete model: configuration, embeddings, layers and final norm.
pub struct TransformerModel {
    /// Configuration.
    pub config: TransformerConfig,
    /// Token embeddings, `[vocab_size, d_model]`.
    pub token_embedding: Tensor,
    /// Position embeddings, `[max_seq_len, d_model]`.
    pub position_embedding: Tensor,
    /// Layer weights, in order.
    pub layers: Vec<TransformerLayerWeights>,
    /// Final layer norm.
    pub final_layer_norm: LayerNormWeights,
}

impl TransformerModel {
    /// A model from its parts.
    pub fn new(
        config: TransformerConfig,
        token_embedding: Tensor,
        position_embedding: Tensor,
        layers: Vec<TransformerLayerWeights>,
        final_layer_norm: LayerNormWeights,
    ) -> (r: Self)
        ensures
            r.config == config,
            r.token_embedding == token_embedding,
            r.position_embedding == position_embedding,
            r.layers == layers,
            r.final_layer_norm == final_layer_norm,
    {
        TransformerModel { config, token_embedding, position_embedding, layers, final_layer_norm }
    }
}

} // verus!
