//! A bevel filter pass: the parameter model, uniform packing, destination
//! rectangle expansion and the per-sample-count pipeline cache, with their
//! contracts proved.

mod color;
mod filter;
mod params;
mod rect;
mod uniform;

pub use color::{premultiplied_of, premultiply, PremultipliedColor, Rgba, CHANNEL_MAX, PREMULTIPLIED_DENOMINATOR};
pub use filter::{
    bevel_layout, bind_group_for, lemma_no_blur_reads_source, lemma_pipeline_requests_idempotent,
    lemma_sample_counts_cached_apart, pipeline_for, sample_count_slot, slot_of,
    valid_sample_count, BevelDraw, BevelFilter, BindGroupEntry, BindingKind, BindingResource,
    FilterSource, FrontFace, LayoutEntry, PipelineDesc, PrimitiveTopology, TargetDesc,
    TextureChoice, TextureFormat, PIPELINE_SLOTS,
    QUAD_INDEX_COUNT,
};
pub use params::{mode_of_flags, BevelMode, BevelParams};
pub use rect::{abs, can_expand, contains, expanded, expansion_fits, lemma_expansion_contains, Rect};
pub use uniform::{
    bevel_type_code, bevel_type_of, byte_of, bytes_of_words, pow256, flag_code, lemma_transparent_colors_premultiply_to_zero,
    lemma_uniform_layout, uniform_of, uniform_words, BevelUniform, UniformFloatBits,
    BEVEL_TYPE_OFFSET, COMPOSITE_SOURCE_OFFSET, HIGHLIGHT_COLOR_OFFSET, KNOCKOUT_OFFSET,
    SHADOW_COLOR_OFFSET, STRENGTH_OFFSET, UNIFORM_SIZE,
};
