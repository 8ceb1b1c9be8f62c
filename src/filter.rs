use vstd::prelude::*;
use crate::params::BevelParams;
use crate::rect::{abs, expanded, expansion_fits, Rect};
use crate::uniform::{uniform_of, BevelUniform, UNIFORM_SIZE};

verus! {

/// What a slot of the bind group layout holds. Every slot is read by the
/// fragment stage only.
#[derive(Clone, Copy, Debug, PartialEq, Eq, Structural)]
pub enum BindingKind {
    /// A single-sampled 2D float texture that is not filterable.
    UnfilterableTexture2d,
    /// A non-filtering sampler.
    NonFilteringSampler,
    /// A uniform buffer without dynamic offset, of at least this many bytes.
    UniformBuffer { min_size: u64 },
}

#[derive(Clone, Copy, Debug, PartialEq, Eq, Structural)]
pub struct LayoutEntry {
    pub binding: u32,
    pub kind: BindingKind,
}

/// The bind group layout shared by every pipeline of the filter: the source
/// texture, the sampler, the uniform record and the blurred texture.
pub open spec fn bevel_layout() -> Seq<LayoutEntry> {
    seq![
        LayoutEntry { binding: 0, kind: BindingKind::UnfilterableTexture2d },
        LayoutEntry { binding: 1, kind: BindingKind::NonFilteringSampler },
        LayoutEntry { binding: 2, kind: BindingKind::UniformBuffer { min_size: UNIFORM_SIZE as u64 } },
        LayoutEntry { binding: 3, kind: BindingKind::UnfilterableTexture2d },
    ]
}

/// The color formats that a filter source or target can have.
#[derive(Clone, Copy, Debug, PartialEq, Eq, Structural)]
pub enum TextureFormat {
    Rgba8Unorm,
    Rgba8UnormSrgb,
    Bgra8Unorm,
    Bgra8UnormSrgb,
    Rgba16Float,
}

#[derive(Clone, Copy, Debug, PartialEq, Eq, Structural)]
pub enum PrimitiveTopology {
    TriangleList,
    TriangleStrip,
}

/// Which winding makes a triangle front-facing.
#[derive(Clone, Copy, Debug, PartialEq, Eq, Structural)]
pub enum FrontFace {
    Ccw,
    Cw,
}

/// The fixed-function state, target format and multisampling of one render
/// pipeline. Every pipeline of the filter is built from the filter's vertex
/// and fragment entry points and the three-UV vertex layout.
#[derive(Clone, Copy, Debug, PartialEq, Eq, Structural)]
pub struct PipelineDesc {
    pub topology: PrimitiveTopology,
    pub front_face: FrontFace,
    pub target_format: TextureFormat,
    pub sample_count: u32,
    pub sample_mask: u64,
    pub alpha_to_coverage: bool,
    pub culling: bool,
    pub depth_stencil: bool,
}

/// The pipeline that the filter uses for targets with `n` samples a pixel.
pub open spec fn pipeline_for(n: u32) -> PipelineDesc {
    PipelineDesc {
        topology: PrimitiveTopology::TriangleList,
        front_face: FrontFace::Ccw,
        target_format: TextureFormat::Rgba8Unorm,
        sample_count: n,
        sample_mask: u64::MAX,
        alpha_to_coverage: false,
        culling: false,
        depth_stencil: false,
    }
}

/// The sample counts that a pipeline can be built for.
pub open spec fn valid_sample_count(n: u32) -> bool {
    n == 1 || n == 2 || n == 4 || n == 8 || n == 16
}

/// The slot of the pipeline cache that holds sample count `n`.
pub open spec fn slot_of(n: u32) -> int {
    if n == 1 {
        0
    } else if n == 2 {
        1
    } else if n == 4 {
        2
    } else if n == 8 {
        3
    } else {
        4
    }
}

pub const PIPELINE_SLOTS: usize = 5;

pub fn sample_count_slot(n: u32) -> (r: usize)
    requires
        valid_sample_count(n),
    ensures
        r == slot_of(n),
        r < PIPELINE_SLOTS,
{
    if n == 1 {
        0
    } else if n == 2 {
        1
    } else if n == 4 {
        2
    } else if n == 8 {
        3
    } else {
        4
    }
}

/// The source of one pass: its size in pixels, its color format and its
/// samples a pixel. Its texture stays with the caller.
#[derive(Clone, Copy, Debug, PartialEq, Eq, Structural)]
pub struct FilterSource {
    pub width: u32,
    pub height: u32,
    pub format: TextureFormat,
    pub sample_count: u32,
}

/// Which texture a view in the bind group is made from.
#[derive(Clone, Copy, Debug, PartialEq, Eq, Structural)]
pub enum TextureChoice {
    Source,
    BlurOutput,
}

#[derive(Clone, Copy, Debug, PartialEq, Eq, Structural)]
pub enum BindingResource {
    TextureView(TextureChoice),
    /// The shared non-filtering sampler.
    Sampler,
    /// The whole uniform buffer.
    UniformBuffer,
}

#[derive(Clone, Copy, Debug, PartialEq, Eq, Structural)]
pub struct BindGroupEntry {
    pub binding: u32,
    pub resource: BindingResource,
}

/// The bind group of one draw. The blurred input is the blur pass's output
/// where that pass produced one, and the source itself where it did not.
pub open spec fn bind_group_for(blurred: bool) -> Seq<BindGroupEntry> {
    seq![
        BindGroupEntry { binding: 0, resource: BindingResource::TextureView(TextureChoice::Source) },
        BindGroupEntry { binding: 1, resource: BindingResource::Sampler },
        BindGroupEntry { binding: 2, resource: BindingResource::UniformBuffer },
        BindGroupEntry {
            binding: 3,
            resource: BindingResource::TextureView(
                if blurred {
                    TextureChoice::BlurOutput
                } else {
                    TextureChoice::Source
                },
            ),
        },
    ]
}

/// A fresh target from the pool. It is the only color attachment the draw
/// writes, and it passes to the caller afterwards.
#[derive(Clone, Copy, Debug, PartialEq, Eq, Structural)]
pub struct TargetDesc {
    pub width: u32,
    pub height: u32,
    pub format: TextureFormat,
    pub sample_count: u32,
    /// Cleared to transparent black before the draw.
    pub clear_to_transparent: bool,
}

/// Number of `u32` indices drawn: two triangles covering the quad.
pub const QUAD_INDEX_COUNT: u32 = 6;

/// Everything one bevel draw is recorded from.
#[derive(Clone, Debug)]
pub struct BevelDraw {
    pub pipeline: PipelineDesc,
    /// The blur output is cleared, where needed, before it is read.
    pub clear_blur_output: bool,
    pub target: TargetDesc,
    pub uniform: BevelUniform,
    pub bind_group: Vec<BindGroupEntry>,
    pub index_count: u32,
}

/// The bevel filter pass: its bind group layout and the pipelines built so
/// far, at most one for each sample count.
pub struct BevelFilter {
    bind_group_layout: Vec<LayoutEntry>,
    pipelines: Vec<Option<PipelineDesc>>,
}

impl BevelFilter {
    /// The layout holds the four bindings, the cache one slot per sample
    /// count, and each filled slot the pipeline for its own sample count.
    pub closed spec fn wf(&self) -> bool {
        &&& self.bind_group_layout@ == bevel_layout()
        &&& self.pipelines@.len() == PIPELINE_SLOTS
        &&& forall|n: u32|
            valid_sample_count(n) && (#[trigger] self.pipelines@[slot_of(n)]).is_some()
                ==> self.pipelines@[slot_of(n)] == Some(pipeline_for(n))
    }

    /// The pipelines built so far, by sample count.
    pub closed spec fn cache(&self) -> Map<u32, PipelineDesc> {
        Map::new(
            |n: u32| valid_sample_count(n) && self.pipelines@[slot_of(n)].is_some(),
            |n: u32| self.pipelines@[slot_of(n)].unwrap(),
        )
    }

    pub closed spec fn layout(&self) -> Seq<LayoutEntry> {
        self.bind_group_layout@
    }

    /// A filter with its bind group layout and no pipeline built yet.
    pub fn new() -> (r: BevelFilter)
        ensures
            r.wf(),
            r.layout() == bevel_layout(),
            r.cache() == Map::<u32, PipelineDesc>::empty(),
    {
        let mut layout: Vec<LayoutEntry> = Vec::new();
        layout.push(LayoutEntry { binding: 0, kind: BindingKind::UnfilterableTexture2d });
        layout.push(LayoutEntry { binding: 1, kind: BindingKind::NonFilteringSampler });
        layout.push(
            LayoutEntry {
                binding: 2,
                kind: BindingKind::UniformBuffer { min_size: UNIFORM_SIZE as u64 },
            },
        );
        layout.push(LayoutEntry { binding: 3, kind: BindingKind::UnfilterableTexture2d });
        let mut pipelines: Vec<Option<PipelineDesc>> = Vec::new();
        let mut i: usize = 0;
        while i < PIPELINE_SLOTS
            invariant
                i <= PIPELINE_SLOTS,
                pipelines@.len() == i,
                forall|k: int| 0 <= k < i ==> pipelines@[k].is_none(),
            decreases PIPELINE_SLOTS - i,
        {
            pipelines.push(None);
            i = i + 1;
        }
        let r = BevelFilter { bind_group_layout: layout, pipelines };
        assert(r.bind_group_layout@ =~= bevel_layout());
        assert(r.cache() =~= Map::<u32, PipelineDesc>::empty());
        r
    }

    /// The bind group layout, entry by entry.
    pub fn bind_group_layout(&self) -> (r: &Vec<LayoutEntry>)
        ensures
            r@ == self.layout(),
    {
        &self.bind_group_layout
    }

    /// The pipeline for targets with `msaa_sample_count` samples a pixel,
    /// built on first use and returned from the cache after that.
    pub fn pipeline(&mut self, msaa_sample_count: u32) -> (r: PipelineDesc)
        requires
            old(self).wf(),
            valid_sample_count(msaa_sample_count),
        ensures
            final(self).wf(),
            final(self).layout() == old(self).layout(),
            r == pipeline_for(msaa_sample_count),
            final(self).cache() == old(self).cache().insert(msaa_sample_count, r),
            old(self).cache().contains_key(msaa_sample_count) ==> final(self).cache() == old(
                self,
            ).cache(),
    {
        let slot = sample_count_slot(msaa_sample_count);
        match self.pipelines[slot] {
            Some(p) => {
                proof {
                    assert(self.cache().contains_key(msaa_sample_count));
                    assert(self.cache().insert(msaa_sample_count, p) =~= self.cache());
                }
                p
            },
            None => {
                let p = PipelineDesc {
                    topology: PrimitiveTopology::TriangleList,
                    front_face: FrontFace::Ccw,
                    target_format: TextureFormat::Rgba8Unorm,
                    sample_count: msaa_sample_count,
                    sample_mask: u64::MAX,
                    alpha_to_coverage: false,
                    culling: false,
                    depth_stencil: false,
                };
                let ghost before = self.cache();
                self.pipelines.set(slot, Some(p));
                proof {
                    assert forall|n: u32|
                        valid_sample_count(n) && (#[trigger] self.pipelines@[slot_of(n)]).is_some()
                            implies self.pipelines@[slot_of(n)] == Some(pipeline_for(n)) by {
                        if slot_of(n) != slot as int {
                            assert(old(self).pipelines@[slot_of(n)] == self.pipelines@[slot_of(n)]);
                        }
                    }
                    assert(self.cache() =~= before.insert(msaa_sample_count, p));
                }
                p
            },
        }
    }

    /// The pipeline built for `n` samples a pixel, if any.
    pub fn cached_pipeline(&self, n: u32) -> (r: Option<PipelineDesc>)
        requires
            self.wf(),
        ensures
            r == (if self.cache().contains_key(n) {
                Some(self.cache()[n])
            } else {
                None
            }),
    {
        if n == 1 || n == 2 || n == 4 || n == 8 || n == 16 {
            self.pipelines[sample_count_slot(n)]
        } else {
            None
        }
    }

    /// The destination rectangle of the pass: `blurred_rect`, the blur pass's
    /// own destination, grown by `|dx|` on each x side and by `|dy|` on each y
    /// side, where `(dx, dy)` is the band offset rounded up to whole pixels.
    pub fn calculate_dest_rect(&self, blurred_rect: Rect, dx: i32, dy: i32) -> (r: Rect)
        requires
            expansion_fits(blurred_rect, dx as int, dy as int),
        ensures
            r == expanded(blurred_rect, dx as int, dy as int),
    {
        let mut result = blurred_rect;
        if dx < 0 {
            result.x_min = result.x_min + dx;
            result.x_max = result.x_max - dx;
        } else {
            result.x_max = result.x_max + dx;
            result.x_min = result.x_min - dx;
        }
        if dy < 0 {
            result.y_min = result.y_min + dy;
            result.y_max = result.y_max - dy;
        } else {
            result.y_max = result.y_max + dy;
            result.y_min = result.y_min - dy;
        }
        result
    }

    /// Plans the bevel draw over `source` once the blur pass has run;
    /// `blurred` tells whether that pass produced a texture of its own.
    ///
    /// The draw uses the pipeline for the source's sample count, a fresh
    /// transparent target of the source's size, format and samples, the uniform record of
    /// `params`, and six indices.
    pub fn apply(&mut self, source: &FilterSource, params: &BevelParams, blurred: bool) -> (r:
        BevelDraw)
        requires
            old(self).wf(),
            valid_sample_count(source.sample_count),
        ensures
            final(self).wf(),
            final(self).layout() == old(self).layout(),
            final(self).cache() == old(self).cache().insert(
                source.sample_count,
                pipeline_for(source.sample_count),
            ),
            r.pipeline == pipeline_for(source.sample_count),
            r.clear_blur_output == blurred,
            r.target == (TargetDesc {
                width: source.width,
                height: source.height,
                format: source.format,
                sample_count: source.sample_count,
                clear_to_transparent: true,
            }),
            r.uniform == uniform_of(*params),
            r.bind_group@ == bind_group_for(blurred),
            r.index_count == QUAD_INDEX_COUNT,
    {
        let pipeline = self.pipeline(source.sample_count);
        let blurred_view = if blurred {
            TextureChoice::BlurOutput
        } else {
            TextureChoice::Source
        };
        let target = TargetDesc {
            width: source.width,
            height: source.height,
            format: source.format,
            sample_count: source.sample_count,
            clear_to_transparent: true,
        };
        let uniform = BevelUniform::new(params);
        let mut bind_group: Vec<BindGroupEntry> = Vec::new();
        bind_group.push(
            BindGroupEntry {
                binding: 0,
                resource: BindingResource::TextureView(TextureChoice::Source),
            },
        );
        bind_group.push(BindGroupEntry { binding: 1, resource: BindingResource::Sampler });
        bind_group.push(BindGroupEntry { binding: 2, resource: BindingResource::UniformBuffer });
        bind_group.push(
            BindGroupEntry { binding: 3, resource: BindingResource::TextureView(blurred_view) },
        );
        assert(bind_group@ =~= bind_group_for(blurred));
        BevelDraw {
            pipeline,
            clear_blur_output: blurred,
            target,
            uniform,
            bind_group,
            index_count: QUAD_INDEX_COUNT,
        }
    }
}

/// Asking the cache twice for one sample count gives the same pipeline both
/// times, and the second request leaves the cache as the first left it; so
/// any number of requests leave it as one does.
pub proof fn lemma_pipeline_requests_idempotent(
    cache: Map<u32, PipelineDesc>,
    n: u32,
)
    requires
        valid_sample_count(n),
    ensures
        cache.insert(n, pipeline_for(n)).contains_key(n),
        cache.insert(n, pipeline_for(n))[n] == pipeline_for(n),
        cache.insert(n, pipeline_for(n)).insert(n, pipeline_for(n)) == cache.insert(
            n,
            pipeline_for(n),
        ),
{
    assert(cache.insert(n, pipeline_for(n)).insert(n, pipeline_for(n)) =~= cache.insert(
        n,
        pipeline_for(n),
    ));
}

/// Pipelines for different sample counts share the bind group layout, differ
/// in their multisample state, and neither request disturbs the other's entry.
pub proof fn lemma_sample_counts_cached_apart(cache: Map<u32, PipelineDesc>, m: u32, n: u32)
    requires
        valid_sample_count(m),
        valid_sample_count(n),
        m != n,
    ensures
        pipeline_for(m) != pipeline_for(n),
        cache.insert(m, pipeline_for(m)).insert(n, pipeline_for(n))[m] == pipeline_for(m),
        cache.insert(m, pipeline_for(m)).insert(n, pipeline_for(n))[n] == pipeline_for(n),
{
}

/// Without a blur output, the blurred-input slot of the bind group is a view
/// of the source texture.
pub proof fn lemma_no_blur_reads_source()
    ensures
        bind_group_for(false)[3] == (BindGroupEntry {
            binding: 3,
            resource: BindingResource::TextureView(TextureChoice::Source),
        }),
{
}

} // verus!
