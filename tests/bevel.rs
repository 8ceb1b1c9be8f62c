use bevel_filter::{
    bevel_type_of, can_expand, premultiply, sample_count_slot, BevelFilter, BevelMode, BevelParams,
    BevelUniform, BindGroupEntry, BindingKind, BindingResource, FilterSource, FrontFace,
    LayoutEntry, PipelineDesc, PrimitiveTopology, Rect, Rgba, TargetDesc, TextureChoice,
    TextureFormat, UniformFloatBits, BEVEL_TYPE_OFFSET, COMPOSITE_SOURCE_OFFSET,
    HIGHLIGHT_COLOR_OFFSET, KNOCKOUT_OFFSET, PREMULTIPLIED_DENOMINATOR, QUAD_INDEX_COUNT,
    SHADOW_COLOR_OFFSET, STRENGTH_OFFSET, UNIFORM_SIZE,
};

fn rgba(r: u8, g: u8, b: u8, a: u8) -> Rgba {
    Rgba { r, g, b, a }
}

fn params(highlight: Rgba, shadow: Rgba, mode: BevelMode, knockout: bool) -> BevelParams {
    BevelParams {
        distance: 2 << 16,
        angle: 0,
        strength: 1 << 8,
        highlight_color: highlight,
        shadow_color: shadow,
        mode,
        knockout,
    }
}

fn unit(n: u32) -> f32 {
    n as f32 / PREMULTIPLIED_DENOMINATOR as f32
}

/// An 8x8 canvas as the blur pass leaves it when it does not grow the rectangle.
fn canvas() -> Rect {
    Rect { x_min: 0, x_max: 8, y_min: 0, y_max: 8 }
}

fn source(sample_count: u32) -> FilterSource {
    FilterSource { width: 8, height: 8, format: TextureFormat::Bgra8Unorm, sample_count }
}

fn zero_bits() -> UniformFloatBits {
    UniformFloatBits { highlight_color: [0; 4], shadow_color: [0; 4], strength: 0 }
}

#[test]
fn transparent_colors_premultiply_to_zero() {
    let mut f = BevelFilter::new();
    let p = params(rgba(200, 100, 50, 0), rgba(1, 2, 3, 0), BevelMode::Outer, false);
    let d = f.apply(&source(1), &p, true);
    let zero = premultiply(rgba(0, 0, 0, 0));
    assert_eq!(d.uniform.highlight_color, zero);
    assert_eq!(d.uniform.shadow_color, zero);
    assert_eq!((zero.r, zero.g, zero.b, zero.a), (0, 0, 0, 0));
}

#[test]
fn premultiply_scales_by_alpha() {
    let c = premultiply(rgba(255, 10, 0, 255));
    assert_eq!((c.r, c.g, c.b, c.a), (65025, 2550, 0, 65025));
    let h = premultiply(rgba(255, 0, 0, 128));
    assert_eq!((h.r, h.g, h.b, h.a), (32640, 0, 0, 32640));
}

#[test]
fn uniform_is_48_bytes_in_field_order() {
    let p = params(rgba(255, 255, 255, 255), rgba(0, 0, 0, 255), BevelMode::Full, true);
    let u = BevelUniform::new(&p);
    let bits = UniformFloatBits {
        highlight_color: [1, 2, 3, 4],
        shadow_color: [5, 6, 7, 8],
        strength: 9,
    };
    let words = u.words(&bits);
    assert_eq!(words, vec![1, 2, 3, 4, 5, 6, 7, 8, 9, 2, 1, 1]);
    assert_eq!(UNIFORM_SIZE, 48);
    assert_eq!(
        (HIGHLIGHT_COLOR_OFFSET, SHADOW_COLOR_OFFSET, STRENGTH_OFFSET),
        (0, 16, 32)
    );
    assert_eq!((BEVEL_TYPE_OFFSET, KNOCKOUT_OFFSET, COMPOSITE_SOURCE_OFFSET), (36, 40, 44));
    let bytes = u.to_bytes(&bits);
    assert_eq!(bytes.len(), 48);
    let expected: Vec<u8> = words.iter().flat_map(|w| w.to_ne_bytes()).collect();
    assert_eq!(bytes, expected);
    let little: Vec<u8> = words.iter().flat_map(|w| w.to_le_bytes()).collect();
    let big: Vec<u8> = words.iter().flat_map(|w| w.to_be_bytes()).collect();
    assert!(bytes == little || bytes == big);
    assert_ne!(bytes, vec![0u8; 48]);
    let at = |o: usize| u32::from_ne_bytes([bytes[o], bytes[o + 1], bytes[o + 2], bytes[o + 3]]);
    assert_eq!(at(STRENGTH_OFFSET), 9);
    assert_eq!(at(BEVEL_TYPE_OFFSET), 2);
    assert_eq!(at(KNOCKOUT_OFFSET), 1);
    assert_eq!(at(COMPOSITE_SOURCE_OFFSET), 1);
}

#[test]
fn dest_rect_grows_by_offset_magnitude() {
    let f = BevelFilter::new();
    let r = Rect { x_min: -3, x_max: 11, y_min: 2, y_max: 6 };
    for (dx, dy) in [(4, -7), (-4, 7), (0, 0), (-1, -1)] {
        let d = f.calculate_dest_rect(r, dx, dy);
        assert_eq!(d.x_min, r.x_min - dx.abs());
        assert_eq!(d.x_max, r.x_max + dx.abs());
        assert_eq!(d.y_min, r.y_min - dy.abs());
        assert_eq!(d.y_max, r.y_max + dy.abs());
    }
}

#[test]
fn dest_rect_at_i32_limits() {
    let f = BevelFilter::new();
    let r = Rect { x_min: i32::MIN + 5, x_max: i32::MAX - 5, y_min: 0, y_max: 0 };
    let d = f.calculate_dest_rect(r, -5, 0);
    assert_eq!(d, Rect { x_min: i32::MIN, x_max: i32::MAX, y_min: 0, y_max: 0 });
}

#[test]
fn pipeline_requests_return_the_same_pipeline() {
    let mut f = BevelFilter::new();
    assert_eq!(f.cached_pipeline(4), None);
    let first = f.pipeline(4);
    let second = f.pipeline(4);
    assert_eq!(first, second);
    assert_eq!(f.cached_pipeline(4), Some(first));
}

#[test]
fn pipeline_cache_idempotent() {
    let mut once = BevelFilter::new();
    once.pipeline(2);
    let mut many = BevelFilter::new();
    for _ in 0..10 {
        many.pipeline(2);
    }
    for n in [1, 2, 4, 8, 16, 3] {
        assert_eq!(once.cached_pipeline(n), many.cached_pipeline(n));
    }
}

#[test]
fn pipeline_state() {
    let mut f = BevelFilter::new();
    let p = f.pipeline(8);
    assert_eq!(
        p,
        PipelineDesc {
            topology: PrimitiveTopology::TriangleList,
            front_face: FrontFace::Ccw,
            target_format: TextureFormat::Rgba8Unorm,
            sample_count: 8,
            sample_mask: u64::MAX,
            alpha_to_coverage: false,
            culling: false,
            depth_stencil: false,
        }
    );
}

#[test]
fn bind_group_layout_entries() {
    let f = BevelFilter::new();
    assert_eq!(
        f.bind_group_layout().clone(),
        vec![
            LayoutEntry { binding: 0, kind: BindingKind::UnfilterableTexture2d },
            LayoutEntry { binding: 1, kind: BindingKind::NonFilteringSampler },
            LayoutEntry { binding: 2, kind: BindingKind::UniformBuffer { min_size: 48 } },
            LayoutEntry { binding: 3, kind: BindingKind::UnfilterableTexture2d },
        ]
    );
}

#[test]
fn no_blur_reads_source() {
    let mut f = BevelFilter::new();
    let p = params(rgba(255, 255, 255, 255), rgba(0, 0, 0, 255), BevelMode::Outer, false);
    let d = f.apply(&source(1), &p, false);
    assert!(!d.clear_blur_output);
    assert_eq!(
        d.bind_group[3],
        BindGroupEntry { binding: 3, resource: BindingResource::TextureView(TextureChoice::Source) }
    );
    let b = f.apply(&source(1), &p, true);
    assert!(b.clear_blur_output);
    assert_eq!(
        b.bind_group[3].resource,
        BindingResource::TextureView(TextureChoice::BlurOutput)
    );
    assert_eq!(b.bind_group[0].resource, BindingResource::TextureView(TextureChoice::Source));
    assert_eq!(b.bind_group[1].resource, BindingResource::Sampler);
    assert_eq!(b.bind_group[2].resource, BindingResource::UniformBuffer);
}

#[test]
fn outer_without_knockout() {
    let mut f = BevelFilter::new();
    let p = params(rgba(255, 255, 255, 255), rgba(0, 0, 0, 255), BevelMode::Outer, false);
    // distance 2 at angle 0: the offset rounds up to (2, 0)
    let d = f.calculate_dest_rect(canvas(), 2, 0);
    assert_eq!(d, Rect { x_min: -2, x_max: 10, y_min: 0, y_max: 8 });
    let draw = f.apply(&source(1), &p, true);
    let u = draw.uniform;
    assert_eq!((u.bevel_type, u.knockout, u.composite_source), (0, 0, 1));
    let h = u.highlight_color;
    assert_eq!((unit(h.r), unit(h.g), unit(h.b), unit(h.a)), (1.0, 1.0, 1.0, 1.0));
    let s = u.shadow_color;
    assert_eq!((unit(s.r), unit(s.g), unit(s.b), unit(s.a)), (0.0, 0.0, 0.0, 1.0));
    assert_eq!(draw.index_count, QUAD_INDEX_COUNT);
    assert_eq!(draw.target, TargetDesc {
            width: 8,
            height: 8,
            format: TextureFormat::Bgra8Unorm,
            sample_count: 1,
            clear_to_transparent: true,
        });
}

#[test]
fn inner_knockout() {
    let mut f = BevelFilter::new();
    let mut p = params(rgba(255, 0, 0, 128), rgba(0, 0, 255, 128), BevelMode::Inner, true);
    p.distance = 3 << 16;
    p.strength = 2 << 8;
    let u = f.apply(&source(1), &p, true).uniform;
    assert_eq!((u.bevel_type, u.knockout, u.composite_source), (1, 1, 1));
    assert_eq!(u.strength, 512);
    let a = 128.0f32 / 255.0;
    let close = |x: f32, y: f32| (x - y).abs() < 1e-6;
    let h = u.highlight_color;
    // a full channel at alpha 128 premultiplies to 1 * 128/255
    assert!(close(unit(h.r), 1.0 * a) && unit(h.g) == 0.0 && unit(h.b) == 0.0 && close(unit(h.a), a));
    let s = u.shadow_color;
    assert!(unit(s.r) == 0.0 && unit(s.g) == 0.0 && close(unit(s.b), 1.0 * a) && close(unit(s.a), a));
    // distance 3 at a quarter turn: the offset rounds up to (0, 3)
    let d = f.calculate_dest_rect(canvas(), 0, 3);
    assert_eq!(d, Rect { x_min: 0, x_max: 8, y_min: -3, y_max: 11 });
}

#[test]
fn full_bevel_zero_distance() {
    let mut f = BevelFilter::new();
    let mut p = params(rgba(255, 255, 255, 255), rgba(0, 0, 0, 255), BevelMode::Full, false);
    p.distance = 0;
    p.angle = 12345;
    assert_eq!(f.calculate_dest_rect(canvas(), 0, 0), canvas());
    assert_eq!(f.apply(&source(1), &p, false).uniform.bevel_type, 2);
}

#[test]
fn half_turn_distance_five() {
    let f = BevelFilter::new();
    let d = f.calculate_dest_rect(canvas(), -5, 0);
    assert_eq!(d, Rect { x_min: -5, x_max: 13, y_min: 0, y_max: 8 });
}

#[test]
fn sample_counts_cached_apart() {
    let mut f = BevelFilter::new();
    let layout = f.bind_group_layout().clone();
    let one = f.pipeline(1);
    let four = f.pipeline(4);
    assert_eq!(one.sample_count, 1);
    assert_eq!(four.sample_count, 4);
    assert_ne!(one, four);
    assert_eq!(f.pipeline(1), one);
    assert_eq!(f.pipeline(4), four);
    assert_eq!(f.cached_pipeline(1), Some(one));
    assert_eq!(f.cached_pipeline(4), Some(four));
    assert_eq!(f.cached_pipeline(2), None);
    assert_eq!(f.bind_group_layout().clone(), layout);
}

#[test]
fn mode_codes() {
    assert_eq!(bevel_type_of(BevelMode::Outer), 0);
    assert_eq!(bevel_type_of(BevelMode::Inner), 1);
    assert_eq!(bevel_type_of(BevelMode::Full), 2);
    assert_eq!(BevelMode::from_flags(true, true), BevelMode::Full);
    assert_eq!(BevelMode::from_flags(true, false), BevelMode::Full);
    assert_eq!(BevelMode::from_flags(false, true), BevelMode::Inner);
    assert_eq!(BevelMode::from_flags(false, false), BevelMode::Outer);
}

#[test]
fn sample_count_slots() {
    let slots: Vec<usize> = [1, 2, 4, 8, 16].iter().map(|n| sample_count_slot(*n)).collect();
    assert_eq!(slots, vec![0, 1, 2, 3, 4]);
}

#[test]
fn words_of_zero_bits() {
    let p = params(rgba(0, 0, 0, 0), rgba(0, 0, 0, 0), BevelMode::Inner, false);
    let u = BevelUniform::new(&p);
    assert_eq!(u.words(&zero_bits()), vec![0, 0, 0, 0, 0, 0, 0, 0, 0, 1, 0, 1]);
}

#[test]
fn expansion_bounds() {
    let r = Rect { x_min: i32::MIN + 5, x_max: i32::MAX - 5, y_min: 0, y_max: 0 };
    assert!(can_expand(r, -5, 0));
    assert!(can_expand(r, 5, i32::MAX));
    assert!(!can_expand(r, 6, 0));
    assert!(!can_expand(r, 0, i32::MIN));
}
