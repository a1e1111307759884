use lumi2d::cache::{FontCache, ImageCache, SvgCache, SvgCacheEntry, SvgQuery, SvgWithSurface};
use lumi2d::renderer_data::{ConcreteRendererData, PlaceholderRendererData, RendererData};
use lumi2d::window::WindowId;

fn surface(width: u32, height: u32, window: u64) -> SvgWithSurface<u8, u8> {
    SvgWithSurface { dom: 0, surface: 0, width, height, associate_window: WindowId::Winit(window) }
}

#[test]
fn first_font_becomes_default_without_flag() {
    // Registering A then B with neither flagged default leaves A as default.
    let mut fonts: FontCache<u32> = FontCache::new();
    fonts.register_font(1, "a");
    fonts.register_font(2, "b");
    assert_eq!(fonts.get_font(None).copied(), Some(1));
    assert_eq!(fonts.get_font(Some("b")).copied(), Some(2));
    // An unregistered alias falls back to the default.
    assert_eq!(fonts.get_font(Some("missing")).copied(), Some(1));
}

#[test]
fn explicit_default_always_replaces() {
    // Registering A as default then B as default leaves B as default,
    // despite A being registered first.
    let mut fonts: FontCache<u32> = FontCache::new();
    fonts.register_default_font(1, "a");
    fonts.register_default_font(2, "b");
    assert_eq!(fonts.get_font(None).copied(), Some(2));

    // A plain registration after an explicit default does not move it.
    fonts.register_font(3, "c");
    assert_eq!(fonts.get_font(None).copied(), Some(2));
}

#[test]
fn empty_font_cache_has_no_default() {
    let fonts: FontCache<u32> = FontCache::new();
    assert_eq!(fonts.get_font(None), None);
    assert_eq!(fonts.get_font(Some("a")), None);
}

#[test]
fn image_cache_loads_and_unloads() {
    let mut images: ImageCache<u32> = ImageCache::new();
    assert_eq!(images.get_image(1), None);
    images.load_image(1, 100);
    images.load_image(2, 200);
    assert_eq!(images.get_image(1).copied(), Some(100));
    images.load_image(1, 101);
    assert_eq!(images.get_image(1).copied(), Some(101));
    images.unload_image(1);
    assert_eq!(images.get_image(1), None);
    assert_eq!(images.get_image(2).copied(), Some(200));
}

#[test]
fn svg_same_size_hits_new_size_rerasterizes() {
    // Drawing the same identity twice at (100, 100) reuses the cached
    // surface; drawing it afterward at (200, 200) records the new size.
    let mut svgs: SvgCache<u8, u8> = SvgCache::new();
    assert_eq!(svgs.query(9, 100, 100), SvgQuery::NeedsParse);
    svgs.load_svg(9, 0);
    assert_eq!(svgs.query(9, 100, 100), SvgQuery::NeedsRasterize);
    svgs.record_rasterized(9, surface(100, 100, 1));
    assert_eq!(svgs.query(9, 100, 100), SvgQuery::Hit);
    // Same size again: still a hit, no re-rasterization asked for.
    assert_eq!(svgs.query(9, 100, 100), SvgQuery::Hit);
    // A different size must re-rasterize.
    assert_eq!(svgs.query(9, 200, 200), SvgQuery::NeedsRasterize);
    svgs.record_rasterized(9, surface(200, 200, 1));
    assert_eq!(svgs.query(9, 200, 200), SvgQuery::Hit);
    assert_eq!(svgs.query(9, 100, 100), SvgQuery::NeedsRasterize);
    let cached = svgs.get_surface(9).expect("surface should be cached");
    assert_eq!((cached.width, cached.height), (200, 200));
}

#[test]
fn closing_window_purges_only_its_entries() {
    // After closing window 1, no svg entry tagged with it remains
    // retrievable; entries tagged with window 2 are unaffected.
    let mut svgs: SvgCache<u8, u8> = SvgCache::new();
    svgs.record_rasterized(1, surface(10, 10, 1));
    svgs.record_rasterized(2, surface(20, 20, 2));
    svgs.load_svg(3, 7);
    svgs.remove_window_data(&WindowId::Winit(1));
    assert_eq!(svgs.query(1, 10, 10), SvgQuery::NeedsParse);
    assert!(svgs.get_surface(1).is_none());
    let kept = svgs.get_surface(2).expect("other window's entry stays");
    assert_eq!((kept.width, kept.height), (20, 20));
    // The merely parsed entry is tied to no window and stays too.
    assert_eq!(svgs.query(3, 10, 10), SvgQuery::NeedsRasterize);
}

#[test]
fn teardown_partitions_surfaces_for_destructor_skip() {
    let mut svgs: SvgCache<u8, u8> = SvgCache::new();
    svgs.load_svg(1, 11);
    svgs.record_rasterized(2, surface(10, 10, 1));
    svgs.load_svg(3, 33);
    let (doms, surfaces) = svgs.teardown();
    assert_eq!(doms.len(), 2);
    assert_eq!(doms[0], (1, 11));
    assert_eq!(doms[1], (3, 33));
    assert_eq!(surfaces.len(), 1);
    assert_eq!(surfaces[0].0, 2);
    assert_eq!((surfaces[0].1.width, surfaces[0].1.height), (10, 10));
}

#[test]
fn placeholder_records_order_and_default() {
    let mut placeholder = PlaceholderRendererData::new();
    placeholder.register_font(&[1, 2], "a");
    placeholder.register_font(&[3], "b");
    // The first registration became default implicitly.
    assert_eq!(placeholder.default_index, Some(0));
    placeholder.register_default_font(&[4], "c");
    assert_eq!(placeholder.default_index, Some(2));

    let plan = placeholder.migration_plan();
    assert_eq!(plan.len(), 3);
    assert_eq!(plan[0], ("a".to_string(), vec![1, 2], false));
    assert_eq!(plan[1], ("b".to_string(), vec![3], false));
    assert_eq!(plan[2], ("c".to_string(), vec![4], true));
}

#[test]
fn migration_replay_preserves_default() {
    let mut placeholder = PlaceholderRendererData::new();
    placeholder.register_font(&[1], "a");
    placeholder.register_default_font(&[2], "b");
    placeholder.register_font(&[3], "c");

    // Replay the plan into a concrete cache, standing in for the backend's
    // decoder with the byte length.
    let mut fonts: FontCache<usize> = FontCache::new();
    for (alias, bytes, is_default) in placeholder.migration_plan() {
        let decoded = bytes.len();
        if is_default {
            fonts.register_default_font(decoded, alias.as_str());
        } else {
            fonts.register_font(decoded, alias.as_str());
        }
    }
    assert_eq!(fonts.get_font(None).copied(), Some(1));
    assert_eq!(fonts.get_font(Some("a")).copied(), Some(1));
    assert_eq!(fonts.get_font(Some("c")).copied(), Some(1));
}

#[test]
fn transform_runs_exactly_once() {
    let mut data: RendererData<u32, u32, u8, u8> = RendererData::placeholder();
    match &mut data {
        RendererData::Placeholder(p) => p.register_font(&[1], "a"),
        RendererData::Concrete(_) => panic!("starts as placeholder"),
    }
    let applied = data.transform_with(ConcreteRendererData::new());
    assert!(applied);
    // A second transform must not touch the concrete store.
    let mut replacement = ConcreteRendererData::new();
    replacement.fonts.register_font(9, "z");
    let applied_again = data.transform_with(replacement);
    assert!(!applied_again);
    match &data {
        RendererData::Concrete(c) => assert_eq!(c.fonts.get_font(Some("z")), None),
        RendererData::Placeholder(_) => panic!("stays concrete"),
    }
}

#[test]
fn window_close_evicts_window_scoped_entries() {
    let mut concrete: ConcreteRendererData<u32, u32, u8, u8> = ConcreteRendererData::new();
    concrete.svgs.record_rasterized(1, surface(10, 10, 5));
    concrete.svgs.record_rasterized(2, surface(20, 20, 6));
    let mut data = RendererData::Placeholder(PlaceholderRendererData::new());
    data.transform_with(concrete);

    let window = lumi2d::bridge::window_from_info(lumi2d::bridge::WindowInfo {
        id: WindowId::Winit(5),
        physical: lumi2d::structs::Dimensions::new(10, 10),
        scale_millis: 1000,
    });
    window.close(&mut data);
    match &data {
        RendererData::Concrete(c) => {
            assert!(c.svgs.get_surface(1).is_none());
            assert!(c.svgs.get_surface(2).is_some());
        }
        RendererData::Placeholder(_) => panic!("concrete"),
    }
}

#[test]
fn entries_migrate_between_states() {
    // An entry can go dom -> surface -> dom again through explicit loads.
    let mut svgs: SvgCache<u8, u8> = SvgCache::new();
    svgs.record_rasterized(4, surface(1, 1, 1));
    svgs.load_svg(4, 9);
    assert_eq!(svgs.query(4, 1, 1), SvgQuery::NeedsRasterize);
    match svgs.entries[0].1 {
        SvgCacheEntry::Dom(d) => assert_eq!(d, 9),
        SvgCacheEntry::Surface(_) => panic!("replaced by dom"),
    }
    svgs.unload_svg(4);
    assert_eq!(svgs.query(4, 1, 1), SvgQuery::NeedsParse);
}
