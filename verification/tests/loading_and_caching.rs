use egui_svgicon::cache::MeshCache;
use egui_svgicon::color::Color;
use egui_svgicon::loader::{DocumentParseError, TreeCache, KEY_SEED};
use egui_svgicon::mesh::{Mesh, Vertex};
use egui_svgicon::path::Point;
use egui_svgicon::svg::{positive, FitMode, Margin, MeshKey, Svg, ONE, POSITIVE_MAX};
use std::hash::{BuildHasher, Hash, Hasher};
use std::rc::Rc;

const ICON: &[u8] = b"<svg xmlns=\"http://www.w3.org/2000/svg\" viewBox=\"0 0 24 12\"><g transform=\"scale(2)\"><path d=\"M0 0 L10 0 L10 5 Z\" fill=\"#ff0000\"/></g></svg>";
const OTHER: &[u8] = b"<svg xmlns=\"http://www.w3.org/2000/svg\" viewBox=\"0 0 8 8\"><path d=\"M0 0 L8 8\" stroke=\"#000\"/></svg>";

fn parser(data: &[u8]) -> impl FnOnce() -> Result<usvg::Tree, usvg::Error> + '_ {
    move || usvg::Tree::from_data(data, &usvg::Options::default())
}

fn load(cache: &mut TreeCache, data: &[u8]) -> Result<(u64, Rc<usvg::Tree>), DocumentParseError> {
    cache.load(data, parser(data))
}

fn icon(cache: &mut TreeCache, data: &[u8]) -> Result<Svg, DocumentParseError> {
    Svg::new(cache, data, parser(data))
}

#[test]
fn valid_document_loads() {
    let mut cache = TreeCache::new();
    let (key, tree) = load(&mut cache, ICON).unwrap();
    assert_eq!(tree.view_box.rect.width(), 24.0);
    assert_eq!(tree.view_box.rect.height(), 12.0);
    assert!(tree.root.has_children());
    let cached = cache.get(key).unwrap();
    assert!(Rc::ptr_eq(&cached, &tree));
}

#[test]
fn same_content_shares_one_tree() {
    let mut cache = TreeCache::new();
    let (key1, first) = load(&mut cache, ICON).unwrap();
    let (other_key, other) = load(&mut cache, OTHER).unwrap();
    let (key2, second) = load(&mut cache, &ICON.to_vec()).unwrap();
    assert_eq!(key1, key2);
    assert_ne!(key1, other_key);
    assert!(Rc::ptr_eq(&first, &second));
    assert!(!Rc::ptr_eq(&first, &other));
}

#[test]
fn cached_key_wins_over_new_content() {
    let mut cache = TreeCache::new();
    let first = cache.load_keyed(7, parser(ICON)).unwrap();
    let again = cache.load_keyed(7, parser(b"not a document")).unwrap();
    assert!(Rc::ptr_eq(&first, &again));
    assert!(cache.get(8).is_none());
}

#[test]
fn parser_runs_only_on_a_miss() {
    let mut cache = TreeCache::new();
    let runs = std::cell::Cell::new(0);
    let counted = |data: &'static [u8]| {
        let runs = &runs;
        move || {
            runs.set(runs.get() + 1);
            usvg::Tree::from_data(data, &usvg::Options::default())
        }
    };
    let first = cache.load_keyed(1, counted(ICON)).unwrap();
    assert_eq!(runs.get(), 1);
    let again = cache.load_keyed(1, counted(OTHER)).unwrap();
    assert_eq!(runs.get(), 1);
    assert!(Rc::ptr_eq(&first, &again));
    let (key, tree) = cache.load(ICON, counted(ICON)).unwrap();
    assert_eq!(runs.get(), 2);
    let (key2, tree2) = cache.load(ICON, counted(ICON)).unwrap();
    assert_eq!(runs.get(), 2);
    assert_eq!(key, key2);
    assert!(Rc::ptr_eq(&tree, &tree2));
    assert!(cache.load(b"<svg", counted(b"<svg")).is_err());
    assert_eq!(runs.get(), 3);
    let a = Svg::new(&mut cache, ICON, counted(ICON)).unwrap();
    assert_eq!(runs.get(), 3);
    assert!(Rc::ptr_eq(&a.tree(), &tree));
}

#[test]
fn a_parser_of_ones_own_is_taken_at_its_word() {
    let mut cache = TreeCache::new();
    let loaded = cache.load(b"anything", || usvg::Tree::from_data(ICON, &usvg::Options::default()));
    let (key, tree) = loaded.unwrap();
    assert_eq!(tree.view_box.rect.width(), 24.0);
    assert!(Rc::ptr_eq(&tree, &cache.get(key).unwrap()));
    let failed = cache.load(ICON, || Err(usvg::Error::InvalidSize));
    assert_eq!(failed.err(), Some(DocumentParseError::InvalidSize));
}

#[test]
fn content_keys_come_from_the_seeded_hasher() {
    assert_eq!(KEY_SEED, 0);
    let mut cache = TreeCache::new();
    let (key, _) = load(&mut cache, ICON).unwrap();
    let mut hasher = epaint::ahash::RandomState::with_seed(KEY_SEED).build_hasher();
    ICON.hash(&mut hasher);
    assert_eq!(key, hasher.finish());
    let mut other = epaint::ahash::RandomState::with_seed(KEY_SEED + 1).build_hasher();
    ICON.hash(&mut other);
    assert_ne!(key, other.finish());
}

#[test]
fn failed_load_leaves_the_cache_alone() {
    let mut cache = TreeCache::new();
    assert!(cache.load_keyed(3, parser(b"<svg")).is_err());
    assert!(cache.get(3).is_none());
    let tree = cache.load_keyed(3, parser(ICON)).unwrap();
    assert_eq!(tree.view_box.rect.width(), 24.0);
}

#[test]
fn entering_a_parsed_tree_caches_it() {
    let mut cache = TreeCache::new();
    let parsed = usvg::Tree::from_data(ICON, &usvg::Options::default());
    let tree = cache.enter(11, parsed).unwrap();
    assert!(Rc::ptr_eq(&tree, &cache.get(11).unwrap()));
    let failed = usvg::Tree::from_data(b"<svg", &usvg::Options::default());
    assert_eq!(cache.enter(12, failed).err(), Some(DocumentParseError::Malformed));
    assert!(cache.get(12).is_none());
}

#[test]
fn content_that_is_not_text_is_rejected() {
    let mut cache = TreeCache::new();
    assert_eq!(load(&mut cache, &[0xff, 0xfe, 0x00]).err(), Some(DocumentParseError::NotUtf8));
}

#[test]
fn broken_compressed_content_is_rejected() {
    let mut cache = TreeCache::new();
    assert_eq!(
        load(&mut cache, &[0x1f, 0x8b, 1, 2, 3, 4]).err(),
        Some(DocumentParseError::MalformedGzip)
    );
}

#[test]
fn malformed_markup_is_rejected() {
    let mut cache = TreeCache::new();
    assert_eq!(load(&mut cache, b"<svg><g></svg>").err(), Some(DocumentParseError::Malformed));
    assert_eq!(load(&mut cache, b"").err(), Some(DocumentParseError::Malformed));
}

#[test]
fn document_without_size_is_rejected() {
    let mut cache = TreeCache::new();
    let data = b"<svg xmlns=\"http://www.w3.org/2000/svg\" width=\"0\" height=\"0\"/>";
    assert_eq!(load(&mut cache, data).err(), Some(DocumentParseError::InvalidSize));
}

#[test]
fn every_error_has_its_words() {
    let all = [
        DocumentParseError::NotUtf8,
        DocumentParseError::MalformedGzip,
        DocumentParseError::TooManyElements,
        DocumentParseError::InvalidSize,
        DocumentParseError::Malformed,
    ];
    for (i, a) in all.iter().enumerate() {
        assert!(!a.message().is_empty());
        for b in &all[i + 1..] {
            assert_ne!(a.message(), b.message());
        }
    }
}

#[test]
fn error_words_are_exact() {
    assert_eq!(DocumentParseError::NotUtf8.message(), "document is not UTF-8 text");
    assert_eq!(
        DocumentParseError::MalformedGzip.message(),
        "document has malformed compressed content"
    );
    assert_eq!(DocumentParseError::TooManyElements.message(), "document has too many elements");
    assert_eq!(DocumentParseError::InvalidSize.message(), "document has an invalid size");
    assert_eq!(DocumentParseError::Malformed.message(), "document is malformed");
}

#[test]
fn fresh_icon_has_the_default_settings() {
    let mut cache = TreeCache::new();
    let svg = icon(&mut cache, ICON).unwrap();
    assert_eq!(svg.tolerance(), 1f32.to_bits());
    assert_eq!(svg.tolerance(), ONE);
    assert!(svg.scale_tolerance());
    assert_eq!(svg.fit_mode(), FitMode::Contain(Margin::zero()));
    assert_eq!(svg.color(), None);
    assert!(Rc::ptr_eq(&svg.tree(), &cache.get(svg.key()).unwrap()));
}

#[test]
fn icons_of_the_same_content_share_tree_and_key() {
    let mut cache = TreeCache::new();
    let a = icon(&mut cache, ICON).unwrap();
    let b = icon(&mut cache, ICON).unwrap();
    assert_eq!(a.key(), b.key());
    assert!(Rc::ptr_eq(&a.tree(), &b.tree()));
    assert_eq!(a.mesh_key(1, 2), b.mesh_key(1, 2));
}

#[test]
fn icon_of_bad_content_is_an_error() {
    let mut cache = TreeCache::new();
    assert!(icon(&mut cache, b"nothing").is_err());
}

#[test]
fn settings_are_changed_one_at_a_time() {
    let mut cache = TreeCache::new();
    let blue = Color::new(0xAD, 0xD8, 0xE6, 255);
    let svg = icon(&mut cache, ICON)
        .unwrap()
        .with_tolerance(0.25f32.to_bits())
        .with_scale_tolerance(false)
        .with_color(blue)
        .with_fit_mode(FitMode::Factor(2f32.to_bits()));
    assert_eq!(svg.tolerance(), 0.25f32.to_bits());
    assert!(!svg.scale_tolerance());
    assert_eq!(svg.color(), Some(blue));
    assert_eq!(svg.fit_mode(), FitMode::Factor(2f32.to_bits()));
    let svg = svg.with_fit_mode(FitMode::Cover);
    assert_eq!(svg.tolerance(), 0.25f32.to_bits());
    assert_eq!(svg.color(), Some(blue));
    assert_eq!(svg.fit_mode(), FitMode::Cover);
}

#[test]
fn positive_bit_patterns() {
    assert!(positive(1f32.to_bits()));
    assert!(positive(f32::MIN_POSITIVE.to_bits()));
    assert!(positive(1));
    assert!(positive(f32::INFINITY.to_bits()));
    assert_eq!(f32::INFINITY.to_bits(), POSITIVE_MAX);
    assert!(!positive(0f32.to_bits()));
    assert!(!positive((-0f32).to_bits()));
    assert!(!positive((-1f32).to_bits()));
    assert!(!positive(f32::NAN.to_bits()));
    for bits in [0u32, 1, 0x3f80_0000, 0x7f80_0000, 0x7f80_0001, 0x8000_0000, 0xbf80_0000] {
        assert_eq!(positive(bits), f32::from_bits(bits) > 0.0);
    }
}

#[test]
fn mesh_key_tells_settings_apart() {
    let mut cache = TreeCache::new();
    let base = || Svg::with_tree(5, cache_tree());
    fn cache_tree() -> Rc<usvg::Tree> {
        let mut cache = TreeCache::new();
        load(&mut cache, ICON).unwrap().1
    }
    let _ = &mut cache;
    let w = 32f32.to_bits();
    let h = 16f32.to_bits();
    let key = base().mesh_key(w, h);
    assert_eq!(
        key,
        MeshKey {
            document: 5,
            tolerance: ONE,
            scale_tolerance: true,
            fit_mode: FitMode::Contain(Margin::zero()),
            width: w,
            height: h,
        }
    );
    assert_eq!(base().with_color(Color::new(1, 2, 3, 4)).mesh_key(w, h), key);
    assert_ne!(base().with_tolerance(2f32.to_bits()).mesh_key(w, h), key);
    assert_ne!(base().with_scale_tolerance(false).mesh_key(w, h), key);
    assert_ne!(base().with_fit_mode(FitMode::Intrinsic).mesh_key(w, h), key);
    assert_ne!(base().with_fit_mode(FitMode::Cover).mesh_key(w, h), key);
    assert_ne!(
        base().with_fit_mode(FitMode::Contain(Margin { left: 1, ..Margin::zero() })).mesh_key(w, h),
        key
    );
    assert_ne!(base().mesh_key(h, w), key);
    assert_ne!(Svg::with_tree(6, cache_tree()).mesh_key(w, h), key);
    assert_ne!(
        base().with_fit_mode(FitMode::Size { width: 1, height: 2 }).mesh_key(w, h),
        base().with_fit_mode(FitMode::Size { width: 2, height: 1 }).mesh_key(w, h)
    );
    assert_ne!(
        base().with_fit_mode(FitMode::Factor(0f32.to_bits())).mesh_key(w, h),
        base().with_fit_mode(FitMode::Factor((-0f32).to_bits())).mesh_key(w, h)
    );
}

fn key(document: u64) -> MeshKey {
    MeshKey {
        document,
        tolerance: ONE,
        scale_tolerance: true,
        fit_mode: FitMode::Cover,
        width: 10f32.to_bits(),
        height: 10f32.to_bits(),
    }
}

fn mesh(tag: u8) -> Mesh {
    Mesh {
        vertices: vec![Vertex { pos: Point::new(1, 2), color: Color::new(tag, tag, tag, 255) }; 3],
        indices: vec![0, 1, 2],
    }
}

#[test]
fn empty_mesh_cache_holds_nothing() {
    let cache = MeshCache::new();
    assert!(!cache.contains(key(1)));
    assert_eq!(cache.get(key(1)), None);
}

#[test]
fn stored_mesh_comes_back() {
    let mut cache = MeshCache::new();
    cache.store(key(1), mesh(1));
    cache.store(key(2), mesh(2));
    assert!(cache.contains(key(1)));
    assert_eq!(cache.get(key(1)), Some(mesh(1)));
    assert_eq!(cache.get(key(2)), Some(mesh(2)));
    assert_eq!(cache.get(key(3)), None);
}

#[test]
fn first_stored_mesh_stays() {
    let mut cache = MeshCache::new();
    cache.store(key(1), mesh(1));
    cache.store(key(1), mesh(9));
    cache.store(key(2), mesh(2));
    assert_eq!(cache.get(key(1)), Some(mesh(1)));
}

#[test]
fn tessellation_runs_only_on_a_miss() {
    let mut cache = MeshCache::new();
    let runs = std::cell::Cell::new(0);
    let made = cache.get_or_insert_with(key(1), || {
        runs.set(runs.get() + 1);
        mesh(1)
    });
    assert_eq!(made, mesh(1));
    assert_eq!(runs.get(), 1);
    let again = cache.get_or_insert_with(key(1), || {
        runs.set(runs.get() + 1);
        mesh(7)
    });
    assert_eq!(again, mesh(1));
    assert_eq!(runs.get(), 1);
    let other = cache.get_or_insert_with(key(2), || {
        runs.set(runs.get() + 1);
        mesh(2)
    });
    assert_eq!(other, mesh(2));
    assert_eq!(runs.get(), 2);
}

#[test]
fn recoloring_a_cached_copy_leaves_the_cache_alone() {
    let mut cache = MeshCache::new();
    cache.store(key(1), mesh(1));
    let mut copy = cache.get(key(1)).unwrap();
    copy.paint(Color::new(9, 9, 9, 9));
    assert_eq!(copy.indices, mesh(1).indices);
    assert_eq!(copy.vertices[0].pos, mesh(1).vertices[0].pos);
    assert_eq!(cache.get(key(1)), Some(mesh(1)));
}
