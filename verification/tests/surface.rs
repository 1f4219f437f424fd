use lenia::presenter::Presenter;
use lenia::surface::{BindGroupCache, BindingSet, BufferIndex, SurfaceHandle, TextureBufferPair};

const A: SurfaceHandle = SurfaceHandle { id: 10 };
const B: SurfaceHandle = SurfaceHandle { id: 20 };

fn pair() -> TextureBufferPair {
    TextureBufferPair::new(A, B).unwrap()
}

#[test]
fn pair_keeps_a_and_b() {
    let surfaces = pair();
    assert_eq!(surfaces.surface_a(), A);
    assert_eq!(surfaces.surface_b(), B);
}

#[test]
fn one_surface_is_no_pair() {
    assert!(TextureBufferPair::new(A, A).is_none());
    assert!(TextureBufferPair::new(A, SurfaceHandle { id: 10 }).is_none());
}

#[test]
fn buffer_index_flips_between_zero_and_one() {
    assert_eq!(BufferIndex::Zero.flipped(), BufferIndex::One);
    assert_eq!(BufferIndex::One.flipped(), BufferIndex::Zero);
    assert_eq!(BufferIndex::Zero.as_usize(), 0);
    assert_eq!(BufferIndex::One.as_usize(), 1);
    for index in [BufferIndex::Zero, BufferIndex::One] {
        assert_eq!(index.flipped().as_usize(), 1 - index.as_usize());
        assert_eq!(index.flipped().flipped(), index);
    }
}

#[test]
fn set_zero_reads_a_and_writes_b() {
    assert_eq!(pair().binding_set(BufferIndex::Zero), BindingSet { read: A, write: B });
}

#[test]
fn set_one_reads_b_and_writes_a() {
    assert_eq!(pair().binding_set(BufferIndex::One), BindingSet { read: B, write: A });
}

#[test]
fn the_two_sets_never_write_the_same_surface() {
    let surfaces = pair();
    let zero = surfaces.binding_set(BufferIndex::Zero);
    let one = surfaces.binding_set(BufferIndex::One);
    assert_ne!(zero.write, one.write);
    assert_ne!(zero.read, zero.write);
    assert_ne!(one.read, one.write);
    assert_eq!(zero.write, one.read);
    assert_eq!(one.write, zero.read);
}

#[test]
fn selection_depends_on_the_index_alone() {
    let mut cache = BindGroupCache::new();
    assert!(cache.rebuild_bind_groups(&pair(), true, true));
    let first = cache.binding_set(BufferIndex::One);
    let _ = cache.binding_set(BufferIndex::Zero);
    assert_eq!(cache.binding_set(BufferIndex::One), first);
    assert_eq!(first, Some(BindingSet { read: B, write: A }));
    assert_eq!(cache.binding_set(BufferIndex::Zero), Some(BindingSet { read: A, write: B }));
}

#[test]
fn new_cache_is_empty() {
    let cache = BindGroupCache::new();
    assert!(!cache.is_built());
    assert_eq!(cache.binding_set(BufferIndex::Zero), None);
    assert_eq!(cache.binding_set(BufferIndex::One), None);
}

#[test]
fn missing_view_skips_the_rebuild() {
    let mut cache = BindGroupCache::new();
    assert!(!cache.rebuild_bind_groups(&pair(), true, false));
    assert!(!cache.is_built());
    assert!(!cache.rebuild_bind_groups(&pair(), false, true));
    assert!(!cache.is_built());
    assert!(!cache.rebuild_bind_groups(&pair(), false, false));
    assert!(!cache.is_built());
    assert!(cache.rebuild_bind_groups(&pair(), true, true));
    assert!(cache.is_built());
}

#[test]
fn missing_view_keeps_what_was_built_before() {
    let mut cache = BindGroupCache::new();
    assert!(cache.rebuild_bind_groups(&pair(), true, true));
    let other = TextureBufferPair::new(SurfaceHandle { id: 1 }, SurfaceHandle { id: 2 }).unwrap();
    assert!(!cache.rebuild_bind_groups(&other, true, false));
    assert_eq!(cache.binding_set(BufferIndex::Zero), Some(BindingSet { read: A, write: B }));
}

#[test]
fn rebuild_follows_the_surfaces_it_is_given() {
    let mut cache = BindGroupCache::new();
    assert!(cache.rebuild_bind_groups(&pair(), true, true));
    let other = TextureBufferPair::new(SurfaceHandle { id: 1 }, SurfaceHandle { id: 2 }).unwrap();
    assert!(cache.rebuild_bind_groups(&other, true, true));
    assert_eq!(
        cache.binding_set(BufferIndex::Zero),
        Some(BindingSet { read: SurfaceHandle { id: 1 }, write: SurfaceHandle { id: 2 } })
    );
}

#[test]
fn rebuilding_twice_is_rebuilding_once() {
    let mut once = BindGroupCache::new();
    assert!(once.rebuild_bind_groups(&pair(), true, true));
    let mut twice = BindGroupCache::new();
    assert!(twice.rebuild_bind_groups(&pair(), true, true));
    assert!(twice.rebuild_bind_groups(&pair(), true, true));
    for index in [BufferIndex::Zero, BufferIndex::One] {
        assert_eq!(once.binding_set(index), twice.binding_set(index));
    }
    assert_eq!(once.is_built(), twice.is_built());
}

#[test]
fn presenter_starts_on_a() {
    assert_eq!(Presenter::new(&pair()).displayed(), A);
}

#[test]
fn presenter_alternates_on_every_frame() {
    let surfaces = pair();
    let mut presenter = Presenter::new(&surfaces);
    let mut shown = Vec::new();
    for _ in 0..6 {
        shown.push(presenter.select_surface_to_display(&surfaces));
        assert_eq!(presenter.displayed(), *shown.last().unwrap());
    }
    assert_eq!(shown, vec![B, A, B, A, B, A]);
}

#[test]
fn presenter_goes_to_a_from_a_surface_outside_the_pair() {
    let mut presenter = Presenter::new(&pair());
    let other = TextureBufferPair::new(SurfaceHandle { id: 1 }, SurfaceHandle { id: 2 }).unwrap();
    assert_eq!(presenter.select_surface_to_display(&other), SurfaceHandle { id: 1 });
    assert_eq!(presenter.select_surface_to_display(&other), SurfaceHandle { id: 2 });
}
