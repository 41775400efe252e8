use rlens::gallery::{Gallery, Tiling};
use rlens::image::{Image, Metadata};
use rlens::load_request::{ImageType, LoadRequest};
use rlens::load_state::LoadState;
use rlens::offset::Offset;
use rlens::program::ImageLoaderLink;
use rlens::rlens::{Mode, RLens};

fn paths(n: usize) -> Vec<String> {
    (0..n).map(|i| format!("/images/{}.png", i)).collect()
}

fn meta() -> Metadata {
    Metadata { dimensions: (4, 3), format: Some("png") }
}

fn full_index(req: Option<LoadRequest>) -> Option<usize> {
    match req {
        Some(LoadRequest::Full(r)) => Some(r.details.index),
        Some(LoadRequest::Thumbnail(_)) => panic!("expected a full request"),
        None => None,
    }
}

fn thumbnail_index(req: Option<LoadRequest>) -> Option<usize> {
    match req {
        Some(LoadRequest::Thumbnail(r)) => Some(r.details.index),
        Some(LoadRequest::Full(_)) => panic!("expected a thumbnail request"),
        None => None,
    }
}

fn loaded_fulls(r: &RLens<u32>) -> usize {
    (0..r.total_images()).filter(|&i| r.get_image(i).full().is_loaded()).count()
}

#[test]
fn offset_same_position() {
    let o = Offset::calculate(0, 0, 5);
    assert_eq!(o.forward(), 0);
    assert_eq!(o.backward(), 5);
    assert!(o.in_range(0, 0));
    assert_eq!(o.key(), 0);
}

#[test]
fn offset_forwards() {
    let o = Offset::calculate(1, 3, 5);
    assert_eq!(o.forward(), 2);
    assert_eq!(o.backward(), 3);
    assert!(o.in_range(2, 0));
    assert!(!o.in_range(1, 2));
    assert!(o.in_range(1, 3));
}

#[test]
fn offset_backwards_wraps() {
    let o = Offset::calculate(3, 1, 5);
    assert_eq!(o.forward(), 3);
    assert_eq!(o.backward(), 2);
}

#[test]
fn offset_key_prefers_forward() {
    let forward2 = Offset::calculate(0, 2, 10).key();
    let backward2 = Offset::calculate(0, 8, 10).key();
    let forward3 = Offset::calculate(0, 3, 10).key();
    assert_eq!(forward2, 4);
    assert_eq!(backward2, 5);
    assert_eq!(forward3, 6);
    assert!(forward2 < backward2 && backward2 < forward3);
}

#[test]
fn load_state_cycle() {
    let mut s: LoadState<u32> = LoadState::Unloaded;
    assert!(!s.is_loaded());
    assert_eq!(s.loaded(), None);
    s.load(7);
    assert!(s.is_loaded());
    assert_eq!(s.loaded(), Some(&7));
    assert_eq!(s.set_loaded(9), Some(7));
    assert_eq!(s.unload(), Some(9));
    assert_eq!(s.unload(), None);
    assert!(!s.is_loaded());
    assert_eq!(LoadState::Loaded(3).take_loaded(), Some(3));
}

#[test]
fn image_entry_flags() {
    let mut img: Image<u32> = Image::new_unloaded("/a.png".to_string());
    assert_eq!(img.path(), "/a.png");
    assert!(!img.is_unloadable());
    img.mark_unloadable();
    assert!(img.is_unloadable());
    img.forget_unloadable();
    assert!(!img.is_unloadable());
    img.mark_unloadable();
    img.load_full(1);
    assert!(!img.is_unloadable());
    assert_eq!(img.full().loaded(), Some(&1));
    assert!(img.set_metadata(meta()).is_none());
    assert_eq!(img.metadata().loaded().map(|m| m.dimensions), Some((4, 3)));
    assert_eq!(img.unload_full(), Some(1));
}

#[test]
fn poll_full_prefers_forward_neighbours() {
    let mut r: RLens<u32> = RLens::init(paths(5), 0);
    r.set_preload_range(1, 1);
    assert_eq!(full_index(r.poll_loads(None)), Some(0));
    r.set_loaded(ImageType::Full, 0, 10, meta());
    assert_eq!(full_index(r.poll_loads(None)), Some(1));
    r.set_loaded(ImageType::Full, 1, 11, meta());
    assert_eq!(full_index(r.poll_loads(None)), Some(4));
    r.set_loaded(ImageType::Full, 4, 14, meta());
    assert_eq!(full_index(r.poll_loads(None)), None);
}

#[test]
fn poll_full_request_carries_path() {
    let r: RLens<u32> = RLens::init(paths(3), 2);
    match r.poll_loads(None) {
        Some(LoadRequest::Full(req)) => {
            assert_eq!(req.details.index, 2);
            assert_eq!(req.details.path, "/images/2.png");
        }
        _ => panic!("expected a full request"),
    }
}

#[test]
fn poll_skips_unloadable() {
    let mut r: RLens<u32> = RLens::init(paths(4), 0);
    r.set_preload_range(1, 0);
    r.mark_unloadable(0);
    assert_eq!(full_index(r.poll_loads(None)), Some(1));
    r.mark_unloadable(1);
    assert_eq!(full_index(r.poll_loads(None)), None);
    r.unload_image(1);
    assert_eq!(full_index(r.poll_loads(None)), Some(1));
}

#[test]
fn poll_none_is_idempotent() {
    let mut r: RLens<u32> = RLens::init(paths(2), 0);
    r.set_loaded(ImageType::Full, 0, 1, meta());
    assert!(r.poll_loads(None).is_none());
    assert!(r.poll_loads(None).is_none());
    let mut link = ImageLoaderLink::new();
    assert!(link.on_ready(&r, None).is_none());
    assert!(link.is_waiting());
    assert!(link.on_ready(&r, None).is_none());
    assert!(link.is_waiting());
}

#[test]
fn eviction_after_moving_to_far_end() {
    let n = 10;
    let mut r: RLens<u32> = RLens::init(paths(n), 0);
    r.set_preload_range(2, 1);
    for i in 0..n {
        r.set_loaded(ImageType::Full, i, i as u32, meta());
    }
    assert_eq!(loaded_fulls(&r), n);
    r.set_full_image(5);
    let evicted = r.unload_images(None);
    assert!(loaded_fulls(&r) <= 2 + 1 + 1);
    assert_eq!(loaded_fulls(&r), 4);
    assert_eq!(evicted, vec![0, 1, 2, 3, 8, 9]);
    for i in [4, 5, 6, 7] {
        assert!(r.get_image(i).full().is_loaded());
    }
}

#[test]
fn eviction_wraps_around() {
    let mut r: RLens<u32> = RLens::init(paths(6), 0);
    r.set_preload_range(1, 1);
    for i in 0..6 {
        r.set_loaded(ImageType::Full, i, i as u32, meta());
    }
    let evicted = r.unload_images(None);
    assert_eq!(evicted, vec![2, 3, 4]);
    assert!(r.get_image(5).full().is_loaded());
}

#[test]
fn eviction_of_thumbnails_outside_the_grid() {
    let mut r: RLens<u32> = RLens::init(paths(12), 0);
    let tiling = Tiling::new(2, 2);
    assert!(r.switch_mode(Mode::Gallery, tiling));
    for i in 0..12 {
        r.set_loaded(ImageType::Thumbnail, i, 100 + i as u32, meta());
    }
    r.set_gallery_cursor(6, Tiling::new(2, 2));
    let evicted = r.unload_images(Tiling::new(2, 2));
    // the grid shows images 4 to 7; the load range also holds the one after
    assert_eq!(evicted, vec![100, 101, 102, 103, 109, 110, 111]);
}

#[test]
fn thumbnails_load_from_the_first_visible_tile() {
    let mut r: RLens<u32> = RLens::init(paths(10), 0);
    r.switch_mode(Mode::Gallery, Tiling::new(3, 1));
    r.set_save_thumbnails(true);
    match r.poll_loads(Tiling::new(3, 1)) {
        Some(LoadRequest::Thumbnail(t)) => {
            assert_eq!(t.details.index, 0);
            assert!(t.save);
        }
        _ => panic!("expected a thumbnail request"),
    }
    r.set_loaded(ImageType::Thumbnail, 0, 0, meta());
    assert_eq!(thumbnail_index(r.poll_loads(Tiling::new(3, 1))), Some(1));
    assert_eq!(thumbnail_index(r.poll_loads(None)), None);
}

#[test]
fn set_loaded_reports_redraw() {
    let mut r: RLens<u32> = RLens::init(paths(3), 1);
    assert_eq!(r.set_loaded(ImageType::Full, 1, 0, meta()), (true, true));
    assert_eq!(r.set_loaded(ImageType::Full, 2, 0, meta()), (false, false));
    assert_eq!(r.set_loaded(ImageType::Thumbnail, 2, 0, meta()), (false, false));
    r.switch_mode(Mode::Gallery, None);
    assert_eq!(r.gallery_cursor(), 1);
    assert_eq!(r.set_loaded(ImageType::Thumbnail, 1, 0, meta()), (true, true));
    assert_eq!(r.set_loaded(ImageType::Thumbnail, 0, 0, meta()), (true, false));
}

#[test]
fn select_opens_gallery_cursor() {
    let mut r: RLens<u32> = RLens::init(paths(5), 0);
    assert!(!r.select(None));
    r.switch_mode(Mode::Gallery, None);
    r.set_gallery_cursor(3, None);
    assert_eq!(r.current_image(), 3);
    assert!(r.select(None));
    assert_eq!(r.mode(), Mode::Image);
    assert_eq!(r.current_open_image(), 3);
    assert!(!r.switch_mode(Mode::Image, None));
}

#[test]
fn status_bar_visibility() {
    let mut r: RLens<u32> = RLens::init(paths(1), 0);
    assert!(!r.show_status_bar());
    r.set_image_mode_status_bar(true);
    assert!(r.show_status_bar());
    r.set_image_mode_status_bar(false);
    r.set_mode(Mode::Gallery);
    assert!(r.show_status_bar());
}

#[test]
fn wake_only_a_waiting_loader() {
    let mut r: RLens<u32> = RLens::init(paths(3), 0);
    let mut link = ImageLoaderLink::new();
    assert!(link.wake_image_loader(&r, None).is_none());
    r.set_loaded(ImageType::Full, 0, 0, meta());
    assert!(link.on_ready(&r, None).is_none());
    assert!(link.is_waiting());
    r.set_preload_range(1, 0);
    assert_eq!(full_index(link.wake_image_loader(&r, None)), Some(1));
    assert!(!link.is_waiting());
    assert!(link.wake_image_loader(&r, None).is_none());
}

#[test]
fn gallery_scrolls_to_show_cursor() {
    let mut g = Gallery::init();
    g.set_cursor(7, Tiling::new(3, 2));
    // rows of 3, 2 rows visible: 7 is in row 2, so rows 1 and 2 show
    assert_eq!(g.load_range(Tiling::new(3, 2)), Some((3, 6)));
    g.set_cursor(4, Tiling::new(3, 2));
    assert_eq!(g.load_range(Tiling::new(3, 2)), Some((3, 6)));
    g.set_cursor(1, Tiling::new(3, 2));
    assert_eq!(g.load_range(Tiling::new(3, 2)), Some((0, 6)));
    assert_eq!(g.cursor(), 1);
    g.set_cursor(5, None);
    assert_eq!(g.load_range(None), None);
    assert_eq!(g.tiles_in_row(Tiling::new(4, 1)), 4);
    assert_eq!(g.tiles_in_row(None), 0);
}

#[test]
fn tiling_needs_tiles() {
    assert!(Tiling::new(0, 3).is_none());
    assert!(Tiling::new(3, 0).is_none());
    let t = Tiling::new(3, 4).unwrap();
    assert_eq!(t.tiles(), 12);
}

#[test]
fn offset_at_the_largest_length() {
    let n = usize::MAX;
    let o = Offset::calculate(0, n - 1, n);
    assert_eq!(o.forward(), n - 1);
    assert_eq!(o.backward(), 1);
    assert_eq!(o.key(), 3);
    let o = Offset::calculate(n - 1, 0, n);
    assert_eq!(o.forward(), 1);
    assert_eq!(o.backward(), n - 1);
    assert_eq!(o.key(), 2);
    let o = Offset::calculate(0, n / 2, n);
    assert_eq!(o.key(), 2 * (n / 2));
}

#[test]
fn largest_tiling() {
    let t = Tiling::new(usize::MAX, 1).unwrap();
    assert_eq!(t.tiles(), usize::MAX);
    let mut g = Gallery::init();
    g.set_cursor(5, Some(t));
    assert_eq!(g.load_range(Some(t)), Some((0, usize::MAX)));
}
