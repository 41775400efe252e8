//! The resource table of the viewer and the scheduling over it: which image
//! to load next, and which loaded images to evict.

use vstd::prelude::*;
use vstd::set_lib::{lemma_int_range, lemma_len_subset, lemma_len_union, lemma_map_size_bound, set_int_range};

use crate::gallery::{Gallery, Tiling};
use crate::image::{Image, Metadata};
use crate::load_request::{FullRequest, ImageType, LoadRequest, ThumbnailRequest};
use crate::load_state::LoadState;
use crate::offset::{closeness, forward_steps, in_window, Offset};
use crate::status_bar::StatusBarPosition;

verus! {

/// A view of the viewer.
#[derive(Clone, Copy, PartialEq, Eq, Structural, Debug)]
pub enum Mode {
    /// One full image at a time
    Image,
    /// A grid of thumbnails
    Gallery,
}

impl Default for Mode {
    fn default() -> (r: Self)
        ensures
            r == Mode::Image,
    {
        Mode::Image
    }
}

/// The slots of one kind (full images or thumbnails) of a list of images.
pub open spec fn slots<T>(images: Seq<Image<T>>, type_: ImageType) -> Seq<LoadState<T>> {
    images.map_values(
        |img: Image<T>|
            match type_ {
                ImageType::Full => img.full_spec(),
                ImageType::Thumbnail => img.thumbnail_spec(),
            },
    )
}

/// The items that an eviction sweep takes out of `slots`, in the order of
/// the list: those loaded outside the window of `forward` and `backward`
/// steps around `from`, in a cyclic list of `length`.
pub open spec fn evicted<T>(
    slots: Seq<LoadState<T>>,
    length: int,
    from: int,
    forward: int,
    backward: int,
) -> Seq<T>
    decreases slots.len(),
{
    if slots.len() == 0 {
        Seq::empty()
    } else {
        let k = slots.len() - 1;
        let before = evicted(slots.drop_last(), length, from, forward, backward);
        match slots[k] {
            LoadState::Loaded(x) => if in_window(from, k, length, forward, backward) {
                before
            } else {
                before.push(x)
            },
            LoadState::Unloaded => before,
        }
    }
}

/// The table of images with the state of the viewer that scheduling reads.
pub struct RLens<T> {
    /// The current view
    mode: Mode,
    /// The image list, never empty
    images: Vec<Image<T>>,
    /// The image open in the image view
    current_open: usize,
    /// Number of images to preload forwards
    preload_forward: usize,
    /// Number of images to preload backwards
    preload_backward: usize,
    /// Whether the status bar is shown in the image view
    image_mode_status_bar: bool,
    /// The gallery
    gallery: Gallery,
    /// Whether to save generated thumbnails
    save_thumbnails: bool,
    /// Position of the status bar
    status_bar_position: StatusBarPosition,
    /// Whether drawing is suspended
    frozen: bool,
}

impl<T> RLens<T> {
    pub closed spec fn mode_spec(&self) -> Mode {
        self.mode
    }

    pub closed spec fn images_spec(&self) -> Seq<Image<T>> {
        self.images@
    }

    pub closed spec fn current_open_spec(&self) -> nat {
        self.current_open as nat
    }

    pub closed spec fn preload_spec(&self) -> (nat, nat) {
        (self.preload_forward as nat, self.preload_backward as nat)
    }

    pub closed spec fn gallery_spec(&self) -> Gallery {
        self.gallery
    }

    pub closed spec fn save_thumbnails_spec(&self) -> bool {
        self.save_thumbnails
    }

    pub closed spec fn image_mode_status_bar_spec(&self) -> bool {
        self.image_mode_status_bar
    }

    pub closed spec fn status_bar_position_spec(&self) -> StatusBarPosition {
        self.status_bar_position
    }

    pub closed spec fn frozen_spec(&self) -> bool {
        self.frozen
    }

    /// Everything but the image list is the same in `self` and `other`.
    pub open spec fn same_settings(&self, other: &Self) -> bool {
        &&& self.mode_spec() == other.mode_spec()
        &&& self.current_open_spec() == other.current_open_spec()
        &&& self.preload_spec() == other.preload_spec()
        &&& self.gallery_spec() == other.gallery_spec()
        &&& self.save_thumbnails_spec() == other.save_thumbnails_spec()
        &&& self.image_mode_status_bar_spec() == other.image_mode_status_bar_spec()
        &&& self.status_bar_position_spec() == other.status_bar_position_spec()
        &&& self.frozen_spec() == other.frozen_spec()
    }

    /// Only the open image may differ between `self` and `other`.
    pub open spec fn same_but_open(&self, other: &Self) -> bool {
        &&& self.mode_spec() == other.mode_spec()
        &&& self.images_spec() == other.images_spec()
        &&& self.preload_spec() == other.preload_spec()
        &&& self.gallery_spec() == other.gallery_spec()
        &&& self.save_thumbnails_spec() == other.save_thumbnails_spec()
        &&& self.image_mode_status_bar_spec() == other.image_mode_status_bar_spec()
        &&& self.status_bar_position_spec() == other.status_bar_position_spec()
        &&& self.frozen_spec() == other.frozen_spec()
    }

    /// Only the gallery may differ between `self` and `other`.
    pub open spec fn same_but_gallery(&self, other: &Self) -> bool {
        &&& self.mode_spec() == other.mode_spec()
        &&& self.images_spec() == other.images_spec()
        &&& self.current_open_spec() == other.current_open_spec()
        &&& self.preload_spec() == other.preload_spec()
        &&& self.save_thumbnails_spec() == other.save_thumbnails_spec()
        &&& self.image_mode_status_bar_spec() == other.image_mode_status_bar_spec()
        &&& self.status_bar_position_spec() == other.status_bar_position_spec()
        &&& self.frozen_spec() == other.frozen_spec()
    }

    /// The image lists of `self` and `other` differ at most at `index`.
    pub open spec fn same_images_but(&self, other: &Self, index: int) -> bool {
        &&& self.len_spec() == other.len_spec()
        &&& forall|j: int|
            0 <= j < self.len_spec() && j != index ==> self.images_spec()[j]
                == other.images_spec()[j]
    }

    /// The number of images.
    pub open spec fn len_spec(&self) -> nat {
        self.images_spec().len()
    }

    /// The list is not empty and the current positions are in it.
    pub open spec fn wf(&self) -> bool {
        &&& 0 < self.len_spec() <= usize::MAX
        &&& self.current_open_spec() < self.len_spec()
        &&& self.gallery_spec().wf(self.len_spec())
    }

    /// The index of the current image for the mode.
    pub open spec fn current_image_spec(&self) -> nat {
        match self.mode_spec() {
            Mode::Image => self.current_open_spec(),
            Mode::Gallery => self.gallery_spec().cursor_spec(),
        }
    }

    /// The first image and the number of tiles after it whose thumbnails are
    /// to be loaded; nothing but the first image where there is no grid.
    pub open spec fn thumbnail_window(&self, tiling: Option<Tiling>) -> (nat, nat) {
        match tiling {
            Some(t) => self.gallery_spec().visible_range_spec(t),
            None => (0, 0),
        }
    }

    /// Whether the full image at `i` is one to load: in the preload window
    /// around the open image, not loaded, and not known to be unloadable.
    pub open spec fn full_candidate(&self, i: int) -> bool {
        is_candidate(
            self.images_spec(),
            self.current_open_spec() as int,
            self.preload_spec().0 as int,
            self.preload_spec().1 as int,
            ImageType::Full,
            i,
        )
    }

    /// Whether the thumbnail at `i` is one to load: in the visible range of
    /// the gallery, not loaded, and not known to be unloadable.
    pub open spec fn thumbnail_candidate(&self, tiling: Option<Tiling>, i: int) -> bool {
        let (first, tiles) = self.thumbnail_window(tiling);
        is_candidate(self.images_spec(), first as int, tiles as int, 0, ImageType::Thumbnail, i)
    }

    /// Whether there is something to load for the current mode.
    pub open spec fn has_work(&self, tiling: Option<Tiling>) -> bool {
        match self.mode_spec() {
            Mode::Image => exists|i: int| self.full_candidate(i),
            Mode::Gallery => exists|i: int| self.thumbnail_candidate(tiling, i),
        }
    }

    /// Whether `req` is the request to make next for the current mode.
    pub open spec fn is_next_request(&self, tiling: Option<Tiling>, req: LoadRequest) -> bool {
        let index = req.details_spec().index as int;
        &&& 0 <= index < self.len_spec()
        &&& req.details_spec().path@ == self.images_spec()[index].path_spec()
        &&& match self.mode_spec() {
            Mode::Image => req is Full && self.is_next_full(index),
            Mode::Gallery => req matches LoadRequest::Thumbnail(t) && self.is_next_thumbnail(
                tiling,
                index,
            ) && t.save == self.save_thumbnails_spec(),
        }
    }

    /// The full image to load next: the closest candidate to the open image.
    pub open spec fn is_next_full(&self, i: int) -> bool {
        is_closest(
            self.images_spec(),
            self.current_open_spec() as int,
            self.preload_spec().0 as int,
            self.preload_spec().1 as int,
            ImageType::Full,
            i,
        )
    }

    /// The thumbnail to load next: the closest candidate to the first visible tile.
    pub open spec fn is_next_thumbnail(&self, tiling: Option<Tiling>, i: int) -> bool {
        let (first, tiles) = self.thumbnail_window(tiling);
        is_closest(self.images_spec(), first as int, tiles as int, 0, ImageType::Thumbnail, i)
    }
}

/// Whether the slot of kind `type_` at `i` is one to load: within `forward`
/// steps forwards or `backward` steps backwards of `from`, not loaded, and
/// of a source not known to be unloadable.
pub open spec fn is_candidate<T>(
    images: Seq<Image<T>>,
    from: int,
    forward: int,
    backward: int,
    type_: ImageType,
    i: int,
) -> bool {
    &&& 0 <= i < images.len()
    &&& in_window(from, i, images.len() as int, forward, backward)
    &&& slots(images, type_)[i] is Unloaded
    &&& !images[i].unloadable_spec()
}

/// Whether `i` is the candidate closest to `from`.
pub open spec fn is_closest<T>(
    images: Seq<Image<T>>,
    from: int,
    forward: int,
    backward: int,
    type_: ImageType,
    i: int,
) -> bool {
    &&& is_candidate(images, from, forward, backward, type_, i)
    &&& forall|j: int|
        is_candidate(images, from, forward, backward, type_, j) ==> closeness(
            from,
            i,
            images.len() as int,
        ) <= closeness(from, j, images.len() as int)
}

impl<T> RLens<T> {
    /// A viewer over `paths`, nothing loaded, open at `initial_index`.
    pub fn init(paths: Vec<String>, initial_index: usize) -> (r: Self)
        requires
            paths.len() > 0,
            initial_index < paths.len(),
        ensures
            r.wf(),
            r.len_spec() == paths.len(),
            forall|i: int|
                0 <= i < paths.len() ==> {
                    let image = #[trigger] r.images_spec()[i];
                    &&& image.path_spec() == paths[i]@
                    &&& image.full_spec() is Unloaded
                    &&& image.thumbnail_spec() is Unloaded
                    &&& image.metadata_spec() is Unloaded
                    &&& !image.unloadable_spec()
                },
            r.mode_spec() == Mode::Image,
            r.current_open_spec() == initial_index,
            r.preload_spec() == (0nat, 0nat),
            r.gallery_spec().cursor_spec() == 0,
            r.gallery_spec().anchor_spec() == 0,
            !r.save_thumbnails_spec(),
            !r.image_mode_status_bar_spec(),
            r.status_bar_position_spec() == StatusBarPosition::Bottom,
            !r.frozen_spec(),
    {
        let mut images: Vec<Image<T>> = Vec::new();
        let mut i: usize = 0;
        while i < paths.len()
            invariant
                0 <= i <= paths.len(),
                images.len() == i,
                forall|j: int|
                    0 <= j < i ==> {
                        let image = #[trigger] images@[j];
                        &&& image.path_spec() == paths[j]@
                        &&& image.full_spec() is Unloaded
                        &&& image.thumbnail_spec() is Unloaded
                        &&& image.metadata_spec() is Unloaded
                        &&& !image.unloadable_spec()
                    },
            decreases paths.len() - i,
        {
            images.push(Image::new_unloaded(paths[i].clone()));
            i += 1;
        }
        RLens {
            mode: Mode::Image,
            images,
            current_open: initial_index,
            preload_forward: 0,
            preload_backward: 0,
            image_mode_status_bar: false,
            gallery: Gallery::init(),
            save_thumbnails: false,
            status_bar_position: StatusBarPosition::Bottom,
            frozen: false,
        }
    }

    /// The current mode.
    pub fn mode(&self) -> (r: Mode)
        ensures
            r == self.mode_spec(),
    {
        self.mode
    }

    /// Set the mode.
    pub fn set_mode(&mut self, mode: Mode)
        ensures
            final(self).mode_spec() == mode,
            final(self).images_spec() == old(self).images_spec(),
            final(self).current_open_spec() == old(self).current_open_spec(),
            final(self).preload_spec() == old(self).preload_spec(),
            final(self).gallery_spec() == old(self).gallery_spec(),
            final(self).save_thumbnails_spec() == old(self).save_thumbnails_spec(),
            final(self).image_mode_status_bar_spec() == old(self).image_mode_status_bar_spec(),
            final(self).status_bar_position_spec() == old(self).status_bar_position_spec(),
            final(self).frozen_spec() == old(self).frozen_spec(),
    {
        self.mode = mode;
    }

    /// The index of the current image for the mode.
    pub fn current_image(&self) -> (r: usize)
        ensures
            r == self.current_image_spec(),
    {
        match self.mode {
            Mode::Image => self.current_open_image(),
            Mode::Gallery => self.gallery_cursor(),
        }
    }

    /// The number of images.
    pub fn total_images(&self) -> (r: usize)
        ensures
            r == self.len_spec(),
    {
        self.images.len()
    }

    /// The image at `index`.
    pub fn get_image(&self, index: usize) -> (r: &Image<T>)
        requires
            index < self.len_spec(),
        ensures
            *r == self.images_spec()[index as int],
    {
        &self.images[index]
    }

    /// Whether drawing is suspended.
    pub fn frozen(&self) -> (r: bool)
        ensures
            r == self.frozen_spec(),
    {
        self.frozen
    }

    /// Suspend or resume drawing.
    pub fn set_frozen(&mut self, frozen: bool)
        ensures
            final(self).frozen_spec() == frozen,
            final(self).mode_spec() == old(self).mode_spec(),
            final(self).images_spec() == old(self).images_spec(),
            final(self).current_open_spec() == old(self).current_open_spec(),
            final(self).preload_spec() == old(self).preload_spec(),
            final(self).gallery_spec() == old(self).gallery_spec(),
            final(self).save_thumbnails_spec() == old(self).save_thumbnails_spec(),
            final(self).image_mode_status_bar_spec() == old(self).image_mode_status_bar_spec(),
            final(self).status_bar_position_spec() == old(self).status_bar_position_spec(),
    {
        self.frozen = frozen;
    }

    /// The image open in the image view.
    pub fn current_open_image(&self) -> (r: usize)
        ensures
            r == self.current_open_spec(),
    {
        self.current_open
    }

    /// Open the image at `index` in the image view.
    pub fn set_full_image(&mut self, index: usize)
        requires
            index < old(self).len_spec(),
        ensures
            final(self).current_open_spec() == index,
            final(self).mode_spec() == old(self).mode_spec(),
            final(self).images_spec() == old(self).images_spec(),
            final(self).preload_spec() == old(self).preload_spec(),
            final(self).gallery_spec() == old(self).gallery_spec(),
            final(self).save_thumbnails_spec() == old(self).save_thumbnails_spec(),
            final(self).image_mode_status_bar_spec() == old(self).image_mode_status_bar_spec(),
            final(self).status_bar_position_spec() == old(self).status_bar_position_spec(),
            final(self).frozen_spec() == old(self).frozen_spec(),
    {
        self.current_open = index;
    }

    /// Set how many images to preload forwards and backwards of the open image.
    pub fn set_preload_range(&mut self, forward: usize, backward: usize)
        ensures
            final(self).preload_spec() == (forward as nat, backward as nat),
            final(self).mode_spec() == old(self).mode_spec(),
            final(self).images_spec() == old(self).images_spec(),
            final(self).current_open_spec() == old(self).current_open_spec(),
            final(self).gallery_spec() == old(self).gallery_spec(),
            final(self).save_thumbnails_spec() == old(self).save_thumbnails_spec(),
            final(self).image_mode_status_bar_spec() == old(self).image_mode_status_bar_spec(),
            final(self).status_bar_position_spec() == old(self).status_bar_position_spec(),
            final(self).frozen_spec() == old(self).frozen_spec(),
    {
        self.preload_forward = forward;
        self.preload_backward = backward;
    }

    /// The position of the gallery cursor.
    pub fn gallery_cursor(&self) -> (r: usize)
        ensures
            r == self.gallery_spec().cursor_spec(),
    {
        self.gallery.cursor()
    }

    /// Move the gallery cursor to `index`, scrolling the grid to show it.
    pub fn set_gallery_cursor(&mut self, index: usize, tiling: Option<Tiling>)
        requires
            old(self).wf(),
            index < old(self).len_spec(),
        ensures
            final(self).wf(),
            final(self).gallery_spec().cursor_spec() == index,
            tiling matches Some(t) ==> final(self).gallery_spec().shows(t, index as nat),
            final(self).mode_spec() == old(self).mode_spec(),
            final(self).images_spec() == old(self).images_spec(),
            final(self).current_open_spec() == old(self).current_open_spec(),
            final(self).preload_spec() == old(self).preload_spec(),
            final(self).save_thumbnails_spec() == old(self).save_thumbnails_spec(),
            final(self).image_mode_status_bar_spec() == old(self).image_mode_status_bar_spec(),
            final(self).status_bar_position_spec() == old(self).status_bar_position_spec(),
            final(self).frozen_spec() == old(self).frozen_spec(),
    {
        self.gallery.set_cursor(index, tiling);
    }

    /// The number of tiles in a row of the gallery, or 0 where there is no grid.
    pub fn gallery_tiles_in_row(&self, tiling: Option<Tiling>) -> (r: usize)
        ensures
            tiling is None ==> r == 0,
            tiling matches Some(t) ==> r == t.row_spec(),
    {
        self.gallery.tiles_in_row(tiling)
    }

    /// The first visible image of the gallery and the number of visible
    /// tiles, or `None` where there is no grid.
    pub fn gallery_load_range(&self, tiling: Option<Tiling>) -> (r: Option<(usize, usize)>)
        ensures
            tiling is None ==> r is None,
            tiling matches Some(t) ==> r matches Some(p) && (p.0 as nat, p.1 as nat)
                == self.gallery_spec().visible_range_spec(t),
    {
        self.gallery.load_range(tiling)
    }

    /// Whether generated thumbnails are saved.
    pub fn save_thumbnails(&self) -> (r: bool)
        ensures
            r == self.save_thumbnails_spec(),
    {
        self.save_thumbnails
    }

    /// Set whether generated thumbnails are saved.
    pub fn set_save_thumbnails(&mut self, save: bool)
        ensures
            final(self).save_thumbnails_spec() == save,
            final(self).mode_spec() == old(self).mode_spec(),
            final(self).images_spec() == old(self).images_spec(),
            final(self).current_open_spec() == old(self).current_open_spec(),
            final(self).preload_spec() == old(self).preload_spec(),
            final(self).gallery_spec() == old(self).gallery_spec(),
            final(self).image_mode_status_bar_spec() == old(self).image_mode_status_bar_spec(),
            final(self).status_bar_position_spec() == old(self).status_bar_position_spec(),
            final(self).frozen_spec() == old(self).frozen_spec(),
    {
        self.save_thumbnails = save;
    }

    /// Whether the status bar is shown in the image view.
    pub fn image_mode_status_bar(&self) -> (r: bool)
        ensures
            r == self.image_mode_status_bar_spec(),
    {
        self.image_mode_status_bar
    }

    /// Set whether the status bar is shown in the image view.
    pub fn set_image_mode_status_bar(&mut self, on: bool)
        ensures
            final(self).image_mode_status_bar_spec() == on,
            final(self).mode_spec() == old(self).mode_spec(),
            final(self).images_spec() == old(self).images_spec(),
            final(self).current_open_spec() == old(self).current_open_spec(),
            final(self).preload_spec() == old(self).preload_spec(),
            final(self).gallery_spec() == old(self).gallery_spec(),
            final(self).save_thumbnails_spec() == old(self).save_thumbnails_spec(),
            final(self).status_bar_position_spec() == old(self).status_bar_position_spec(),
            final(self).frozen_spec() == old(self).frozen_spec(),
    {
        self.image_mode_status_bar = on;
    }

    /// The position of the status bar.
    pub fn status_bar_position(&self) -> (r: StatusBarPosition)
        ensures
            r == self.status_bar_position_spec(),
    {
        self.status_bar_position
    }

    /// Set the position of the status bar.
    pub fn set_status_bar_position(&mut self, position: StatusBarPosition)
        ensures
            final(self).status_bar_position_spec() == position,
            final(self).mode_spec() == old(self).mode_spec(),
            final(self).images_spec() == old(self).images_spec(),
            final(self).current_open_spec() == old(self).current_open_spec(),
            final(self).preload_spec() == old(self).preload_spec(),
            final(self).gallery_spec() == old(self).gallery_spec(),
            final(self).save_thumbnails_spec() == old(self).save_thumbnails_spec(),
            final(self).image_mode_status_bar_spec() == old(self).image_mode_status_bar_spec(),
            final(self).frozen_spec() == old(self).frozen_spec(),
    {
        self.status_bar_position = position;
    }

    /// Whether the status bar is visible: in the gallery always, in the
    /// image view as set.
    pub fn show_status_bar(&self) -> (r: bool)
        ensures
            r == match self.mode_spec() {
                Mode::Image => self.image_mode_status_bar_spec(),
                Mode::Gallery => true,
            },
    {
        match self.mode {
            Mode::Image => self.image_mode_status_bar,
            Mode::Gallery => true,
        }
    }
}

impl<T> RLens<T> {
    /// The index of the closest slot of kind `type_` to load around `from`.
    fn closest_unloaded(&self, from: usize, forward: usize, backward: usize, type_: ImageType) -> (r:
        Option<usize>)
        requires
            self.wf(),
            from < self.len_spec(),
        ensures
            r is None <==> !exists|i: int|
                is_candidate(
                    self.images_spec(),
                    from as int,
                    forward as int,
                    backward as int,
                    type_,
                    i,
                ),
            r matches Some(i) ==> is_closest(
                self.images_spec(),
                from as int,
                forward as int,
                backward as int,
                type_,
                i as int,
            ),
    {
        let n = self.images.len();
        let ghost images = self.images_spec();
        // The closest candidate so far, with its sort key
        let mut best: Option<(usize, usize)> = None;
        let mut i: usize = 0;
        while i < n
            invariant
                n == images.len(),
                images == self.images_spec(),
                from < n,
                0 <= i <= n,
                best is None ==> forall|j: int|
                    0 <= j < i ==> !is_candidate(
                        images,
                        from as int,
                        forward as int,
                        backward as int,
                        type_,
                        j,
                    ),
                best matches Some(b) ==> {
                    &&& b.0 < i
                    &&& is_candidate(
                        images,
                        from as int,
                        forward as int,
                        backward as int,
                        type_,
                        b.0 as int,
                    )
                    &&& b.1 == closeness(from as int, b.0 as int, n as int)
                    &&& forall|j: int|
                        0 <= j < i && is_candidate(
                            images,
                            from as int,
                            forward as int,
                            backward as int,
                            type_,
                            j,
                        ) ==> closeness(from as int, b.0 as int, n as int) <= closeness(
                            from as int,
                            j,
                            n as int,
                        )
                },
            decreases n - i,
        {
            let offset = Offset::calculate(from, i, n);
            let image = &self.images[i];
            let slot = match type_ {
                ImageType::Full => image.full(),
                ImageType::Thumbnail => image.thumbnail(),
            };
            proof {
                assert(slots(images, type_)[i as int] == *slot);
            }
            if offset.in_range(forward, backward) && !slot.is_loaded() && !image.is_unloadable() {
                let key = offset.key();
                let closer = match best {
                    Some((_, best_key)) => key < best_key,
                    None => true,
                };
                if closer {
                    best = Some((i, key));
                }
            }
            i += 1;
        }
        match best {
            Some((index, _)) => Some(index),
            None => None,
        }
    }

    /// Poll for the next full image to load: the closest one to the open image
    /// within the preload window that is neither loaded nor unloadable.
    fn poll_full_load(&self) -> (r: Option<FullRequest>)
        requires
            self.wf(),
        ensures
            r is None <==> !exists|i: int| self.full_candidate(i),
            r matches Some(req) ==> {
                &&& self.is_next_full(req.details.index as int)
                &&& req.details.path@ == self.images_spec()[req.details.index as int].path_spec()
            },
    {
        let closest = self.closest_unloaded(
            self.current_open,
            self.preload_forward,
            self.preload_backward,
            ImageType::Full,
        );
        proof {
            let (from, f, b) = (
                self.current_open as int,
                self.preload_forward as int,
                self.preload_backward as int,
            );
            if exists|i: int| self.full_candidate(i) {
                let i = choose|i: int| self.full_candidate(i);
                assert(is_candidate(self.images_spec(), from, f, b, ImageType::Full, i));
            }
            if exists|i: int| is_candidate(self.images_spec(), from, f, b, ImageType::Full, i) {
                let i = choose|i: int|
                    is_candidate(self.images_spec(), from, f, b, ImageType::Full, i);
                assert(self.full_candidate(i));
            }
        }
        match closest {
            Some(index) => Some(FullRequest::for_image(index, &self.images[index])),
            None => None,
        }
    }

    /// Poll for the next thumbnail to load: the closest one to the first
    /// visible tile within the visible tiles that is neither loaded nor unloadable.
    fn poll_thumbnail_load(&self, tiling: Option<Tiling>) -> (r: Option<ThumbnailRequest>)
        requires
            self.wf(),
        ensures
            r is None <==> !exists|i: int| self.thumbnail_candidate(tiling, i),
            r matches Some(req) ==> {
                &&& self.is_next_thumbnail(tiling, req.details.index as int)
                &&& req.details.path@ == self.images_spec()[req.details.index as int].path_spec()
                &&& req.save == self.save_thumbnails_spec()
            },
    {
        let (first, tiles) = match self.gallery.load_range(tiling) {
            Some(range) => range,
            None => (0, 0),
        };
        let closest = self.closest_unloaded(first, tiles, 0, ImageType::Thumbnail);
        proof {
            let (f, t) = (first as int, tiles as int);
            if exists|i: int| self.thumbnail_candidate(tiling, i) {
                let i = choose|i: int| self.thumbnail_candidate(tiling, i);
                assert(is_candidate(self.images_spec(), f, t, 0, ImageType::Thumbnail, i));
            }
            if exists|i: int| is_candidate(self.images_spec(), f, t, 0, ImageType::Thumbnail, i) {
                let i = choose|i: int|
                    is_candidate(self.images_spec(), f, t, 0, ImageType::Thumbnail, i);
                assert(self.thumbnail_candidate(tiling, i));
            }
        }
        match closest {
            Some(index) => Some(
                ThumbnailRequest::for_image(index, &self.images[index], self.save_thumbnails),
            ),
            None => None,
        }
    }

    /// Poll for a load request for the current mode: a full image in the
    /// image view, a thumbnail in the gallery.
    /// `None` when everything within the load range is loaded or unloadable.
    pub fn poll_loads(&self, tiling: Option<Tiling>) -> (r: Option<LoadRequest>)
        requires
            self.wf(),
        ensures
            r is None <==> !self.has_work(tiling),
            r matches Some(req) ==> self.is_next_request(tiling, req),
            self.mode_spec() == Mode::Image ==> {
                &&& r is None <==> !exists|i: int| self.full_candidate(i)
                &&& r is None || r.unwrap() is Full
                &&& r matches Some(LoadRequest::Full(req)) ==> {
                    &&& self.is_next_full(req.details.index as int)
                    &&& req.details.path@ == self.images_spec()[req.details.index as int].path_spec()
                }
            },
            self.mode_spec() == Mode::Gallery ==> {
                &&& r is None <==> !exists|i: int| self.thumbnail_candidate(tiling, i)
                &&& r is None || r.unwrap() is Thumbnail
                &&& r matches Some(LoadRequest::Thumbnail(req)) ==> {
                    &&& self.is_next_thumbnail(tiling, req.details.index as int)
                    &&& req.details.path@ == self.images_spec()[req.details.index as int].path_spec()
                    &&& req.save == self.save_thumbnails_spec()
                }
            },
    {
        match self.mode {
            Mode::Image => match self.poll_full_load() {
                Some(req) => Some(LoadRequest::Full(req)),
                None => None,
            },
            Mode::Gallery => match self.poll_thumbnail_load(tiling) {
                Some(req) => Some(LoadRequest::Thumbnail(req)),
                None => None,
            },
        }
    }
}

// === Modes ===
impl<T> RLens<T> {
    /// Switch to the mode `target`. Going from the image view to the gallery
    /// puts the gallery cursor on the open image.
    /// Returns whether the mode changed.
    pub fn switch_mode(&mut self, target: Mode, tiling: Option<Tiling>) -> (r: bool)
        requires
            old(self).wf(),
        ensures
            final(self).wf(),
            r == (old(self).mode_spec() != target),
            !r ==> *final(self) == *old(self),
            final(self).mode_spec() == target,
            final(self).images_spec() == old(self).images_spec(),
            final(self).current_open_spec() == old(self).current_open_spec(),
            (old(self).mode_spec() == Mode::Image && target == Mode::Gallery) ==> final(self).gallery_spec().cursor_spec() == old(self).current_open_spec(),
            !(old(self).mode_spec() == Mode::Image && target == Mode::Gallery) ==> final(self).gallery_spec() == old(self).gallery_spec(),
            final(self).preload_spec() == old(self).preload_spec(),
            final(self).save_thumbnails_spec() == old(self).save_thumbnails_spec(),
            final(self).image_mode_status_bar_spec() == old(self).image_mode_status_bar_spec(),
            final(self).status_bar_position_spec() == old(self).status_bar_position_spec(),
            final(self).frozen_spec() == old(self).frozen_spec(),
    {
        let current = self.mode;
        if current == target {
            return false;
        }
        // Carry the open image over to the gallery
        if current == Mode::Image && target == Mode::Gallery {
            let index = self.current_open;
            self.gallery.set_cursor(index, tiling);
        }
        self.mode = target;
        true
    }

    /// In the gallery, open the image under the cursor in the image view and
    /// switch to it. Returns whether anything changed.
    pub fn select(&mut self, tiling: Option<Tiling>) -> (r: bool)
        requires
            old(self).wf(),
        ensures
            final(self).wf(),
            r == (old(self).mode_spec() == Mode::Gallery),
            r ==> final(self).mode_spec() == Mode::Image && final(self).current_open_spec() == old(self).gallery_spec().cursor_spec(),
            !r ==> *final(self) == *old(self),
            final(self).images_spec() == old(self).images_spec(),
            final(self).gallery_spec() == old(self).gallery_spec(),
    {
        if self.mode == Mode::Gallery {
            let cursor = self.gallery.cursor();
            self.current_open = cursor;
            self.mode = Mode::Image;
            true
        } else {
            false
        }
    }
}

// === Image loading ===
impl<T> RLens<T> {
    /// Set a full image or a thumbnail as loaded, with the metadata of its source.
    /// Returns whether a redraw is needed and whether the current image was loaded.
    pub fn set_loaded(&mut self, type_: ImageType, index: usize, loaded: T, metadata: Metadata) -> (r:
        (bool, bool))
        requires
            old(self).wf(),
            index < old(self).len_spec(),
            slots(old(self).images_spec(), type_)[index as int] is Unloaded,
        ensures
            final(self).wf(),
            final(self).same_settings(old(self)),
            final(self).same_images_but(old(self), index as int),
            ({
                let (new, old_image) = (
                    final(self).images_spec()[index as int],
                    old(self).images_spec()[index as int],
                );
                &&& new.path_spec() == old_image.path_spec()
                &&& new.metadata_spec() == LoadState::Loaded(metadata)
                &&& type_ == ImageType::Full ==> {
                    &&& new.full_spec() == LoadState::Loaded(loaded)
                    &&& new.thumbnail_spec() == old_image.thumbnail_spec()
                    &&& !new.unloadable_spec()
                }
                &&& type_ == ImageType::Thumbnail ==> {
                    &&& new.thumbnail_spec() == LoadState::Loaded(loaded)
                    &&& new.full_spec() == old_image.full_spec()
                    &&& new.unloadable_spec() == old_image.unloadable_spec()
                }
            }),
            r == match (type_, old(self).mode_spec()) {
                (ImageType::Full, Mode::Image) => (
                    index == old(self).current_open_spec(),
                    index == old(self).current_open_spec(),
                ),
                (ImageType::Thumbnail, Mode::Gallery) => (
                    true,
                    index == old(self).gallery_spec().cursor_spec(),
                ),
                _ => (false, false),
            },
    {
        match type_ {
            ImageType::Full => self.images[index].load_full(loaded),
            ImageType::Thumbnail => self.images[index].load_thumbnail(loaded),
        }
        self.images[index].set_metadata(metadata);

        match (type_, self.mode) {
            (ImageType::Full, Mode::Image) => {
                let loaded_current = self.current_open == index;
                (loaded_current, loaded_current)
            },
            (ImageType::Thumbnail, Mode::Gallery) => (true, self.gallery.cursor() == index),
            _ => (false, false),
        }
    }

    /// Mark the source of an image as unloadable.
    pub fn mark_unloadable(&mut self, index: usize)
        requires
            old(self).wf(),
            index < old(self).len_spec(),
            old(self).images_spec()[index as int].full_spec() is Unloaded,
        ensures
            final(self).wf(),
            final(self).same_settings(old(self)),
            final(self).same_images_but(old(self), index as int),
            ({
                let (new, old_image) = (
                    final(self).images_spec()[index as int],
                    old(self).images_spec()[index as int],
                );
                &&& new.unloadable_spec()
                &&& new.path_spec() == old_image.path_spec()
                &&& new.full_spec() == old_image.full_spec()
                &&& new.thumbnail_spec() == old_image.thumbnail_spec()
                &&& new.metadata_spec() == old_image.metadata_spec()
            }),
    {
        self.images[index].mark_unloadable();
    }

    /// Unload the full image and the thumbnail at `index`, and hand back what
    /// was loaded (full image, thumbnail) for teardown.
    /// The source is no longer taken as unloadable, so that its load is tried again.
    pub fn unload_image(&mut self, index: usize) -> (r: (Option<T>, Option<T>))
        requires
            old(self).wf(),
            index < old(self).len_spec(),
        ensures
            final(self).wf(),
            final(self).same_settings(old(self)),
            final(self).same_images_but(old(self), index as int),
            ({
                let (new, old_image) = (
                    final(self).images_spec()[index as int],
                    old(self).images_spec()[index as int],
                );
                &&& new.full_spec() is Unloaded
                &&& new.thumbnail_spec() is Unloaded
                &&& !new.unloadable_spec()
                &&& new.path_spec() == old_image.path_spec()
                &&& new.metadata_spec() == old_image.metadata_spec()
                &&& r == (old_image.full_spec().item(), old_image.thumbnail_spec().item())
            }),
    {
        let full = self.images[index].unload_full();
        let thumbnail = self.images[index].unload_thumbnail();
        self.images[index].forget_unloadable();
        (full, thumbnail)
    }
}

// === Eviction ===
impl<T> RLens<T> {
    /// Unload the slots of kind `type_` outside the window of `forward` and
    /// `backward` steps around `from`, and hand back what they held.
    fn evict(&mut self, type_: ImageType, from: usize, forward: usize, backward: usize) -> (r: Vec<
        T,
    >)
        requires
            old(self).wf(),
            from < old(self).len_spec(),
        ensures
            final(self).wf(),
            final(self).same_settings(old(self)),
            final(self).len_spec() == old(self).len_spec(),
            forall|j: int|
                0 <= j < old(self).len_spec() ==> {
                    let (new, old_image) = (
                        #[trigger] final(self).images_spec()[j],
                        old(self).images_spec()[j],
                    );
                    &&& new.path_spec() == old_image.path_spec()
                    &&& new.metadata_spec() == old_image.metadata_spec()
                    &&& new.unloadable_spec() == old_image.unloadable_spec()
                    &&& slots(final(self).images_spec(), type_)[j] == if in_window(
                        from as int,
                        j,
                        old(self).len_spec() as int,
                        forward as int,
                        backward as int,
                    ) {
                        slots(old(self).images_spec(), type_)[j]
                    } else {
                        LoadState::Unloaded
                    }
                    &&& type_ == ImageType::Full ==> new.thumbnail_spec()
                        == old_image.thumbnail_spec()
                    &&& type_ == ImageType::Thumbnail ==> new.full_spec() == old_image.full_spec()
                },
            r@ == evicted(
                slots(old(self).images_spec(), type_),
                old(self).len_spec() as int,
                from as int,
                forward as int,
                backward as int,
            ),
    {
        let n = self.images.len();
        let ghost old_images = self.images_spec();
        let ghost old_slots = slots(old_images, type_);
        let mut out: Vec<T> = Vec::new();
        let mut i: usize = 0;
        while i < n
            invariant
                self.wf(),
                self.same_settings(old(self)),
                n == self.len_spec(),
                n == old_images.len(),
                old_images == old(self).images_spec(),
                old_slots == slots(old_images, type_),
                from < n,
                0 <= i <= n,
                forall|j: int| i <= j < n ==> #[trigger] self.images_spec()[j] == old_images[j],
                forall|j: int|
                    0 <= j < i ==> {
                        let (new, old_image) = (#[trigger] self.images_spec()[j], old_images[j]);
                        &&& new.path_spec() == old_image.path_spec()
                        &&& new.metadata_spec() == old_image.metadata_spec()
                        &&& new.unloadable_spec() == old_image.unloadable_spec()
                        &&& slots(self.images_spec(), type_)[j] == if in_window(
                            from as int,
                            j,
                            n as int,
                            forward as int,
                            backward as int,
                        ) {
                            old_slots[j]
                        } else {
                            LoadState::Unloaded
                        }
                        &&& type_ == ImageType::Full ==> new.thumbnail_spec()
                            == old_image.thumbnail_spec()
                        &&& type_ == ImageType::Thumbnail ==> new.full_spec()
                            == old_image.full_spec()
                    },
                out@ == evicted(
                    old_slots.take(i as int),
                    n as int,
                    from as int,
                    forward as int,
                    backward as int,
                ),
            decreases n - i,
        {
            let offset = Offset::calculate(from, i, n);
            proof {
                assert(old_slots.take(i + 1).drop_last() =~= old_slots.take(i as int));
                assert(old_slots.take(i + 1)[i as int] == old_slots[i as int]);
            }
            if !offset.in_range(forward, backward) {
                let unloaded = match type_ {
                    ImageType::Full => self.images[i].unload_full(),
                    ImageType::Thumbnail => self.images[i].unload_thumbnail(),
                };
                match unloaded {
                    Some(x) => out.push(x),
                    None => {},
                }
            }
            i += 1;
        }
        proof {
            assert(old_slots.take(n as int) =~= old_slots);
        }
        out
    }

    /// Unload the images outside the load range, and hand back what they held
    /// for teardown: first the full images outside the preload window around
    /// the open image, then the thumbnails outside the visible tiles.
    pub fn unload_images(&mut self, tiling: Option<Tiling>) -> (r: Vec<T>)
        requires
            old(self).wf(),
        ensures
            final(self).wf(),
            final(self).same_settings(old(self)),
            final(self).len_spec() == old(self).len_spec(),
            forall|j: int|
                0 <= j < old(self).len_spec() ==> {
                    let (new, old_image) = (
                        #[trigger] final(self).images_spec()[j],
                        old(self).images_spec()[j],
                    );
                    let (first, tiles) = old(self).thumbnail_window(tiling);
                    &&& new.path_spec() == old_image.path_spec()
                    &&& new.metadata_spec() == old_image.metadata_spec()
                    &&& new.unloadable_spec() == old_image.unloadable_spec()
                    &&& new.full_spec() == if in_window(
                        old(self).current_open_spec() as int,
                        j,
                        old(self).len_spec() as int,
                        old(self).preload_spec().0 as int,
                        old(self).preload_spec().1 as int,
                    ) {
                        old_image.full_spec()
                    } else {
                        LoadState::Unloaded
                    }
                    &&& new.thumbnail_spec() == if in_window(
                        first as int,
                        j,
                        old(self).len_spec() as int,
                        tiles as int,
                        0,
                    ) {
                        old_image.thumbnail_spec()
                    } else {
                        LoadState::Unloaded
                    }
                },
            r@ == evicted(
                slots(old(self).images_spec(), ImageType::Full),
                old(self).len_spec() as int,
                old(self).current_open_spec() as int,
                old(self).preload_spec().0 as int,
                old(self).preload_spec().1 as int,
            ) + evicted(
                slots(old(self).images_spec(), ImageType::Thumbnail),
                old(self).len_spec() as int,
                old(self).thumbnail_window(tiling).0 as int,
                old(self).thumbnail_window(tiling).1 as int,
                0,
            ),
    {
        let ghost old_images = self.images_spec();
        let mut out = self.evict(
            ImageType::Full,
            self.current_open,
            self.preload_forward,
            self.preload_backward,
        );
        proof {
            assert(slots(self.images_spec(), ImageType::Thumbnail) =~= slots(
                old_images,
                ImageType::Thumbnail,
            ));
        }
        let ghost middle = self.images_spec();
        let (first, tiles) = match self.gallery.load_range(tiling) {
            Some(range) => range,
            None => (0, 0),
        };
        let mut thumbnails = self.evict(ImageType::Thumbnail, first, tiles, 0);
        proof {
            assert forall|j: int| 0 <= j < old_images.len() implies {
                &&& #[trigger] self.images_spec()[j].full_spec() == middle[j].full_spec()
                &&& slots(self.images_spec(), ImageType::Thumbnail)[j]
                    == self.images_spec()[j].thumbnail_spec()
                &&& slots(middle, ImageType::Full)[j] == middle[j].full_spec()
                &&& slots(old_images, ImageType::Thumbnail)[j] == old_images[j].thumbnail_spec()
                &&& slots(old_images, ImageType::Full)[j] == old_images[j].full_spec()
            } by {
                assert(self.images_spec()[j] == self.images_spec()[j]);
            }
        }
        out.append(&mut thumbnails);
        out
    }
}

// === Bounds ===
/// The positions of the loaded slots.
pub open spec fn loaded_positions<T>(slots: Seq<LoadState<T>>) -> Set<int> {
    Set::new(|j: int| 0 <= j < slots.len() && slots[j] is Loaded)
}

/// The positions within `forward` steps forwards or `backward` steps
/// backwards of `from`, in a cyclic list of `length`.
pub open spec fn window_positions(from: int, length: int, forward: int, backward: int) -> Set<int> {
    Set::new(|j: int| 0 <= j < length && in_window(from, j, length, forward, backward))
}

/// The position `steps` forwards of `from`, for fewer than `length` steps.
pub open spec fn step_forward(from: int, length: int, steps: int) -> int {
    if from + steps < length {
        from + steps
    } else {
        from + steps - length
    }
}

/// A window of `forward` steps forwards and `backward` steps backwards holds
/// at most `forward + backward + 1` positions.
pub proof fn lemma_window_size(from: int, length: int, forward: int, backward: int)
    requires
        0 <= from < length,
        forward >= 0,
        backward >= 0,
    ensures
        window_positions(from, length, forward, backward).finite(),
        window_positions(from, length, forward, backward).len() <= forward + backward + 1,
{
    let window = window_positions(from, length, forward, backward);
    let steps = set_int_range(0, forward + 1).union(set_int_range(length - backward, length));
    let to_position = |k: int| step_forward(from, length, k);
    lemma_int_range(0, forward + 1);
    lemma_int_range(length - backward, length);
    lemma_len_union(set_int_range(0, forward + 1), set_int_range(length - backward, length));
    lemma_map_size_bound(steps, steps.map(to_position), to_position);
    assert forall|j: int| window.contains(j) implies steps.map(to_position).contains(j) by {
        let k = forward_steps(from, j, length);
        assert(steps.contains(k));
        assert(to_position(k) == j);
    }
    lemma_len_subset(window, steps.map(to_position));
}

/// Once every full image outside the preload window around the open image
/// is unloaded (as an eviction sweep leaves the table), at most
/// `forward + backward + 1` full images are loaded.
pub proof fn lemma_eviction_bound<T>(r: RLens<T>)
    requires
        r.wf(),
        forall|j: int|
            0 <= j < r.len_spec() && !in_window(
                r.current_open_spec() as int,
                j,
                r.len_spec() as int,
                r.preload_spec().0 as int,
                r.preload_spec().1 as int,
            ) ==> (#[trigger] r.images_spec()[j]).full_spec() is Unloaded,
    ensures
        loaded_positions(slots(r.images_spec(), ImageType::Full)).finite(),
        loaded_positions(slots(r.images_spec(), ImageType::Full)).len() <= r.preload_spec().0
            + r.preload_spec().1 + 1,
{
    let (from, length) = (r.current_open_spec() as int, r.len_spec() as int);
    let (forward, backward) = (r.preload_spec().0 as int, r.preload_spec().1 as int);
    let loaded = loaded_positions(slots(r.images_spec(), ImageType::Full));
    lemma_window_size(from, length, forward, backward);
    assert forall|j: int| loaded.contains(j) implies window_positions(
        from,
        length,
        forward,
        backward,
    ).contains(j) by {
        assert(slots(r.images_spec(), ImageType::Full)[j] == r.images_spec()[j].full_spec());
    }
    lemma_len_subset(loaded, window_positions(from, length, forward, backward));
}

} // verus!
