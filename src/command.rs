//! The commands that scripts run on the viewer, and the navigation of the
//! image list that the image view and the gallery share.
//!
//! The navigation functions take the current index and the number of images,
//! and give the index to go to, or `None` where the position stays as it is.
//!
//! A command changes the table and says in an `Outcome` what the program
//! must do after it: redraw, offer the load worker new work, reset the view
//! of the open image, or exit.

use vstd::prelude::*;

use crate::gallery::Tiling;
use crate::hooks::Hooks;
use crate::image_transform;
use crate::rlens;
use crate::rlens::RLens;
use crate::status_bar;

verus! {

/// Convert a position (`1` for the first image) into an index.
/// `None` where the position is out of range.
pub fn validate_position(pos: usize, total: usize) -> (r: Option<usize>)
    ensures
        r is None <==> (pos < 1 || pos > total),
        r matches Some(i) ==> i == pos - 1,
{
    if pos < 1 || pos > total {
        None
    } else {
        Some(pos - 1)
    }
}

/// Go to the position `pos`: the index to move to, or `Ok(None)` where it is
/// the current one; `Err(pos)` where `pos` is out of range.
pub fn goto(pos: usize, current: usize, total: usize) -> (r: Result<Option<usize>, usize>)
    ensures
        (pos < 1 || pos > total) ==> r == Err::<Option<usize>, usize>(pos),
        (1 <= pos <= total && pos - 1 != current) ==> r == Ok::<Option<usize>, usize>(
            Some((pos - 1) as usize),
        ),
        (1 <= pos <= total && pos - 1 == current) ==> r == Ok::<Option<usize>, usize>(None),
{
    match validate_position(pos, total) {
        Some(index) => if index != current {
            Ok(Some(index))
        } else {
            Ok(None)
        },
        None => Err(pos),
    }
}

/// The next image; none after the last.
pub fn next(current: usize, total: usize) -> (r: Option<usize>)
    requires
        current < total,
    ensures
        current + 1 < total ==> r == Some((current + 1) as usize),
        current + 1 >= total ==> r is None,
{
    if current < total - 1 {
        Some(current + 1)
    } else {
        None
    }
}

/// The next image, wrapping from the last to the first.
pub fn next_wrapping(current: usize, total: usize) -> (r: Option<usize>)
    requires
        current < total,
    ensures
        current + 1 < total ==> r == Some((current + 1) as usize),
        current + 1 >= total && current != 0 ==> r == Some(0usize),
        current + 1 >= total && current == 0 ==> r is None,
{
    let new_index = if current < total - 1 {
        current + 1
    } else {
        0
    };
    if new_index != current {
        Some(new_index)
    } else {
        None
    }
}

/// The previous image; none before the first.
pub fn prev(current: usize) -> (r: Option<usize>)
    ensures
        current > 0 ==> r == Some((current - 1) as usize),
        current == 0 ==> r is None,
{
    if current > 0 {
        Some(current - 1)
    } else {
        None
    }
}

/// The previous image, wrapping from the first to the last.
pub fn prev_wrapping(current: usize, total: usize) -> (r: Option<usize>)
    requires
        current < total,
    ensures
        current > 0 ==> r == Some((current - 1) as usize),
        current == 0 && total > 1 ==> r == Some((total - 1) as usize),
        current == 0 && total == 1 ==> r is None,
{
    let new_index = if current > 0 {
        current - 1
    } else {
        total - 1
    };
    if new_index != current {
        Some(new_index)
    } else {
        None
    }
}

/// The first image, unless it is the current one.
pub fn first(current: usize) -> (r: Option<usize>)
    ensures
        current != 0 ==> r == Some(0usize),
        current == 0 ==> r is None,
{
    if current != 0 {
        Some(0)
    } else {
        None
    }
}

/// The last image, unless it is the current one.
pub fn last(current: usize, total: usize) -> (r: Option<usize>)
    requires
        total > 0,
    ensures
        current != total - 1 ==> r == Some((total - 1) as usize),
        current == total - 1 ==> r is None,
{
    let last_index = total - 1;
    if current != last_index {
        Some(last_index)
    } else {
        None
    }
}

/// Move the gallery cursor one row down (`down`) or up, with `tiles_in_row`
/// tiles to a row; none where that leaves the list.
pub fn gallery_vertical_move(down: bool, current: usize, tiles_in_row: usize, total: usize) -> (r:
    Option<usize>)
    requires
        current < total,
    ensures
        down && current + tiles_in_row < total ==> r == Some((current + tiles_in_row) as usize),
        down && current + tiles_in_row >= total ==> r is None,
        !down && current >= tiles_in_row ==> r == Some((current - tiles_in_row) as usize),
        !down && current < tiles_in_row ==> r is None,
{
    if down {
        if tiles_in_row < total - current {
            Some(current + tiles_in_row)
        } else {
            None
        }
    } else {
        if current >= tiles_in_row {
            Some(current - tiles_in_row)
        } else {
            None
        }
    }
}

// === Commands ===
/// What the program must do after a command.
#[derive(Clone, Copy, PartialEq, Eq, Structural, Debug)]
pub struct Outcome {
    /// Draw the window again
    pub redraw: bool,
    /// Offer the load worker a request, if it waits for one
    pub wake_loader: bool,
    /// Reset the view of the open image (to fit its new options or a new image)
    pub reset_view: bool,
    /// Leave the program
    pub exit: bool,
}

/// Nothing to do.
pub open spec fn nothing() -> Outcome {
    Outcome { redraw: false, wake_loader: false, reset_view: false, exit: false }
}

/// A redraw, where `redraw` holds.
pub open spec fn redraw_if(redraw: bool) -> Outcome {
    Outcome { redraw, wake_loader: false, reset_view: false, exit: false }
}

/// What follows a move of the image view in `mode`.
pub open spec fn image_moved(mode: rlens::Mode) -> Outcome {
    Outcome { redraw: mode == rlens::Mode::Image, wake_loader: true, reset_view: true, exit: false }
}

/// What follows a move of the gallery cursor in `mode`.
pub open spec fn gallery_moved(mode: rlens::Mode) -> Outcome {
    Outcome { redraw: mode == rlens::Mode::Gallery, wake_loader: true, reset_view: false, exit: false }
}

fn outcome(redraw: bool, wake_loader: bool, reset_view: bool) -> (r: Outcome)
    ensures
        r == (Outcome { redraw, wake_loader, reset_view, exit: false }),
{
    Outcome { redraw, wake_loader, reset_view, exit: false }
}

/// `new` is `old` with the hook for a change of the current image set off
/// where `fired` holds.
pub open spec fn hooks_fired(old: Hooks, new: Hooks, fired: bool) -> bool {
    &&& new.current_image_change_spec() == (old.current_image_change_spec() || fired)
    &&& new.transform_update_spec() == old.transform_update_spec()
}

/// The image view moved to `target`, or stayed where it is `None`.
pub open spec fn image_nav<T>(
    old: RLens<T>,
    new: RLens<T>,
    old_hooks: Hooks,
    new_hooks: Hooks,
    target: Option<nat>,
    r: Outcome,
) -> bool {
    match target {
        Some(i) => {
            &&& new.current_open_spec() == i
            &&& new.same_but_open(&old)
            &&& r == image_moved(old.mode_spec())
            &&& hooks_fired(old_hooks, new_hooks, old.mode_spec() == rlens::Mode::Image)
        },
        None => new == old && new_hooks == old_hooks && r == nothing(),
    }
}

/// The gallery cursor moved to `target`, or stayed where it is `None`.
pub open spec fn gallery_nav<T>(
    old: RLens<T>,
    new: RLens<T>,
    old_hooks: Hooks,
    new_hooks: Hooks,
    tiling: Option<Tiling>,
    target: Option<nat>,
    r: Outcome,
) -> bool {
    match target {
        Some(i) => {
            &&& new.gallery_spec().cursor_spec() == i
            &&& (tiling matches Some(t) ==> new.gallery_spec().shows(t, i))
            &&& new.same_but_gallery(&old)
            &&& r == gallery_moved(old.mode_spec())
            &&& hooks_fired(old_hooks, new_hooks, old.mode_spec() == rlens::Mode::Gallery)
        },
        None => new == old && new_hooks == old_hooks && r == nothing(),
    }
}

/// Open the image at `index` in the image view.
fn goto_image<T>(rlens: &mut RLens<T>, hooks: &mut Hooks, index: usize) -> (r: Outcome)
    requires
        old(rlens).wf(),
        index < old(rlens).len_spec(),
    ensures
        final(rlens).wf(),
        image_nav(*old(rlens), *final(rlens), *old(hooks), *final(hooks), Some(index as nat), r),
{
    rlens.set_full_image(index);
    let in_view = rlens.mode() == rlens::Mode::Image;
    if in_view {
        hooks.current_image_change();
    }
    outcome(in_view, true, true)
}

/// Move the gallery cursor to `index`.
fn goto_gallery<T>(rlens: &mut RLens<T>, hooks: &mut Hooks, index: usize, tiling: Option<Tiling>) -> (r:
    Outcome)
    requires
        old(rlens).wf(),
        index < old(rlens).len_spec(),
    ensures
        final(rlens).wf(),
        gallery_nav(
            *old(rlens),
            *final(rlens),
            *old(hooks),
            *final(hooks),
            tiling,
            Some(index as nat),
            r,
        ),
{
    rlens.set_gallery_cursor(index, tiling);
    let in_view = rlens.mode() == rlens::Mode::Gallery;
    if in_view {
        hooks.current_image_change();
    }
    outcome(in_view, true, false)
}

/// Move the image view to `target`, if any.
fn move_image<T>(rlens: &mut RLens<T>, hooks: &mut Hooks, target: Option<usize>) -> (r: Outcome)
    requires
        old(rlens).wf(),
        target matches Some(i) ==> i < old(rlens).len_spec(),
    ensures
        final(rlens).wf(),
        image_nav(
            *old(rlens),
            *final(rlens),
            *old(hooks),
            *final(hooks),
            match target {
                Some(i) => Some(i as nat),
                None => None,
            },
            r,
        ),
{
    match target {
        Some(index) => goto_image(rlens, hooks, index),
        None => Outcome { redraw: false, wake_loader: false, reset_view: false, exit: false },
    }
}

/// Move the gallery cursor to `target`, if any.
fn move_gallery<T>(
    rlens: &mut RLens<T>,
    hooks: &mut Hooks,
    target: Option<usize>,
    tiling: Option<Tiling>,
) -> (r: Outcome)
    requires
        old(rlens).wf(),
        target matches Some(i) ==> i < old(rlens).len_spec(),
    ensures
        final(rlens).wf(),
        gallery_nav(
            *old(rlens),
            *final(rlens),
            *old(hooks),
            *final(hooks),
            tiling,
            match target {
                Some(i) => Some(i as nat),
                None => None,
            },
            r,
        ),
{
    match target {
        Some(index) => goto_gallery(rlens, hooks, index, tiling),
        None => Outcome { redraw: false, wake_loader: false, reset_view: false, exit: false },
    }
}

/// Leave the program.
#[derive(Debug)]
pub struct Exit;

impl Exit {
    pub fn run(&self) -> (r: Outcome)
        ensures
            r == (Outcome { redraw: false, wake_loader: false, reset_view: false, exit: true }),
    {
        Outcome { redraw: false, wake_loader: false, reset_view: false, exit: true }
    }
}

/// Switch to a mode.
#[derive(Debug)]
pub struct Mode(pub rlens::Mode);

impl Mode {
    pub fn run<T>(&self, rlens: &mut RLens<T>, hooks: &mut Hooks, tiling: Option<Tiling>) -> (r:
        Outcome)
        requires
            old(rlens).wf(),
        ensures
            final(rlens).wf(),
            final(rlens).mode_spec() == self.0,
            old(rlens).mode_spec() == self.0 ==> *final(rlens) == *old(rlens) && *final(hooks)
                == *old(hooks) && r == nothing(),
            old(rlens).mode_spec() != self.0 ==> {
                &&& r == (Outcome { redraw: true, wake_loader: true, reset_view: false, exit: false })
                &&& hooks_fired(*old(hooks), *final(hooks), true)
                &&& final(rlens).images_spec() == old(rlens).images_spec()
                &&& final(rlens).current_open_spec() == old(rlens).current_open_spec()
                &&& (old(rlens).mode_spec() == rlens::Mode::Image ==> final(rlens).gallery_spec().cursor_spec()
                    == old(rlens).current_open_spec())
            },
    {
        if rlens.switch_mode(self.0, tiling) {
            hooks.current_image_change();
            outcome(true, true, false)
        } else {
            Outcome { redraw: false, wake_loader: false, reset_view: false, exit: false }
        }
    }
}

/// The current mode.
#[derive(Debug)]
pub struct CurrentMode;

impl CurrentMode {
    pub fn run<T>(&self, rlens: &RLens<T>) -> (r: rlens::Mode)
        ensures
            r == rlens.mode_spec(),
    {
        rlens.mode()
    }
}

/// In the gallery, open the image under the cursor in the image view.
#[derive(Debug)]
pub struct Select;

impl Select {
    pub fn run<T>(&self, rlens: &mut RLens<T>, hooks: &mut Hooks, tiling: Option<Tiling>) -> (r:
        Outcome)
        requires
            old(rlens).wf(),
        ensures
            final(rlens).wf(),
            old(rlens).mode_spec() != rlens::Mode::Gallery ==> *final(rlens) == *old(rlens) && *final(
                hooks) == *old(hooks) && r == nothing(),
            old(rlens).mode_spec() == rlens::Mode::Gallery ==> {
                &&& final(rlens).mode_spec() == rlens::Mode::Image
                &&& final(rlens).current_open_spec() == old(rlens).gallery_spec().cursor_spec()
                &&& final(rlens).images_spec() == old(rlens).images_spec()
                &&& hooks_fired(*old(hooks), *final(hooks), true)
                &&& r == (Outcome { redraw: true, wake_loader: true, reset_view: true, exit: false })
            },
    {
        if rlens.select(tiling) {
            hooks.current_image_change();
            outcome(true, true, true)
        } else {
            Outcome { redraw: false, wake_loader: false, reset_view: false, exit: false }
        }
    }
}

/// The position of the current image (`1` for the first).
#[derive(Debug)]
pub struct Index;

impl Index {
    pub fn run<T>(&self, rlens: &RLens<T>) -> (r: usize)
        requires
            rlens.wf(),
        ensures
            r == rlens.current_image_spec() + 1,
    {
        rlens.current_image() + 1
    }
}

/// The number of images.
#[derive(Debug)]
pub struct TotalImages;

impl TotalImages {
    pub fn run<T>(&self, rlens: &RLens<T>) -> (r: usize)
        ensures
            r == rlens.len_spec(),
    {
        rlens.total_images()
    }
}

/// Open the image at a position (`1` for the first).
#[derive(Debug)]
pub struct Goto(pub usize);

impl Goto {
    /// `Err` with the position where it is out of range.
    pub fn run<T>(&self, rlens: &mut RLens<T>, hooks: &mut Hooks) -> (r: Result<Outcome, usize>)
        requires
            old(rlens).wf(),
        ensures
            final(rlens).wf(),
            (self.0 < 1 || self.0 > old(rlens).len_spec()) ==> r == Err::<Outcome, usize>(self.0)
                && *final(rlens) == *old(rlens) && *final(hooks) == *old(hooks),
            (1 <= self.0 <= old(rlens).len_spec()) ==> (r matches Ok(o) && image_nav(
                *old(rlens),
                *final(rlens),
                *old(hooks),
                *final(hooks),
                if self.0 - 1 == old(rlens).current_open_spec() {
                    None
                } else {
                    Some((self.0 - 1) as nat)
                },
                o,
            )),
    {
        match goto(self.0, rlens.current_open_image(), rlens.total_images()) {
            Ok(target) => Ok(move_image(rlens, hooks, target)),
            Err(pos) => Err(pos),
        }
    }
}

/// Open the next image; nothing after the last.
#[derive(Debug)]
pub struct Next;

impl Next {
    pub fn run<T>(&self, rlens: &mut RLens<T>, hooks: &mut Hooks) -> (r: Outcome)
        requires
            old(rlens).wf(),
        ensures
            final(rlens).wf(),
            image_nav(
                *old(rlens),
                *final(rlens),
                *old(hooks),
                *final(hooks),
                if old(rlens).current_open_spec() + 1 < old(rlens).len_spec() {
                    Some(old(rlens).current_open_spec() + 1)
                } else {
                    None
                },
                r,
            ),
    {
        let target = next(rlens.current_open_image(), rlens.total_images());
        move_image(rlens, hooks, target)
    }
}

/// Open the next image, wrapping from the last to the first.
#[derive(Debug)]
pub struct NextWrapping;

impl NextWrapping {
    pub fn run<T>(&self, rlens: &mut RLens<T>, hooks: &mut Hooks) -> (r: Outcome)
        requires
            old(rlens).wf(),
        ensures
            final(rlens).wf(),
            image_nav(
                *old(rlens),
                *final(rlens),
                *old(hooks),
                *final(hooks),
                if old(rlens).current_open_spec() + 1 < old(rlens).len_spec() {
                    Some(old(rlens).current_open_spec() + 1)
                } else if old(rlens).current_open_spec() != 0 {
                    Some(0)
                } else {
                    None
                },
                r,
            ),
    {
        let target = next_wrapping(rlens.current_open_image(), rlens.total_images());
        move_image(rlens, hooks, target)
    }
}

/// Open the previous image; nothing before the first.
#[derive(Debug)]
pub struct Prev;

impl Prev {
    pub fn run<T>(&self, rlens: &mut RLens<T>, hooks: &mut Hooks) -> (r: Outcome)
        requires
            old(rlens).wf(),
        ensures
            final(rlens).wf(),
            image_nav(
                *old(rlens),
                *final(rlens),
                *old(hooks),
                *final(hooks),
                if old(rlens).current_open_spec() > 0 {
                    Some((old(rlens).current_open_spec() - 1) as nat)
                } else {
                    None
                },
                r,
            ),
    {
        let target = prev(rlens.current_open_image());
        move_image(rlens, hooks, target)
    }
}

/// Open the previous image, wrapping from the first to the last.
#[derive(Debug)]
pub struct PrevWrapping;

impl PrevWrapping {
    pub fn run<T>(&self, rlens: &mut RLens<T>, hooks: &mut Hooks) -> (r: Outcome)
        requires
            old(rlens).wf(),
        ensures
            final(rlens).wf(),
            image_nav(
                *old(rlens),
                *final(rlens),
                *old(hooks),
                *final(hooks),
                if old(rlens).current_open_spec() > 0 {
                    Some((old(rlens).current_open_spec() - 1) as nat)
                } else if old(rlens).len_spec() > 1 {
                    Some((old(rlens).len_spec() - 1) as nat)
                } else {
                    None
                },
                r,
            ),
    {
        let target = prev_wrapping(rlens.current_open_image(), rlens.total_images());
        move_image(rlens, hooks, target)
    }
}

/// Open the first image.
#[derive(Debug)]
pub struct First;

impl First {
    pub fn run<T>(&self, rlens: &mut RLens<T>, hooks: &mut Hooks) -> (r: Outcome)
        requires
            old(rlens).wf(),
        ensures
            final(rlens).wf(),
            image_nav(
                *old(rlens),
                *final(rlens),
                *old(hooks),
                *final(hooks),
                if old(rlens).current_open_spec() != 0 {
                    Some(0)
                } else {
                    None
                },
                r,
            ),
    {
        let target = first(rlens.current_open_image());
        move_image(rlens, hooks, target)
    }
}

/// Open the last image.
#[derive(Debug)]
pub struct Last;

impl Last {
    pub fn run<T>(&self, rlens: &mut RLens<T>, hooks: &mut Hooks) -> (r: Outcome)
        requires
            old(rlens).wf(),
        ensures
            final(rlens).wf(),
            image_nav(
                *old(rlens),
                *final(rlens),
                *old(hooks),
                *final(hooks),
                if old(rlens).current_open_spec() != old(rlens).len_spec() - 1 {
                    Some((old(rlens).len_spec() - 1) as nat)
                } else {
                    None
                },
                r,
            ),
    {
        let target = last(rlens.current_open_image(), rlens.total_images());
        move_image(rlens, hooks, target)
    }
}

/// Move the gallery cursor to a position (`1` for the first).
#[derive(Debug)]
pub struct GalleryGoto(pub usize);

impl GalleryGoto {
    /// `Err` with the position where it is out of range.
    pub fn run<T>(&self, rlens: &mut RLens<T>, hooks: &mut Hooks, tiling: Option<Tiling>) -> (r:
        Result<Outcome, usize>)
        requires
            old(rlens).wf(),
        ensures
            final(rlens).wf(),
            (self.0 < 1 || self.0 > old(rlens).len_spec()) ==> r == Err::<Outcome, usize>(self.0)
                && *final(rlens) == *old(rlens) && *final(hooks) == *old(hooks),
            (1 <= self.0 <= old(rlens).len_spec()) ==> (r matches Ok(o) && gallery_nav(
                *old(rlens),
                *final(rlens),
                *old(hooks),
                *final(hooks),
                tiling,
                if self.0 - 1 == old(rlens).gallery_spec().cursor_spec() {
                    None
                } else {
                    Some((self.0 - 1) as nat)
                },
                o,
            )),
    {
        match goto(self.0, rlens.gallery_cursor(), rlens.total_images()) {
            Ok(target) => Ok(move_gallery(rlens, hooks, target, tiling)),
            Err(pos) => Err(pos),
        }
    }
}

/// Move the gallery cursor to the next image; nothing after the last.
#[derive(Debug)]
pub struct GalleryNext;

impl GalleryNext {
    pub fn run<T>(&self, rlens: &mut RLens<T>, hooks: &mut Hooks, tiling: Option<Tiling>) -> (r:
        Outcome)
        requires
            old(rlens).wf(),
        ensures
            final(rlens).wf(),
            gallery_nav(
                *old(rlens),
                *final(rlens),
                *old(hooks),
                *final(hooks),
                tiling,
                if old(rlens).gallery_spec().cursor_spec() + 1 < old(rlens).len_spec() {
                    Some(old(rlens).gallery_spec().cursor_spec() + 1)
                } else {
                    None
                },
                r,
            ),
    {
        let target = next(rlens.gallery_cursor(), rlens.total_images());
        move_gallery(rlens, hooks, target, tiling)
    }
}

/// Move the gallery cursor to the next image, wrapping to the first.
#[derive(Debug)]
pub struct GalleryNextWrapping;

impl GalleryNextWrapping {
    pub fn run<T>(&self, rlens: &mut RLens<T>, hooks: &mut Hooks, tiling: Option<Tiling>) -> (r:
        Outcome)
        requires
            old(rlens).wf(),
        ensures
            final(rlens).wf(),
            gallery_nav(
                *old(rlens),
                *final(rlens),
                *old(hooks),
                *final(hooks),
                tiling,
                if old(rlens).gallery_spec().cursor_spec() + 1 < old(rlens).len_spec() {
                    Some(old(rlens).gallery_spec().cursor_spec() + 1)
                } else if old(rlens).gallery_spec().cursor_spec() != 0 {
                    Some(0)
                } else {
                    None
                },
                r,
            ),
    {
        let target = next_wrapping(rlens.gallery_cursor(), rlens.total_images());
        move_gallery(rlens, hooks, target, tiling)
    }
}

/// Move the gallery cursor to the previous image; nothing before the first.
#[derive(Debug)]
pub struct GalleryPrev;

impl GalleryPrev {
    pub fn run<T>(&self, rlens: &mut RLens<T>, hooks: &mut Hooks, tiling: Option<Tiling>) -> (r:
        Outcome)
        requires
            old(rlens).wf(),
        ensures
            final(rlens).wf(),
            gallery_nav(
                *old(rlens),
                *final(rlens),
                *old(hooks),
                *final(hooks),
                tiling,
                if old(rlens).gallery_spec().cursor_spec() > 0 {
                    Some((old(rlens).gallery_spec().cursor_spec() - 1) as nat)
                } else {
                    None
                },
                r,
            ),
    {
        let target = prev(rlens.gallery_cursor());
        move_gallery(rlens, hooks, target, tiling)
    }
}

/// Move the gallery cursor to the previous image, wrapping to the last.
#[derive(Debug)]
pub struct GalleryPrevWrapping;

impl GalleryPrevWrapping {
    pub fn run<T>(&self, rlens: &mut RLens<T>, hooks: &mut Hooks, tiling: Option<Tiling>) -> (r:
        Outcome)
        requires
            old(rlens).wf(),
        ensures
            final(rlens).wf(),
            gallery_nav(
                *old(rlens),
                *final(rlens),
                *old(hooks),
                *final(hooks),
                tiling,
                if old(rlens).gallery_spec().cursor_spec() > 0 {
                    Some((old(rlens).gallery_spec().cursor_spec() - 1) as nat)
                } else if old(rlens).len_spec() > 1 {
                    Some((old(rlens).len_spec() - 1) as nat)
                } else {
                    None
                },
                r,
            ),
    {
        let target = prev_wrapping(rlens.gallery_cursor(), rlens.total_images());
        move_gallery(rlens, hooks, target, tiling)
    }
}

/// Move the gallery cursor to the first image.
#[derive(Debug)]
pub struct GalleryFirst;

impl GalleryFirst {
    pub fn run<T>(&self, rlens: &mut RLens<T>, hooks: &mut Hooks, tiling: Option<Tiling>) -> (r:
        Outcome)
        requires
            old(rlens).wf(),
        ensures
            final(rlens).wf(),
            gallery_nav(
                *old(rlens),
                *final(rlens),
                *old(hooks),
                *final(hooks),
                tiling,
                if old(rlens).gallery_spec().cursor_spec() != 0 {
                    Some(0)
                } else {
                    None
                },
                r,
            ),
    {
        let target = first(rlens.gallery_cursor());
        move_gallery(rlens, hooks, target, tiling)
    }
}

/// Move the gallery cursor to the last image.
#[derive(Debug)]
pub struct GalleryLast;

impl GalleryLast {
    pub fn run<T>(&self, rlens: &mut RLens<T>, hooks: &mut Hooks, tiling: Option<Tiling>) -> (r:
        Outcome)
        requires
            old(rlens).wf(),
        ensures
            final(rlens).wf(),
            gallery_nav(
                *old(rlens),
                *final(rlens),
                *old(hooks),
                *final(hooks),
                tiling,
                if old(rlens).gallery_spec().cursor_spec() != old(rlens).len_spec() - 1 {
                    Some((old(rlens).len_spec() - 1) as nat)
                } else {
                    None
                },
                r,
            ),
    {
        let target = last(rlens.gallery_cursor(), rlens.total_images());
        move_gallery(rlens, hooks, target, tiling)
    }
}

/// Move the gallery cursor one row up; nothing from the top row.
#[derive(Debug)]
pub struct GalleryUp;

impl GalleryUp {
    pub fn run<T>(&self, rlens: &mut RLens<T>, hooks: &mut Hooks, tiling: Option<Tiling>) -> (r:
        Outcome)
        requires
            old(rlens).wf(),
        ensures
            final(rlens).wf(),
            gallery_nav(
                *old(rlens),
                *final(rlens),
                *old(hooks),
                *final(hooks),
                tiling,
                if old(rlens).gallery_spec().cursor_spec() >= (match tiling { Some(t) => t.row_spec(), None => 0 }) {
                    Some((old(rlens).gallery_spec().cursor_spec() - (match tiling { Some(t) => t.row_spec(), None => 0 })) as nat)
                } else {
                    None
                },
                r,
            ),
    {
        let target = gallery_vertical_move(false, rlens.gallery_cursor(), rlens.gallery_tiles_in_row(tiling), rlens.total_images());
        move_gallery(rlens, hooks, target, tiling)
    }
}

/// Move the gallery cursor one row down; nothing from the bottom row.
#[derive(Debug)]
pub struct GalleryDown;

impl GalleryDown {
    pub fn run<T>(&self, rlens: &mut RLens<T>, hooks: &mut Hooks, tiling: Option<Tiling>) -> (r:
        Outcome)
        requires
            old(rlens).wf(),
        ensures
            final(rlens).wf(),
            gallery_nav(
                *old(rlens),
                *final(rlens),
                *old(hooks),
                *final(hooks),
                tiling,
                if old(rlens).gallery_spec().cursor_spec() + (match tiling { Some(t) => t.row_spec(), None => 0 }) < old(rlens).len_spec() {
                    Some((old(rlens).gallery_spec().cursor_spec() + (match tiling { Some(t) => t.row_spec(), None => 0 })) as nat)
                } else {
                    None
                },
                r,
            ),
    {
        let target = gallery_vertical_move(true, rlens.gallery_cursor(), rlens.gallery_tiles_in_row(tiling), rlens.total_images());
        move_gallery(rlens, hooks, target, tiling)
    }
}

/// Reset the view of the open image, as if it was just loaded.
#[derive(Debug)]
pub struct Reset;

impl Reset {
    pub fn run<T>(&self, rlens: &RLens<T>, hooks: &mut Hooks) -> (r: Outcome)
        ensures
            r == (Outcome {
                redraw: rlens.mode_spec() == rlens::Mode::Image,
                wake_loader: false,
                reset_view: true,
                exit: false,
            }),
            final(hooks).transform_update_spec(),
            final(hooks).current_image_change_spec() == old(hooks).current_image_change_spec(),
    {
        hooks.transform_update();
        outcome(rlens.mode() == rlens::Mode::Image, false, true)
    }
}

/// Set how a newly opened image is scaled, and reset the view.
#[derive(Debug)]
pub struct Scaling(pub image_transform::Scaling);

impl Scaling {
    pub fn run<T>(
        &self,
        scaling: &mut image_transform::Scaling,
        rlens: &RLens<T>,
        hooks: &mut Hooks,
    ) -> (r: Outcome)
        ensures
            *final(scaling) == self.0,
            r == (Outcome {
                redraw: rlens.mode_spec() == rlens::Mode::Image,
                wake_loader: false,
                reset_view: true,
                exit: false,
            }),
            final(hooks).transform_update_spec(),
            final(hooks).current_image_change_spec() == old(hooks).current_image_change_spec(),
    {
        *scaling = self.0;
        Reset.run(rlens, hooks)
    }
}

/// Set the horizontal placement of a newly opened image, and reset the view.
#[derive(Debug)]
pub struct AlignX(pub image_transform::AlignX);

impl AlignX {
    pub fn run<T>(&self, align: &mut image_transform::Align, rlens: &RLens<T>, hooks: &mut Hooks) -> (r:
        Outcome)
        ensures
            final(align).x == self.0,
            final(align).y == old(align).y,
            r == (Outcome {
                redraw: rlens.mode_spec() == rlens::Mode::Image,
                wake_loader: false,
                reset_view: true,
                exit: false,
            }),
            final(hooks).transform_update_spec(),
            final(hooks).current_image_change_spec() == old(hooks).current_image_change_spec(),
    {
        align.x = self.0;
        Reset.run(rlens, hooks)
    }
}

/// Set the vertical placement of a newly opened image, and reset the view.
#[derive(Debug)]
pub struct AlignY(pub image_transform::AlignY);

impl AlignY {
    pub fn run<T>(&self, align: &mut image_transform::Align, rlens: &RLens<T>, hooks: &mut Hooks) -> (r:
        Outcome)
        ensures
            final(align).y == self.0,
            final(align).x == old(align).x,
            r == (Outcome {
                redraw: rlens.mode_spec() == rlens::Mode::Image,
                wake_loader: false,
                reset_view: true,
                exit: false,
            }),
            final(hooks).transform_update_spec(),
            final(hooks).current_image_change_spec() == old(hooks).current_image_change_spec(),
    {
        align.y = self.0;
        Reset.run(rlens, hooks)
    }
}

/// Reload the current image: unload it, so that the worker loads it again.
#[derive(Debug)]
pub struct Reload;

impl Reload {
    /// Returns what to do and what was loaded (full image, thumbnail), for teardown.
    pub fn run<T>(&self, rlens: &mut RLens<T>) -> (r: (Outcome, (Option<T>, Option<T>)))
        requires
            old(rlens).wf(),
        ensures
            final(rlens).wf(),
            final(rlens).same_settings(old(rlens)),
            final(rlens).same_images_but(old(rlens), old(rlens).current_image_spec() as int),
            ({
                let index = old(rlens).current_image_spec() as int;
                let (new, old_image) = (
                    final(rlens).images_spec()[index],
                    old(rlens).images_spec()[index],
                );
                &&& new.full_spec() is Unloaded
                &&& new.thumbnail_spec() is Unloaded
                &&& !new.unloadable_spec()
                &&& new.path_spec() == old_image.path_spec()
                &&& r.1 == (old_image.full_spec().item(), old_image.thumbnail_spec().item())
            }),
            r.0 == (Outcome { redraw: true, wake_loader: true, reset_view: false, exit: false }),
    {
        let index = rlens.current_image();
        let unloaded = rlens.unload_image(index);
        (outcome(true, true, false), unloaded)
    }
}

/// Set how many full images to preload forwards and backwards.
#[derive(Debug)]
pub struct PreloadRange(pub usize, pub usize);

impl PreloadRange {
    pub fn run<T>(&self, rlens: &mut RLens<T>) -> (r: Outcome)
        ensures
            final(rlens).preload_spec() == (self.0 as nat, self.1 as nat),
            final(rlens).images_spec() == old(rlens).images_spec(),
            final(rlens).mode_spec() == old(rlens).mode_spec(),
            final(rlens).current_open_spec() == old(rlens).current_open_spec(),
            final(rlens).gallery_spec() == old(rlens).gallery_spec(),
            r == nothing(),
    {
        rlens.set_preload_range(self.0, self.1);
        Outcome { redraw: false, wake_loader: false, reset_view: false, exit: false }
    }
}

/// Set whether generated thumbnails are saved.
#[derive(Debug)]
pub struct SaveThumbnails(pub bool);

impl SaveThumbnails {
    pub fn run<T>(&self, rlens: &mut RLens<T>) -> (r: Outcome)
        ensures
            final(rlens).save_thumbnails_spec() == self.0,
            final(rlens).images_spec() == old(rlens).images_spec(),
            final(rlens).mode_spec() == old(rlens).mode_spec(),
            r == nothing(),
    {
        rlens.set_save_thumbnails(self.0);
        Outcome { redraw: false, wake_loader: false, reset_view: false, exit: false }
    }
}

/// Toggle whether the status bar is shown in the image view.
#[derive(Debug)]
pub struct ToggleStatusBar;

impl ToggleStatusBar {
    pub fn run<T>(&self, rlens: &mut RLens<T>) -> (r: Outcome)
        ensures
            final(rlens).image_mode_status_bar_spec() == !old(rlens).image_mode_status_bar_spec(),
            final(rlens).images_spec() == old(rlens).images_spec(),
            final(rlens).mode_spec() == old(rlens).mode_spec(),
            r == redraw_if(old(rlens).mode_spec() == rlens::Mode::Image),
    {
        let on = !rlens.image_mode_status_bar();
        rlens.set_image_mode_status_bar(on);
        outcome(rlens.mode() == rlens::Mode::Image, false, false)
    }
}

/// Set the position of the status bar.
#[derive(Debug)]
pub struct StatusBarPosition(pub status_bar::StatusBarPosition);

impl StatusBarPosition {
    pub fn run<T>(&self, rlens: &mut RLens<T>) -> (r: Outcome)
        ensures
            final(rlens).status_bar_position_spec() == self.0,
            final(rlens).images_spec() == old(rlens).images_spec(),
            final(rlens).mode_spec() == old(rlens).mode_spec(),
            final(rlens).image_mode_status_bar_spec() == old(rlens).image_mode_status_bar_spec(),
            r == redraw_if(
                old(rlens).mode_spec() == rlens::Mode::Gallery || old(rlens).image_mode_status_bar_spec(),
            ),
    {
        rlens.set_status_bar_position(self.0);
        outcome(rlens.show_status_bar(), false, false)
    }
}

/// Suspend drawing.
#[derive(Debug)]
pub struct Freeze;

impl Freeze {
    pub fn run<T>(&self, rlens: &mut RLens<T>) -> (r: Outcome)
        ensures
            final(rlens).frozen_spec(),
            final(rlens).images_spec() == old(rlens).images_spec(),
            final(rlens).mode_spec() == old(rlens).mode_spec(),
            r == nothing(),
    {
        rlens.set_frozen(true);
        Outcome { redraw: false, wake_loader: false, reset_view: false, exit: false }
    }
}

/// Resume drawing, and draw.
#[derive(Debug)]
pub struct Unfreeze;

impl Unfreeze {
    pub fn run<T>(&self, rlens: &mut RLens<T>) -> (r: Outcome)
        ensures
            !final(rlens).frozen_spec(),
            final(rlens).images_spec() == old(rlens).images_spec(),
            final(rlens).mode_spec() == old(rlens).mode_spec(),
            r == redraw_if(true),
    {
        rlens.set_frozen(false);
        outcome(true, false, false)
    }
}

} // verus!
