use rlens::command::{
    AlignX, CurrentMode, Exit, First, Freeze, GalleryDown, GalleryGoto, GalleryLast, GalleryNext,
    GalleryNextWrapping, GalleryPrev, GalleryPrevWrapping, GalleryUp, GalleryFirst, Goto, Index, Last,
    Mode, Next, NextWrapping, Outcome, PreloadRange, Prev, PrevWrapping, Reload, Reset,
    SaveThumbnails, Scaling, Select, StatusBarPosition, ToggleStatusBar, TotalImages, Unfreeze,
};
use rlens::gallery::Tiling;
use rlens::hooks::Hooks;
use rlens::image::Metadata;
use rlens::image_transform::{self, Align};
use rlens::load_request::ImageType;
use rlens::rlens::{self as viewer_state, RLens};
use rlens::status_bar;

fn viewer(n: usize) -> RLens<u32> {
    RLens::init((0..n).map(|i| format!("/p/{}", i)).collect(), 0)
}

const NOTHING: Outcome = Outcome { redraw: false, wake_loader: false, reset_view: false, exit: false };

#[test]
fn image_view_navigation() {
    let mut r = viewer(4);
    let mut h = Hooks::default();
    let o = Next.run(&mut r, &mut h);
    assert_eq!(o, Outcome { redraw: true, wake_loader: true, reset_view: true, exit: false });
    assert_eq!(r.current_open_image(), 1);
    assert_eq!(h.names(), vec!["current_image_change"]);
    Last.run(&mut r, &mut h);
    assert_eq!(r.current_open_image(), 3);
    assert_eq!(Next.run(&mut r, &mut h), NOTHING);
    NextWrapping.run(&mut r, &mut h);
    assert_eq!(r.current_open_image(), 0);
    assert_eq!(Prev.run(&mut r, &mut h), NOTHING);
    PrevWrapping.run(&mut r, &mut h);
    assert_eq!(r.current_open_image(), 3);
    First.run(&mut r, &mut h);
    assert_eq!(r.current_open_image(), 0);
    assert_eq!(Goto(3).run(&mut r, &mut h), Ok(Outcome { redraw: true, wake_loader: true, reset_view: true, exit: false }));
    assert_eq!(r.current_open_image(), 2);
    assert_eq!(Goto(3).run(&mut r, &mut h), Ok(NOTHING));
    assert_eq!(Goto(0).run(&mut r, &mut h), Err(0));
    assert_eq!(Goto(5).run(&mut r, &mut h), Err(5));
    assert_eq!(Index.run(&r), 3);
    assert_eq!(TotalImages.run(&r), 4);
}

#[test]
fn gallery_navigation() {
    let mut r = viewer(10);
    let mut h = Hooks::default();
    let t = Tiling::new(3, 2);
    let o = Mode(viewer_state::Mode::Gallery).run(&mut r, &mut h, t);
    assert_eq!(o, Outcome { redraw: true, wake_loader: true, reset_view: false, exit: false });
    assert_eq!(CurrentMode.run(&r), viewer_state::Mode::Gallery);
    assert_eq!(Mode(viewer_state::Mode::Gallery).run(&mut r, &mut h, t), NOTHING);
    GalleryDown.run(&mut r, &mut h, t);
    assert_eq!(r.gallery_cursor(), 3);
    GalleryDown.run(&mut r, &mut h, t);
    GalleryDown.run(&mut r, &mut h, t);
    assert_eq!(r.gallery_cursor(), 9);
    assert_eq!(GalleryDown.run(&mut r, &mut h, t), NOTHING);
    GalleryUp.run(&mut r, &mut h, t);
    assert_eq!(r.gallery_cursor(), 6);
    GalleryNext.run(&mut r, &mut h, t);
    assert_eq!(r.gallery_cursor(), 7);
    GalleryPrev.run(&mut r, &mut h, t);
    assert_eq!(r.gallery_cursor(), 6);
    GalleryLast.run(&mut r, &mut h, t);
    GalleryNextWrapping.run(&mut r, &mut h, t);
    assert_eq!(r.gallery_cursor(), 0);
    GalleryPrevWrapping.run(&mut r, &mut h, t);
    assert_eq!(r.gallery_cursor(), 9);
    GalleryFirst.run(&mut r, &mut h, t);
    assert_eq!(r.gallery_cursor(), 0);
    assert!(GalleryGoto(5).run(&mut r, &mut h, t).is_ok());
    assert_eq!(r.gallery_cursor(), 4);
    assert_eq!(GalleryGoto(11).run(&mut r, &mut h, t), Err(11));
    assert_eq!(Index.run(&r), 5);
    let o = Select.run(&mut r, &mut h, t);
    assert_eq!(o, Outcome { redraw: true, wake_loader: true, reset_view: true, exit: false });
    assert_eq!(r.current_open_image(), 4);
    assert_eq!(r.mode(), viewer_state::Mode::Image);
}

#[test]
fn option_commands() {
    let r = viewer(2);
    let mut h = Hooks::default();
    let mut scaling = image_transform::Scaling::default();
    let mut align = Align::default();
    let o = Scaling(image_transform::Scaling::FitImage).run(&mut scaling, &r, &mut h);
    assert_eq!(scaling, image_transform::Scaling::FitImage);
    assert_eq!(o, Outcome { redraw: true, wake_loader: false, reset_view: true, exit: false });
    AlignX(image_transform::AlignX::Right).run(&mut align, &r, &mut h);
    assert_eq!(align.x, image_transform::AlignX::Right);
    assert_eq!(h.names(), vec!["transform_update"]);
    assert!(Reset.run(&r, &mut h).reset_view);
    assert!(Exit.run().exit);
}

#[test]
fn setting_commands() {
    let mut r = viewer(3);
    r.set_loaded(ImageType::Full, 0, 5, Metadata { dimensions: (1, 1), format: None });
    let (o, (full, thumb)) = Reload.run(&mut r);
    assert_eq!((full, thumb), (Some(5), None));
    assert!(o.wake_loader && o.redraw);
    assert!(!r.get_image(0).full().is_loaded());
    assert_eq!(PreloadRange(2, 1).run(&mut r), NOTHING);
    assert_eq!(SaveThumbnails(true).run(&mut r), NOTHING);
    assert!(r.save_thumbnails());
    assert_eq!(ToggleStatusBar.run(&mut r).redraw, true);
    assert!(r.image_mode_status_bar());
    assert!(StatusBarPosition(status_bar::StatusBarPosition::Top).run(&mut r).redraw);
    Freeze.run(&mut r);
    assert!(r.frozen());
    assert!(Unfreeze.run(&mut r).redraw);
    assert!(!r.frozen());
}
