//! Requests to the load worker and its responses.

use vstd::prelude::*;

use crate::image::{Image, Metadata};

verus! {

/// A request to load an image.
#[derive(Debug)]
pub enum LoadRequest {
    Full(FullRequest),
    Thumbnail(ThumbnailRequest),
}

/// Details common to both kinds of load request.
#[derive(Debug)]
pub struct LoadRequestCommon {
    /// Index of the image in the image list
    pub index: usize,
    /// The path of the source image
    pub path: String,
}

/// A request to load a full image.
#[derive(Debug)]
pub struct FullRequest {
    pub details: LoadRequestCommon,
}

/// A request to load a thumbnail.
#[derive(Debug)]
pub struct ThumbnailRequest {
    pub details: LoadRequestCommon,
    /// Whether the thumbnail should be saved if it is generated
    pub save: bool,
}

/// A successful response to a load request.
///
/// `I` is the decoded image that the worker hands over.
#[derive(Debug)]
pub struct LoadRequestResponse<I> {
    /// The kind of image loaded
    pub type_: ImageType,
    /// Index of the image in the image list
    pub index: usize,
    /// The image data
    pub image: I,
    /// The metadata of the source image
    pub metadata: Metadata,
}

/// The kind of an image: the full image or its thumbnail.
#[derive(PartialEq, Eq, Structural, Clone, Copy, Debug)]
pub enum ImageType {
    Full,
    Thumbnail,
}

impl LoadRequestCommon {
    pub fn for_image<T>(index: usize, image: &Image<T>) -> (r: Self)
        ensures
            r.index == index,
            r.path@ == image.path_spec(),
    {
        LoadRequestCommon { index, path: image.path().to_owned() }
    }
}

impl FullRequest {
    pub fn for_image<T>(index: usize, image: &Image<T>) -> (r: Self)
        ensures
            r.details.index == index,
            r.details.path@ == image.path_spec(),
    {
        FullRequest { details: LoadRequestCommon::for_image(index, image) }
    }
}

impl ThumbnailRequest {
    pub fn for_image<T>(index: usize, image: &Image<T>, save: bool) -> (r: Self)
        ensures
            r.details.index == index,
            r.details.path@ == image.path_spec(),
            r.save == save,
    {
        ThumbnailRequest { details: LoadRequestCommon::for_image(index, image), save }
    }
}

impl LoadRequest {
    /// The details shared by both kinds of request.
    pub open spec fn details_spec(&self) -> LoadRequestCommon {
        match self {
            LoadRequest::Full(req) => req.details,
            LoadRequest::Thumbnail(req) => req.details,
        }
    }

    /// The index of the image that the request is for.
    pub fn index(&self) -> (r: usize)
        ensures
            r == self.details_spec().index,
    {
        let details = match self {
            LoadRequest::Full(req) => &req.details,
            LoadRequest::Thumbnail(req) => &req.details,
        };
        details.index
    }
}

} // verus!
