//! The decisions of the load worker.
//!
//! The worker reads and decodes files; what it does with each request is a
//! job here. A job asks the worker for one piece of outside work at a time
//! (a `LoadAction`) and takes its answer (a `LoadEvent`), until it finishes
//! with the response to hand back. For a thumbnail the job looks for a kept
//! thumbnail in the cache, checks it is not stale, and otherwise generates
//! one from the source, to be saved where the request asks for it.

use vstd::prelude::*;

use crate::cache::{check_stale_thumbnail, is_absolute, reuse_existing, stale_spec, thumbnail_path, Timestamp};
use crate::image::Metadata;
use crate::load_request::{FullRequest, ImageType, LoadRequest, LoadRequestResponse};

verus! {

/// How far a job has come.
#[derive(Clone, Copy, PartialEq, Eq, Structural, Debug)]
pub enum LoadStage {
    /// Waiting for a full image
    LoadingFull,
    /// Waiting for the canonical path of the source
    Canonicalizing,
    /// Waiting to learn whether a kept thumbnail exists, and its times
    Probing,
    /// Waiting for a kept thumbnail and the source's metadata
    LoadingExisting,
    /// Waiting for a generated thumbnail
    Generating,
    /// Finished
    Done,
}

/// Outside work that a job asks for, or its end.
pub enum LoadAction<I> {
    /// Decode the image at `path` with its metadata; answer with `Loaded`
    LoadFull { path: String },
    /// Resolve the canonical path of `path`; answer with `Canonical`
    Canonicalize { path: String },
    /// Say whether the file `thumbnail` exists, when it was created, and when
    /// `source` was modified; answer with `Probed`
    Probe { thumbnail: String, source: String },
    /// Decode the kept thumbnail and read the metadata of its source;
    /// answer with `Loaded`
    LoadExisting { thumbnail: String, source: String },
    /// Decode `source` with its metadata and scale it to fit a square of
    /// `size` pixels; answer with `Loaded`
    Generate { source: String, size: u32 },
    /// The job is over: hand back `response` (`None` when the load failed),
    /// after saving the generated image to `save_to` where it is given
    Finish { response: Option<LoadRequestResponse<I>>, save_to: Option<String> },
}

/// The answer to a piece of outside work.
pub enum LoadEvent<I> {
    /// The canonical path, or `None` where it could not be resolved
    Canonical(Option<String>),
    /// Whether the kept thumbnail exists, its creation time and the source's
    /// modification time, where they could be read
    Probed { exists: bool, created: Option<Timestamp>, modified: Option<Timestamp> },
    /// A decoded image and the metadata of its source, or `None` on failure
    Loaded(Option<(I, Metadata)>),
}

/// A load request in progress.
pub struct LoadJob {
    type_: ImageType,
    index: usize,
    path: String,
    save: bool,
    thumbnail_dir: String,
    thumbnail_size: u32,
    /// The canonical path of the source, once known
    source: String,
    /// The file of the cache for the thumbnail, once known
    thumbnail: String,
    stage: LoadStage,
}

/// Whether `action` finishes with `response` and nothing to save.
pub open spec fn finishes<I>(action: LoadAction<I>, response: Option<LoadRequestResponse<I>>) -> bool {
    action == (LoadAction::Finish { response, save_to: None })
}

/// The response that hands back a decoded image.
pub open spec fn response_of<I>(
    type_: ImageType,
    index: usize,
    loaded: (I, Metadata),
) -> LoadRequestResponse<I> {
    LoadRequestResponse { type_, index, image: loaded.0, metadata: loaded.1 }
}

impl LoadJob {
    pub closed spec fn stage_spec(&self) -> LoadStage {
        self.stage
    }

    pub closed spec fn type_spec(&self) -> ImageType {
        self.type_
    }

    pub closed spec fn index_spec(&self) -> usize {
        self.index
    }

    pub closed spec fn path_spec(&self) -> Seq<char> {
        self.path@
    }

    pub closed spec fn save_spec(&self) -> bool {
        self.save
    }

    pub closed spec fn thumbnail_dir_spec(&self) -> Seq<char> {
        self.thumbnail_dir@
    }

    pub closed spec fn thumbnail_size_spec(&self) -> u32 {
        self.thumbnail_size
    }

    pub closed spec fn source_spec(&self) -> Seq<char> {
        self.source@
    }

    pub closed spec fn thumbnail_spec(&self) -> Seq<char> {
        self.thumbnail@
    }

    /// The request and the settings stay as they were.
    pub open spec fn same_request(&self, other: &Self) -> bool {
        &&& self.type_spec() == other.type_spec()
        &&& self.index_spec() == other.index_spec()
        &&& self.path_spec() == other.path_spec()
        &&& self.save_spec() == other.save_spec()
        &&& self.thumbnail_dir_spec() == other.thumbnail_dir_spec()
        &&& self.thumbnail_size_spec() == other.thumbnail_size_spec()
    }

    /// The stage the job is at.
    pub fn stage(&self) -> (r: LoadStage)
        ensures
            r == self.stage_spec(),
    {
        self.stage
    }

    /// End the job with `response` and nothing to save.
    fn finish<I>(&mut self, response: Option<LoadRequestResponse<I>>) -> (r: LoadAction<I>)
        ensures
            final(self).stage_spec() == LoadStage::Done,
            final(self).same_request(old(self)),
            final(self).source_spec() == old(self).source_spec(),
            final(self).thumbnail_spec() == old(self).thumbnail_spec(),
            finishes(r, response),
    {
        self.stage = LoadStage::Done;
        LoadAction::Finish { response, save_to: None }
    }

    /// Generate the thumbnail from the source.
    fn generate<I>(&mut self) -> (r: LoadAction<I>)
        ensures
            final(self).stage_spec() == LoadStage::Generating,
            final(self).same_request(old(self)),
            final(self).source_spec() == old(self).source_spec(),
            final(self).thumbnail_spec() == old(self).thumbnail_spec(),
            r matches LoadAction::Generate { source, size } && source@ == old(self).source_spec()
                && size == old(self).thumbnail_size_spec(),
    {
        self.stage = LoadStage::Generating;
        LoadAction::Generate { source: self.source.clone(), size: self.thumbnail_size }
    }

    /// Take the answer to the last action, and say what to do next.
    ///
    /// An answer of the wrong kind for the stage, or any answer once the job
    /// is done, ends the job with a failure.
    pub fn step<I>(&mut self, event: LoadEvent<I>) -> (r: LoadAction<I>)
        ensures
            final(self).same_request(old(self)),
            ({
                let (old_job, job) = (*old(self), *final(self));
                match (old_job.stage_spec(), event) {
                    (LoadStage::LoadingFull, LoadEvent::Loaded(loaded)) => {
                        &&& job.stage_spec() == LoadStage::Done
                        &&& finishes(
                            r,
                            match loaded {
                                Some(l) => Some(response_of(ImageType::Full, old_job.index_spec(), l)),
                                None => None,
                            },
                        )
                    },
                    (LoadStage::Canonicalizing, LoadEvent::Canonical(Some(source))) => if is_absolute(
                        source@,
                    ) {
                        &&& job.stage_spec() == LoadStage::Probing
                        &&& job.source_spec() == source@
                        &&& r matches LoadAction::Probe { thumbnail, source: s } && s@ == source@
                            && thumbnail@ == job.thumbnail_spec()
                        &&& exists|bytes: Seq<u8>|
                            job.thumbnail_spec() == crate::cache::thumbnail_file_spec(
                                old_job.thumbnail_dir_spec(),
                                crate::cache::hex_of(crate::cache::md5_of(bytes)),
                            )
                    } else {
                        job.stage_spec() == LoadStage::Done && finishes(r, None)
                    },
                    (LoadStage::Canonicalizing, LoadEvent::Canonical(None)) => {
                        job.stage_spec() == LoadStage::Done && finishes(r, None)
                    },
                    (LoadStage::Probing, LoadEvent::Probed { exists, created, modified }) => {
                        &&& job.source_spec() == old_job.source_spec()
                        &&& job.thumbnail_spec() == old_job.thumbnail_spec()
                        &&& if exists && stale_spec(created, modified) != Some(true) {
                            &&& job.stage_spec() == LoadStage::LoadingExisting
                            &&& r matches LoadAction::LoadExisting { thumbnail, source }
                                && thumbnail@ == old_job.thumbnail_spec() && source@
                                == old_job.source_spec()
                        } else {
                            &&& job.stage_spec() == LoadStage::Generating
                            &&& r matches LoadAction::Generate { source, size } && source@
                                == old_job.source_spec() && size == old_job.thumbnail_size_spec()
                        }
                    },
                    (LoadStage::LoadingExisting, LoadEvent::Loaded(Some(l))) => {
                        &&& job.stage_spec() == LoadStage::Done
                        &&& finishes(
                            r,
                            Some(response_of(ImageType::Thumbnail, old_job.index_spec(), l)),
                        )
                    },
                    (LoadStage::LoadingExisting, LoadEvent::Loaded(None)) => {
                        &&& job.stage_spec() == LoadStage::Generating
                        &&& job.source_spec() == old_job.source_spec()
                        &&& job.thumbnail_spec() == old_job.thumbnail_spec()
                        &&& r matches LoadAction::Generate { source, size } && source@
                            == old_job.source_spec() && size == old_job.thumbnail_size_spec()
                    },
                    (LoadStage::Generating, LoadEvent::Loaded(Some(l))) => {
                        &&& job.stage_spec() == LoadStage::Done
                        &&& r matches LoadAction::Finish { response, save_to }
                        &&& response == Some(
                            response_of(ImageType::Thumbnail, old_job.index_spec(), l),
                        )
                        &&& (old_job.save_spec() ==> (save_to matches Some(p) && p@
                            == old_job.thumbnail_spec()))
                        &&& (!old_job.save_spec() ==> save_to is None)
                    },
                    _ => job.stage_spec() == LoadStage::Done && finishes(r, None),
                }
            }),
    {
        match (self.stage, event) {
            (LoadStage::LoadingFull, LoadEvent::Loaded(loaded)) => {
                let response = match loaded {
                    Some((image, metadata)) => Some(
                        LoadRequestResponse { type_: ImageType::Full, index: self.index, image, metadata },
                    ),
                    None => None,
                };
                self.finish(response)
            },
            (LoadStage::Canonicalizing, LoadEvent::Canonical(Some(source))) => {
                let n = source.as_str().unicode_len();
                if n > 0 && source.as_str().get_char(0) == '/' {
                    let thumbnail = thumbnail_path(source.as_str(), self.thumbnail_dir.as_str());
                    self.thumbnail = thumbnail.clone();
                    let action = LoadAction::Probe { thumbnail, source: source.clone() };
                    self.source = source;
                    self.stage = LoadStage::Probing;
                    action
                } else {
                    self.finish(None)
                }
            },
            (LoadStage::Probing, LoadEvent::Probed { exists, created, modified }) => {
                let stale = check_stale_thumbnail(created, modified);
                if reuse_existing(exists, stale) {
                    self.stage = LoadStage::LoadingExisting;
                    LoadAction::LoadExisting {
                        thumbnail: self.thumbnail.clone(),
                        source: self.source.clone(),
                    }
                } else {
                    self.generate()
                }
            },
            (LoadStage::LoadingExisting, LoadEvent::Loaded(Some((image, metadata)))) => {
                let response = LoadRequestResponse {
                    type_: ImageType::Thumbnail,
                    index: self.index,
                    image,
                    metadata,
                };
                self.finish(Some(response))
            },
            (LoadStage::LoadingExisting, LoadEvent::Loaded(None)) => self.generate(),
            (LoadStage::Generating, LoadEvent::Loaded(Some((image, metadata)))) => {
                self.stage = LoadStage::Done;
                let response = LoadRequestResponse {
                    type_: ImageType::Thumbnail,
                    index: self.index,
                    image,
                    metadata,
                };
                let save_to = if self.save {
                    Some(self.thumbnail.clone())
                } else {
                    None
                };
                LoadAction::Finish { response: Some(response), save_to }
            },
            _ => self.finish(None),
        }
    }
}

impl LoadRequest {
    /// Start the job for this request, with the cache directory and the size
    /// of thumbnails; returns the job and its first action.
    pub fn handle<I>(&self, thumbnail_dir: &str, thumbnail_size: u32) -> (r: (LoadJob, LoadAction<I>))
        ensures
            r.0.index_spec() == self.details_spec().index,
            r.0.path_spec() == self.details_spec().path@,
            r.0.thumbnail_dir_spec() == thumbnail_dir@,
            r.0.thumbnail_size_spec() == thumbnail_size,
            self is Full ==> {
                &&& r.0.type_spec() == ImageType::Full
                &&& r.0.stage_spec() == LoadStage::LoadingFull
                &&& r.1 matches LoadAction::LoadFull { path } && path@ == self.details_spec().path@
            },
            self matches LoadRequest::Thumbnail(req) ==> {
                &&& r.0.type_spec() == ImageType::Thumbnail
                &&& r.0.stage_spec() == LoadStage::Canonicalizing
                &&& r.0.save_spec() == req.save
                &&& r.1 matches LoadAction::Canonicalize { path } && path@
                    == self.details_spec().path@
            },
    {
        let (type_, details, save, stage) = match self {
            LoadRequest::Full(req) => (ImageType::Full, &req.details, false, LoadStage::LoadingFull),
            LoadRequest::Thumbnail(req) => (
                ImageType::Thumbnail,
                &req.details,
                req.save,
                LoadStage::Canonicalizing,
            ),
        };
        let job = LoadJob {
            type_,
            index: details.index,
            path: details.path.clone(),
            save,
            thumbnail_dir: thumbnail_dir.to_owned(),
            thumbnail_size,
            source: String::new(),
            thumbnail: String::new(),
            stage,
        };
        let action = match type_ {
            ImageType::Full => LoadAction::LoadFull { path: details.path.clone() },
            ImageType::Thumbnail => LoadAction::Canonicalize { path: details.path.clone() },
        };
        (job, action)
    }
}

/// The response to a full request, from the decoded image and its metadata.
pub fn handle_full_request<I>(request: &FullRequest, loaded: Option<(I, Metadata)>) -> (r: Option<
    LoadRequestResponse<I>,
>)
    ensures
        r == match loaded {
            Some(l) => Some(response_of(ImageType::Full, request.details.index, l)),
            None => None,
        },
{
    match loaded {
        Some((image, metadata)) => Some(
            LoadRequestResponse {
                type_: ImageType::Full,
                index: request.details.index,
                image,
                metadata,
            },
        ),
        None => None,
    }
}

/// What the load worker tells the coordinator.
#[derive(Debug)]
pub enum LoaderMessage<I> {
    /// The worker waits for a load request
    ImageLoaderReady,
    /// A decoded image to put into the table
    LoadImage(LoadRequestResponse<I>),
    /// The source of the image at the index could not be loaded
    MarkUnloadable(usize),
    /// Unload what is out of range
    UnloadImages,
}

/// What the worker reports once a request for the image at `index` is done:
/// the image, or that its source is unloadable; then a call for an eviction sweep.
pub fn report_outcome<I>(index: usize, response: Option<LoadRequestResponse<I>>) -> (r: Vec<
    LoaderMessage<I>,
>)
    ensures
        r@.len() == 2,
        r@[1] is UnloadImages,
        response matches Some(resp) ==> r@[0] == LoaderMessage::LoadImage(resp),
        response is None ==> r@[0] == LoaderMessage::<I>::MarkUnloadable(index),
{
    let first = match response {
        Some(resp) => LoaderMessage::LoadImage(resp),
        None => LoaderMessage::MarkUnloadable(index),
    };
    let mut messages = Vec::new();
    messages.push(first);
    messages.push(LoaderMessage::UnloadImages);
    messages
}

} // verus!
