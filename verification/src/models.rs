//! The records of the index and the requests that make and change them.

use vstd::prelude::*;
use crate::identity::Identity;
use crate::identity::is_random_version;

verus! {

/// How far an image has come on its way to the public.
#[derive(Clone, Copy, Debug, PartialEq, Eq, Hash, Structural)]
pub enum Status {
    Published,
    Draft,
    Offered,
}

/// The record of one image in the index.
#[derive(Debug)]
pub struct ImageInfo {
    pub id: Identity,
    pub name: Option<String>,
    pub description: Option<String>,
    pub text: Option<String>,
    pub tags: Option<Vec<String>>,
    pub status: Status,
}

/// A record as mathematical values.
pub struct ImageRecord {
    pub id: Identity,
    pub name: Option<Seq<char>>,
    pub description: Option<Seq<char>>,
    pub text: Option<Seq<char>>,
    pub tags: Option<Seq<Seq<char>>>,
    pub status: Status,
}

impl View for ImageInfo {
    type V = ImageRecord;

    open spec fn view(&self) -> ImageRecord {
        ImageRecord {
            id: self.id,
            name: self.name.deep_view(),
            description: self.description.deep_view(),
            text: self.text.deep_view(),
            tags: self.tags.deep_view(),
            status: self.status,
        }
    }
}

/// What a client sends to have an image ingested.
#[derive(Debug)]
pub struct ImageCreationRequest {
    pub name: String,
    pub image: Vec<u8>,
    pub description: Option<String>,
    pub text: Option<String>,
    pub tags: Option<Vec<String>>,
}

/// The parameters of a search, handed on to the index as they come.
#[derive(Debug)]
pub struct Query {
    pub query: Option<String>,
    pub offset: Option<usize>,
    pub limit: Option<usize>,
    pub filter: Option<String>,
    pub crop_length: Option<usize>,
    pub matches: Option<bool>,
}

/// A change to a record: each field that is present replaces the record's
/// field, each field that is absent leaves it as it is.
#[derive(Debug)]
pub struct ImagePatch {
    pub name: Option<String>,
    pub description: Option<String>,
    pub text: Option<String>,
    pub tags: Option<Vec<String>>,
    pub status: Option<Status>,
}

/// The record with which an image enters the index: a draft without a name,
/// a description, a text or tags.
pub open spec fn blank_record(id: Identity) -> ImageRecord {
    ImageRecord {
        id,
        name: None,
        description: None,
        text: None,
        tags: None,
        status: Status::Draft,
    }
}

/// The record of a newly ingested image: a draft under the given identity
/// and name, without a description, a text or tags. Those come later, by
/// updates.
pub open spec fn named_record(id: Identity, name: Seq<char>) -> ImageRecord {
    ImageRecord {
        id,
        name: Some(name),
        description: None,
        text: None,
        tags: None,
        status: Status::Draft,
    }
}

/// One field after a patch: the patch's value where it has one, else the
/// record's.
pub open spec fn patched<T>(current: T, change: Option<T>) -> T {
    match change {
        Some(value) => value,
        None => current,
    }
}

/// One optional field after a patch: the patch's value where it has one,
/// else the record's.
pub open spec fn patched_field<T>(current: Option<T>, change: Option<T>) -> Option<T> {
    match change {
        Some(value) => Some(value),
        None => current,
    }
}

/// The record after a patch. The identity never changes.
pub open spec fn patched_record(
    current: ImageRecord,
    name: Option<Seq<char>>,
    description: Option<Seq<char>>,
    text: Option<Seq<char>>,
    tags: Option<Seq<Seq<char>>>,
    status: Option<Status>,
) -> ImageRecord {
    ImageRecord {
        id: current.id,
        name: patched_field(current.name, name),
        description: patched_field(current.description, description),
        text: patched_field(current.text, text),
        tags: patched_field(current.tags, tags),
        status: patched(current.status, status),
    }
}

impl ImagePatch {
    /// The record after this patch.
    pub open spec fn applied_to(&self, current: ImageRecord) -> ImageRecord {
        patched_record(
            current,
            self.name.deep_view(),
            self.description.deep_view(),
            self.text.deep_view(),
            self.tags.deep_view(),
            self.status,
        )
    }
}

impl ImageInfo {
    /// A blank draft under a fresh identity.
    pub fn new() -> (info: ImageInfo)
        ensures
            info@ == blank_record(info.id),
            is_random_version(info.id.value),
    {
        ImageInfo::blank(Identity::generate())
    }

    /// A blank draft under the given identity.
    pub fn blank(id: Identity) -> (info: ImageInfo)
        ensures
            info@ == blank_record(id),
    {
        ImageInfo {
            id,
            name: None,
            description: None,
            text: None,
            tags: None,
            status: Status::Draft,
        }
    }

    /// The draft of a newly ingested image: it carries the identity and
    /// the name, and nothing else yet.
    pub fn named(id: Identity, name: String) -> (info: ImageInfo)
        ensures
            info@ == named_record(id, name@),
    {
        ImageInfo {
            id,
            name: Some(name),
            description: None,
            text: None,
            tags: None,
            status: Status::Draft,
        }
    }

    /// Applies a patch: every field that the patch holds replaces the
    /// record's, every other field and the identity stay.
    pub fn apply(self, patch: ImagePatch) -> (info: ImageInfo)
        ensures
            info@ == patch.applied_to(self@),
    {
        let ImageInfo { id, name, description, text, tags, status } = self;
        ImageInfo {
            id,
            name: match patch.name {
                Some(value) => Some(value),
                None => name,
            },
            description: match patch.description {
                Some(value) => Some(value),
                None => description,
            },
            text: match patch.text {
                Some(value) => Some(value),
                None => text,
            },
            tags: match patch.tags {
                Some(value) => Some(value),
                None => tags,
            },
            status: match patch.status {
                Some(value) => value,
                None => status,
            },
        }
    }
}

} // verus!
