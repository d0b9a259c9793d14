//! The sharded layout of an image's artifacts on disk.
//!
//! Every artifact of an identity lives at a path that is computed from the
//! identity, the tier and the format alone:
//! `<base>/<tier>/<first two digits>/<next two digits>/<identity>.<extension>`,
//! and the submitted bytes at
//! `<base>/original/<first two digits>/<next two digits>/<identity>`.
//! This module computes those paths and the operations that save or delete
//! the artifacts of one identity; carrying the operations out is left to the
//! caller.

use vstd::prelude::*;
use crate::converter::Artifacts;
use crate::converter::ConvertedImages;
use crate::converter::Encodings;
use crate::converter::ImagesVersions;
use crate::identity::Identity;

verus! {

/// A resolution tier of the stored artifacts.
#[derive(Clone, Copy, Debug, PartialEq, Eq, Structural)]
pub enum Tier {
    Full,
    Normal,
    Preview,
}

/// An encoding of the stored artifacts.
#[derive(Clone, Copy, Debug, PartialEq, Eq, Structural)]
pub enum Format {
    Webp,
    Jpeg,
    Png,
}

/// The directory name of a tier.
pub open spec fn tier_name(tier: Tier) -> Seq<char> {
    match tier {
        Tier::Full => "full"@,
        Tier::Normal => "normal"@,
        Tier::Preview => "preview"@,
    }
}

/// The file extension of a format, with its leading dot.
pub open spec fn extension(format: Format) -> Seq<char> {
    match format {
        Format::Webp => ".webp"@,
        Format::Jpeg => ".jpeg"@,
        Format::Png => ".png"@,
    }
}

/// The two-level shard of an identity's text: its first two characters, a
/// slash, and its next two characters.
pub open spec fn shard(text: Seq<char>) -> Seq<char> {
    text.subrange(0, 2) + "/"@ + text.subrange(2, 4)
}

/// The directory that holds the files of `id` under the directory `name`.
pub open spec fn shard_dir(base: Seq<char>, name: Seq<char>, id: Identity) -> Seq<char> {
    base + "/"@ + name + "/"@ + shard(id.text())
}

/// The path of the artifact of `id` in the given tier and format.
pub open spec fn artifact_path(base: Seq<char>, tier: Tier, format: Format, id: Identity) -> Seq<
    char,
> {
    shard_dir(base, tier_name(tier), id) + "/"@ + id.text() + extension(format)
}

/// The path of the submitted bytes of `id`.
pub open spec fn original_path(base: Seq<char>, id: Identity) -> Seq<char> {
    shard_dir(base, "original"@, id) + "/"@ + id.text()
}

impl Tier {
    /// The directory name of the tier.
    pub fn name(&self) -> (name: &'static str)
        ensures
            name@ == tier_name(*self),
    {
        match self {
            Tier::Full => "full",
            Tier::Normal => "normal",
            Tier::Preview => "preview",
        }
    }
}

impl Format {
    /// The file extension of the format, with its leading dot.
    pub fn extension(&self) -> (ext: &'static str)
        ensures
            ext@ == extension(*self),
    {
        match self {
            Format::Webp => ".webp",
            Format::Jpeg => ".jpeg",
            Format::Png => ".png",
        }
    }
}

/// Computes the directory that holds the files of `id` under the directory
/// `name` of `base`.
pub fn directory_of(base: &str, name: &str, id: &Identity) -> (dir: String)
    ensures
        dir@ == shard_dir(base@, name@, *id),
{
    let text = id.to_string();
    let digits = text.as_str();
    let mut dir = base.to_owned();
    dir.append("/");
    dir.append(name);
    dir.append("/");
    dir.append(digits.substring_ascii(0, 2));
    dir.append("/");
    dir.append(digits.substring_ascii(2, 4));
    assert(dir@ =~= shard_dir(base@, name@, *id));
    dir
}

/// Computes the path of the artifact of `id` in the given tier and format.
pub fn path_of(base: &str, tier: Tier, format: Format, id: &Identity) -> (path: String)
    ensures
        path@ == artifact_path(base@, tier, format, *id),
{
    let text = id.to_string();
    let mut path = directory_of(base, tier.name(), id);
    path.append("/");
    path.append(text.as_str());
    path.append(format.extension());
    path
}

/// Computes the path of the submitted bytes of `id`.
pub fn path_of_original(base: &str, id: &Identity) -> (path: String)
    ensures
        path@ == original_path(base@, *id),
{
    let text = id.to_string();
    let mut path = directory_of(base, "original", id);
    path.append("/");
    path.append(text.as_str());
    path
}

/// One operation on the store, for the caller to carry out.
#[derive(Debug)]
pub enum StoreOp {
    /// Create the directory and every missing directory above it.
    CreateDir { path: String },
    /// Create or replace the file with the content.
    WriteFile { path: String, content: Vec<u8> },
    /// Remove the file; a file that is not there is left at that.
    RemoveFile { path: String },
}

/// What a store operation says, as mathematical values.
pub enum StoreStep {
    CreateDir { path: Seq<char> },
    WriteFile { path: Seq<char>, content: Seq<u8> },
    RemoveFile { path: Seq<char> },
}

impl View for StoreOp {
    type V = StoreStep;

    open spec fn view(&self) -> StoreStep {
        match self {
            StoreOp::CreateDir { path } => StoreStep::CreateDir { path: path@ },
            StoreOp::WriteFile { path, content } => StoreStep::WriteFile {
                path: path@,
                content: content@,
            },
            StoreOp::RemoveFile { path } => StoreStep::RemoveFile { path: path@ },
        }
    }
}

/// The steps that a sequence of operations says.
pub open spec fn steps_of(ops: Seq<StoreOp>) -> Seq<StoreStep> {
    Seq::new(ops.len(), |i: int| ops[i]@)
}

/// The steps that save one tier: its directory, then the three encodings.
pub open spec fn tier_steps(base: Seq<char>, tier: Tier, id: Identity, images: Encodings) -> Seq<
    StoreStep,
> {
    seq![
        StoreStep::CreateDir { path: shard_dir(base, tier_name(tier), id) },
        StoreStep::WriteFile {
            path: artifact_path(base, tier, Format::Webp, id),
            content: images.webp,
        },
        StoreStep::WriteFile {
            path: artifact_path(base, tier, Format::Jpeg, id),
            content: images.jpeg,
        },
        StoreStep::WriteFile {
            path: artifact_path(base, tier, Format::Png, id),
            content: images.png,
        },
    ]
}

/// The steps that save the submitted bytes.
pub open spec fn original_steps(base: Seq<char>, id: Identity, original: Seq<u8>) -> Seq<
    StoreStep,
> {
    seq![
        StoreStep::CreateDir { path: shard_dir(base, "original"@, id) },
        StoreStep::WriteFile { path: original_path(base, id), content: original },
    ]
}

/// The steps that save the artifacts of `id`: the full tier, the normal
/// tier, the preview tier, then the submitted bytes.
pub open spec fn save_steps(base: Seq<char>, id: Identity, images: Artifacts) -> Seq<
    StoreStep,
> {
    tier_steps(base, Tier::Full, id, images.full) + tier_steps(base, Tier::Normal, id, images.normal)
        + tier_steps(base, Tier::Preview, id, images.preview) + original_steps(
        base,
        id,
        images.original,
    )
}

/// The steps that remove the three encodings of one tier.
pub open spec fn tier_removals(base: Seq<char>, tier: Tier, id: Identity) -> Seq<StoreStep> {
    seq![
        StoreStep::RemoveFile { path: artifact_path(base, tier, Format::Webp, id) },
        StoreStep::RemoveFile { path: artifact_path(base, tier, Format::Jpeg, id) },
        StoreStep::RemoveFile { path: artifact_path(base, tier, Format::Png, id) },
    ]
}

/// The steps that delete the artifacts of `id`. Shard directories stay.
pub open spec fn delete_steps(base: Seq<char>, id: Identity) -> Seq<StoreStep> {
    tier_removals(base, Tier::Full, id) + tier_removals(base, Tier::Normal, id) + tier_removals(
        base,
        Tier::Preview,
        id,
    ) + seq![StoreStep::RemoveFile { path: original_path(base, id) }]
}

fn push_tier(ops: &mut Vec<StoreOp>, base: &str, tier: Tier, id: &Identity, images: ConvertedImages)
    ensures
        steps_of(final(ops)@) == steps_of(old(ops)@) + tier_steps(base@, tier, *id, images@),
{
    let ConvertedImages { png, webp, jpeg } = images;
    ops.push(StoreOp::CreateDir { path: directory_of(base, tier.name(), id) });
    ops.push(StoreOp::WriteFile { path: path_of(base, tier, Format::Webp, id), content: webp });
    ops.push(StoreOp::WriteFile { path: path_of(base, tier, Format::Jpeg, id), content: jpeg });
    ops.push(StoreOp::WriteFile { path: path_of(base, tier, Format::Png, id), content: png });
    assert(steps_of(ops@) =~= steps_of(old(ops)@) + tier_steps(base@, tier, *id, images@));
}

fn push_removals(ops: &mut Vec<StoreOp>, base: &str, tier: Tier, id: &Identity)
    ensures
        steps_of(final(ops)@) == steps_of(old(ops)@) + tier_removals(base@, tier, *id),
{
    ops.push(StoreOp::RemoveFile { path: path_of(base, tier, Format::Webp, id) });
    ops.push(StoreOp::RemoveFile { path: path_of(base, tier, Format::Jpeg, id) });
    ops.push(StoreOp::RemoveFile { path: path_of(base, tier, Format::Png, id) });
    assert(steps_of(ops@) =~= steps_of(old(ops)@) + tier_removals(base@, tier, *id));
}

/// Plans the saving of the artifacts of `id` under `base`: for each tier and
/// then for the submitted bytes, the directory to create and the files to
/// write, in the order in which they are to be carried out.
pub fn save_images(base: &str, id: &Identity, images: ImagesVersions) -> (ops: Vec<StoreOp>)
    ensures
        steps_of(ops@) == save_steps(base@, *id, images@),
{
    let ImagesVersions { full, normal, preview, original } = images;
    let mut ops: Vec<StoreOp> = Vec::new();
    assert(steps_of(ops@) =~= Seq::<StoreStep>::empty());
    push_tier(&mut ops, base, Tier::Full, id, full);
    push_tier(&mut ops, base, Tier::Normal, id, normal);
    push_tier(&mut ops, base, Tier::Preview, id, preview);
    let ghost before = steps_of(ops@);
    ops.push(StoreOp::CreateDir { path: directory_of(base, "original", id) });
    ops.push(StoreOp::WriteFile { path: path_of_original(base, id), content: original });
    assert(steps_of(ops@) =~= before + original_steps(base@, *id, images.original@));
    assert(steps_of(ops@) =~= save_steps(base@, *id, images@));
    ops
}

/// Plans the deletion of the artifacts of `id` under `base`: every file that
/// `save_images` writes for the identity, and no directory.
pub fn delete_images(base: &str, id: &Identity) -> (ops: Vec<StoreOp>)
    ensures
        steps_of(ops@) == delete_steps(base@, *id),
{
    let mut ops: Vec<StoreOp> = Vec::new();
    assert(steps_of(ops@) =~= Seq::<StoreStep>::empty());
    push_removals(&mut ops, base, Tier::Full, id);
    push_removals(&mut ops, base, Tier::Normal, id);
    push_removals(&mut ops, base, Tier::Preview, id);
    let ghost before = steps_of(ops@);
    ops.push(StoreOp::RemoveFile { path: path_of_original(base, id) });
    assert(steps_of(ops@) =~= before + seq![
        StoreStep::RemoveFile { path: original_path(base@, *id) },
    ]);
    assert(steps_of(ops@) =~= delete_steps(base@, *id));
    ops
}

} // verus!
