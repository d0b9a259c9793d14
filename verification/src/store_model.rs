//! A model of the store and what the planned operations do to it.
//!
//! The store is taken as a map from paths to contents. Directories are left
//! out of the model: creating one changes no file. Over this model the laws of
//! the layout are stated and proved: the slots of one identity never share a
//! path, two identities never share one, saving puts every artifact where
//! the path computation says, and deleting removes exactly those files.

use vstd::prelude::*;
use crate::converter::Artifacts;
use crate::converter::Encodings;
use crate::identity::Identity;
use crate::identity::lemma_text_injective;
use crate::identity::lemma_text_shape;
use crate::storage::Format;
use crate::storage::StoreStep;
use crate::storage::Tier;
use crate::storage::artifact_path;
use crate::storage::delete_steps;
use crate::storage::extension;
use crate::storage::original_path;
use crate::storage::save_steps;
use crate::storage::shard_dir;
use crate::storage::tier_name;

verus! {

/// One of the ten places that hold the artifacts of an identity.
pub enum Slot {
    /// An encoding of a tier.
    Artifact { tier: Tier, format: Format },
    /// The submitted bytes.
    Original,
}

/// The path of a slot of `id`.
pub open spec fn slot_path(base: Seq<char>, slot: Slot, id: Identity) -> Seq<char> {
    match slot {
        Slot::Artifact { tier, format } => artifact_path(base, tier, format, id),
        Slot::Original => original_path(base, id),
    }
}

/// The encodings of a tier.
pub open spec fn tier_of(images: Artifacts, tier: Tier) -> Encodings {
    match tier {
        Tier::Full => images.full,
        Tier::Normal => images.normal,
        Tier::Preview => images.preview,
    }
}

/// What a slot holds once the artifacts are saved.
pub open spec fn slot_content(images: Artifacts, slot: Slot) -> Seq<u8> {
    match slot {
        Slot::Artifact { tier, format } => match format {
            Format::Webp => tier_of(images, tier).webp,
            Format::Jpeg => tier_of(images, tier).jpeg,
            Format::Png => tier_of(images, tier).png,
        },
        Slot::Original => images.original,
    }
}

/// Whether `path` is the path of a slot of `id`.
pub open spec fn owned_by(base: Seq<char>, id: Identity, path: Seq<char>) -> bool {
    exists|slot: Slot| path == #[trigger] slot_path(base, slot, id)
}

/// Whether the step writes or removes the file at `path`.
pub open spec fn touches(step: StoreStep, path: Seq<char>) -> bool {
    match step {
        StoreStep::CreateDir { .. } => false,
        StoreStep::WriteFile { path: written, .. } => written == path,
        StoreStep::RemoveFile { path: removed } => removed == path,
    }
}

/// The files after one step.
pub open spec fn effect_of(files: Map<Seq<char>, Seq<u8>>, step: StoreStep) -> Map<
    Seq<char>,
    Seq<u8>,
> {
    match step {
        StoreStep::CreateDir { .. } => files,
        StoreStep::WriteFile { path, content } => files.insert(path, content),
        StoreStep::RemoveFile { path } => files.remove(path),
    }
}

/// The files after the steps, carried out in order.
pub open spec fn effect_of_all(files: Map<Seq<char>, Seq<u8>>, steps: Seq<StoreStep>) -> Map<
    Seq<char>,
    Seq<u8>,
>
    decreases steps.len(),
{
    if steps.len() == 0 {
        files
    } else {
        effect_of(effect_of_all(files, steps.drop_last()), steps.last())
    }
}

/// Whether `path` has the same fate in both stores: absent from both, or
/// present in both with the same content.
pub open spec fn same_at(
    before: Map<Seq<char>, Seq<u8>>,
    after: Map<Seq<char>, Seq<u8>>,
    path: Seq<char>,
) -> bool {
    before.contains_key(path) == after.contains_key(path) && (before.contains_key(path)
        ==> before[path] == after[path])
}

proof fn lemma_untouched(files: Map<Seq<char>, Seq<u8>>, steps: Seq<StoreStep>, path: Seq<char>)
    requires
        forall|j: int| 0 <= j < steps.len() ==> !touches(#[trigger] steps[j], path),
    ensures
        same_at(files, effect_of_all(files, steps), path),
    decreases steps.len(),
{
    if steps.len() > 0 {
        let rest = steps.drop_last();
        assert forall|j: int| 0 <= j < rest.len() implies !touches(#[trigger] rest[j], path) by {
            assert(rest[j] == steps[j]);
        }
        lemma_untouched(files, rest, path);
        assert(!touches(steps[steps.len() - 1], path));
    }
}

proof fn lemma_last_touch(
    files: Map<Seq<char>, Seq<u8>>,
    steps: Seq<StoreStep>,
    at: int,
    path: Seq<char>,
)
    requires
        0 <= at < steps.len(),
        touches(steps[at], path),
        forall|j: int| at < j < steps.len() ==> !touches(#[trigger] steps[j], path),
    ensures
        steps[at] matches StoreStep::WriteFile { content, .. } ==> effect_of_all(
            files,
            steps,
        ).contains_key(path) && effect_of_all(files, steps)[path] == content,
        steps[at] is RemoveFile ==> !effect_of_all(files, steps).contains_key(path),
    decreases steps.len(),
{
    let rest = steps.drop_last();
    if at < steps.len() - 1 {
        assert(rest[at] == steps[at]);
        assert forall|j: int| at < j < rest.len() implies !touches(#[trigger] rest[j], path) by {
            assert(rest[j] == steps[j]);
        }
        lemma_last_touch(files, rest, at, path);
        assert(!touches(steps[steps.len() - 1], path));
    }
}

proof fn lemma_slash()
    ensures
        "/"@ == seq!['/'],
{
    reveal_strlit("/");
    assert("/"@ =~= seq!['/']);
}

/// The directory name under which a slot lies.
pub open spec fn slot_dir(slot: Slot) -> Seq<char> {
    match slot {
        Slot::Artifact { tier, .. } => tier_name(tier),
        Slot::Original => "original"@,
    }
}

/// The extension that a slot's file name ends in; empty for the submitted
/// bytes.
pub open spec fn slot_extension(slot: Slot) -> Seq<char> {
    match slot {
        Slot::Artifact { format, .. } => extension(format),
        Slot::Original => Seq::<char>::empty(),
    }
}

proof fn lemma_names(slot: Slot)
    ensures
        slot_dir(slot).len() > 0,
        slot matches Slot::Artifact { tier, .. } ==> match tier {
            Tier::Full => slot_dir(slot)[0] == 'f' && slot_dir(slot).len() == 4,
            Tier::Normal => slot_dir(slot)[0] == 'n' && slot_dir(slot).len() == 6,
            Tier::Preview => slot_dir(slot)[0] == 'p' && slot_dir(slot).len() == 7,
        },
        slot is Original ==> slot_dir(slot)[0] == 'o' && slot_dir(slot).len() == 8,
        slot matches Slot::Artifact { format, .. } ==> match format {
            Format::Webp => slot_extension(slot).len() == 5 && slot_extension(slot)[4] == 'p',
            Format::Jpeg => slot_extension(slot).len() == 5 && slot_extension(slot)[4] == 'g',
            Format::Png => slot_extension(slot).len() == 4,
        },
        slot is Original ==> slot_extension(slot).len() == 0,
{
    reveal_strlit("full");
    reveal_strlit("normal");
    reveal_strlit("preview");
    reveal_strlit("original");
    reveal_strlit(".webp");
    reveal_strlit(".jpeg");
    reveal_strlit(".png");
}

proof fn lemma_path_layout(base: Seq<char>, slot: Slot, id: Identity)
    ensures
        slot_path(base, slot, id).len() == base.len() + slot_dir(slot).len() + 44
            + slot_extension(slot).len(),
        slot_path(base, slot, id)[base.len() as int + 1] == slot_dir(slot)[0],
        slot_path(base, slot, id).subrange(
            base.len() as int + slot_dir(slot).len() as int + 8,
            base.len() as int + slot_dir(slot).len() as int + 44,
        ) == id.text(),
        slot_extension(slot).len() > 0 ==> slot_path(base, slot, id).last() == slot_extension(
            slot,
        ).last(),
{
    lemma_slash();
    lemma_names(slot);
    lemma_text_shape(id.value);
    let name = slot_dir(slot);
    let ext = slot_extension(slot);
    let text = id.text();
    let dir = shard_dir(base, name, id);
    let b = base.len() as int;
    let d = dir.len() as int;
    assert(d == b + name.len() + 7);
    assert(dir[b + 1] == name[0]);
    let path = dir + "/"@ + text + ext;
    assert(path =~= slot_path(base, slot, id));
    assert(path.len() == d + 37 + ext.len());
    assert(path[b + 1] == dir[b + 1]);
    assert(path.subrange(d + 1, d + 37) =~= text);
    if ext.len() > 0 {
        assert(path.last() == ext.last());
    }
}

/// Distinct slots of one identity lie at distinct paths.
pub proof fn lemma_slots_apart(base: Seq<char>, id: Identity, one: Slot, other: Slot)
    requires
        one != other,
    ensures
        slot_path(base, one, id) != slot_path(base, other, id),
{
    lemma_path_layout(base, one, id);
    lemma_path_layout(base, other, id);
    lemma_names(one);
    lemma_names(other);
}

/// Distinct identities share no path: whatever slots are taken, and also
/// where both identities fall into the same shard, the two paths differ.
pub proof fn lemma_identities_apart(
    base: Seq<char>,
    one: Identity,
    other: Identity,
    slot_of_one: Slot,
    slot_of_other: Slot,
)
    requires
        one != other,
    ensures
        slot_path(base, slot_of_one, one) != slot_path(base, slot_of_other, other),
{
    lemma_path_layout(base, slot_of_one, one);
    lemma_path_layout(base, slot_of_other, other);
    lemma_names(slot_of_one);
    lemma_names(slot_of_other);
    if slot_path(base, slot_of_one, one) == slot_path(base, slot_of_other, other) {
        assert(slot_dir(slot_of_one)[0] == slot_dir(slot_of_other)[0]);
        assert(slot_dir(slot_of_one).len() == slot_dir(slot_of_other).len());
        assert(one.text() == other.text());
        lemma_text_injective(one.value, other.value);
    }
}

/// A path belongs to one identity at most.
pub proof fn lemma_owners_disjoint(base: Seq<char>, one: Identity, other: Identity, path: Seq<char>)
    requires
        one != other,
        owned_by(base, one, path),
    ensures
        !owned_by(base, other, path),
{
    let slot_of_one = choose|slot: Slot| path == #[trigger] slot_path(base, slot, one);
    assert forall|slot: Slot| path != #[trigger] slot_path(base, slot, other) by {
        lemma_identities_apart(base, one, other, slot_of_one, slot);
    }
}

/// The tier whose steps hold position `index` of a plan of `stride` steps
/// for each tier.
spec fn tier_at(index: int, stride: int) -> Tier {
    if index < stride {
        Tier::Full
    } else if index < 2 * stride {
        Tier::Normal
    } else {
        Tier::Preview
    }
}

/// The format that stands at place `place` of a tier's steps.
spec fn format_at(place: int) -> Format {
    if place == 0 {
        Format::Webp
    } else if place == 1 {
        Format::Jpeg
    } else {
        Format::Png
    }
}

/// The slot that the step at `index` of a plan for saving writes.
spec fn saved_slot(index: int) -> Slot {
    if index < 12 {
        Slot::Artifact { tier: tier_at(index, 4), format: format_at(index % 4 - 1) }
    } else {
        Slot::Original
    }
}

/// The slot that the step at `index` of a plan for deleting removes.
spec fn removed_slot(index: int) -> Slot {
    if index < 9 {
        Slot::Artifact { tier: tier_at(index, 3), format: format_at(index % 3) }
    } else {
        Slot::Original
    }
}

/// The position of the step that writes `slot` in a plan for saving.
spec fn saved_at(slot: Slot) -> int {
    match slot {
        Slot::Artifact { tier, format } => (match tier {
            Tier::Full => 0int,
            Tier::Normal => 4int,
            Tier::Preview => 8int,
        }) + (match format {
            Format::Webp => 1int,
            Format::Jpeg => 2int,
            Format::Png => 3int,
        }),
        Slot::Original => 13,
    }
}

/// The position of the step that removes `slot` in a plan for deleting.
spec fn removed_at(slot: Slot) -> int {
    match slot {
        Slot::Artifact { tier, format } => (match tier {
            Tier::Full => 0int,
            Tier::Normal => 3int,
            Tier::Preview => 6int,
        }) + (match format {
            Format::Webp => 0int,
            Format::Jpeg => 1int,
            Format::Png => 2int,
        }),
        Slot::Original => 9,
    }
}

proof fn lemma_save_steps_shape(base: Seq<char>, id: Identity, images: Artifacts)
    ensures
        save_steps(base, id, images).len() == 14,
        forall|j: int|
            0 <= j < 14 ==> (if j % 4 == 0 {
                #[trigger] save_steps(base, id, images)[j] is CreateDir
            } else {
                save_steps(base, id, images)[j] == (StoreStep::WriteFile {
                    path: slot_path(base, saved_slot(j), id),
                    content: slot_content(images, saved_slot(j)),
                })
            }),
{
    let full = crate::storage::tier_steps(base, Tier::Full, id, images.full);
    let normal = crate::storage::tier_steps(base, Tier::Normal, id, images.normal);
    let preview = crate::storage::tier_steps(base, Tier::Preview, id, images.preview);
    let original = crate::storage::original_steps(base, id, images.original);
    let steps = save_steps(base, id, images);
    assert(steps == full + normal + preview + original);
    assert forall|j: int| 0 <= j < 14 implies (if j % 4 == 0 {
        #[trigger] steps[j] is CreateDir
    } else {
        steps[j] == (StoreStep::WriteFile {
            path: slot_path(base, saved_slot(j), id),
            content: slot_content(images, saved_slot(j)),
        })
    }) by {
        if j < 4 {
            assert(steps[j] == full[j]);
        } else if j < 8 {
            assert(steps[j] == normal[j - 4]);
        } else if j < 12 {
            assert(steps[j] == preview[j - 8]);
        } else {
            assert(steps[j] == original[j - 12]);
        }
    }
}

proof fn lemma_delete_steps_shape(base: Seq<char>, id: Identity)
    ensures
        delete_steps(base, id).len() == 10,
        forall|j: int|
            0 <= j < 10 ==> #[trigger] delete_steps(base, id)[j] == (StoreStep::RemoveFile {
                path: slot_path(base, removed_slot(j), id),
            }),
{
    let full = crate::storage::tier_removals(base, Tier::Full, id);
    let normal = crate::storage::tier_removals(base, Tier::Normal, id);
    let preview = crate::storage::tier_removals(base, Tier::Preview, id);
    let original = seq![StoreStep::RemoveFile { path: original_path(base, id) }];
    let steps = delete_steps(base, id);
    assert(steps == full + normal + preview + original);
    assert forall|j: int| 0 <= j < 10 implies #[trigger] steps[j] == (StoreStep::RemoveFile {
        path: slot_path(base, removed_slot(j), id),
    }) by {
        if j < 3 {
            assert(steps[j] == full[j]);
        } else if j < 6 {
            assert(steps[j] == normal[j - 3]);
        } else if j < 9 {
            assert(steps[j] == preview[j - 6]);
        } else {
            assert(steps[j] == original[j - 9]);
        }
    }
}

/// Saving puts every artifact of the identity at the path that the path
/// computation gives for its slot, and changes no file at any other path.
pub proof fn lemma_save_effect(
    files: Map<Seq<char>, Seq<u8>>,
    base: Seq<char>,
    id: Identity,
    images: Artifacts,
)
    ensures
        forall|slot: Slot|
            effect_of_all(files, save_steps(base, id, images)).contains_key(
                #[trigger] slot_path(base, slot, id),
            ) && effect_of_all(files, save_steps(base, id, images))[slot_path(base, slot, id)]
                == slot_content(images, slot),
        forall|path: Seq<char>|
            !owned_by(base, id, path) ==> #[trigger] same_at(
                files,
                effect_of_all(files, save_steps(base, id, images)),
                path,
            ),
{
    let steps = save_steps(base, id, images);
    let after = effect_of_all(files, steps);
    lemma_save_steps_shape(base, id, images);
    assert forall|slot: Slot|
        after.contains_key(#[trigger] slot_path(base, slot, id)) && after[slot_path(
            base,
            slot,
            id,
        )] == slot_content(images, slot) by {
        let at = saved_at(slot);
        let path = slot_path(base, slot, id);
        assert(saved_slot(at) == slot);
        assert(touches(steps[at], path));
        assert forall|j: int| at < j < steps.len() implies !touches(#[trigger] steps[j], path) by {
            if j % 4 != 0 {
                lemma_slots_apart(base, id, saved_slot(j), slot);
            }
        }
        lemma_last_touch(files, steps, at, path);
    }
    assert forall|path: Seq<char>| !owned_by(base, id, path) implies #[trigger] same_at(
        files,
        after,
        path,
    ) by {
        assert forall|j: int| 0 <= j < steps.len() implies !touches(#[trigger] steps[j], path) by {
            if j % 4 != 0 {
                assert(owned_by(base, id, slot_path(base, saved_slot(j), id)));
            }
        }
        lemma_untouched(files, steps, path);
    }
}

/// Deleting leaves no file of the identity behind, and changes no file at
/// any other path.
pub proof fn lemma_delete_effect(files: Map<Seq<char>, Seq<u8>>, base: Seq<char>, id: Identity)
    ensures
        forall|slot: Slot|
            !effect_of_all(files, delete_steps(base, id)).contains_key(
                #[trigger] slot_path(base, slot, id),
            ),
        forall|path: Seq<char>|
            !owned_by(base, id, path) ==> #[trigger] same_at(
                files,
                effect_of_all(files, delete_steps(base, id)),
                path,
            ),
{
    let steps = delete_steps(base, id);
    let after = effect_of_all(files, steps);
    lemma_delete_steps_shape(base, id);
    assert forall|slot: Slot| !after.contains_key(#[trigger] slot_path(base, slot, id)) by {
        let at = removed_at(slot);
        let path = slot_path(base, slot, id);
        assert(removed_slot(at) == slot);
        assert(touches(steps[at], path));
        assert forall|j: int| at < j < steps.len() implies !touches(#[trigger] steps[j], path) by {
            lemma_slots_apart(base, id, removed_slot(j), slot);
        }
        lemma_last_touch(files, steps, at, path);
    }
    assert forall|path: Seq<char>| !owned_by(base, id, path) implies #[trigger] same_at(
        files,
        after,
        path,
    ) by {
        assert forall|j: int| 0 <= j < steps.len() implies !touches(#[trigger] steps[j], path) by {
            assert(owned_by(base, id, slot_path(base, removed_slot(j), id)));
        }
        lemma_untouched(files, steps, path);
    }
}

/// Deleting an identity of which the store holds no file changes nothing.
pub proof fn lemma_delete_of_absent(files: Map<Seq<char>, Seq<u8>>, base: Seq<char>, id: Identity)
    requires
        forall|slot: Slot| !files.contains_key(#[trigger] slot_path(base, slot, id)),
    ensures
        effect_of_all(files, delete_steps(base, id)) == files,
{
    let after = effect_of_all(files, delete_steps(base, id));
    lemma_delete_effect(files, base, id);
    assert forall|path: Seq<char>| same_at(files, after, path) by {
        if owned_by(base, id, path) {
            let slot = choose|slot: Slot| path == #[trigger] slot_path(base, slot, id);
            assert(!files.contains_key(slot_path(base, slot, id)));
            assert(!after.contains_key(slot_path(base, slot, id)));
        } else {
            assert(same_at(files, after, path));
        }
    }
    assert forall|path: Seq<char>| files.contains_key(path) == after.contains_key(path) by {
        assert(same_at(files, after, path));
    }
    assert forall|path: Seq<char>| files.contains_key(path) implies files[path] == after[path] by {
        assert(same_at(files, after, path));
    }
    assert(after =~= files);
}

/// Deleting twice leaves the store as deleting once does.
pub proof fn lemma_delete_twice(files: Map<Seq<char>, Seq<u8>>, base: Seq<char>, id: Identity)
    ensures
        effect_of_all(effect_of_all(files, delete_steps(base, id)), delete_steps(base, id))
            == effect_of_all(files, delete_steps(base, id)),
{
    lemma_delete_effect(files, base, id);
    lemma_delete_of_absent(effect_of_all(files, delete_steps(base, id)), base, id);
}

/// Saving the artifacts of one identity changes no file of another.
pub proof fn lemma_save_leaves_others(
    files: Map<Seq<char>, Seq<u8>>,
    base: Seq<char>,
    id: Identity,
    images: Artifacts,
    other: Identity,
    slot: Slot,
)
    requires
        id != other,
    ensures
        same_at(
            files,
            effect_of_all(files, save_steps(base, id, images)),
            slot_path(base, slot, other),
        ),
{
    let path = slot_path(base, slot, other);
    assert(owned_by(base, other, path));
    lemma_owners_disjoint(base, other, id, path);
    lemma_save_effect(files, base, id, images);
}

/// Deleting the artifacts of one identity changes no file of another.
pub proof fn lemma_delete_leaves_others(
    files: Map<Seq<char>, Seq<u8>>,
    base: Seq<char>,
    id: Identity,
    other: Identity,
    slot: Slot,
)
    requires
        id != other,
    ensures
        same_at(files, effect_of_all(files, delete_steps(base, id)), slot_path(base, slot, other)),
{
    let path = slot_path(base, slot, other);
    assert(owned_by(base, other, path));
    lemma_owners_disjoint(base, other, id, path);
    lemma_delete_effect(files, base, id);
}

/// A plan for deleting consists of ten steps, each of which removes a file.
pub proof fn lemma_deletion_removes_only(base: Seq<char>, id: Identity)
    ensures
        delete_steps(base, id).len() == 10,
        forall|j: int| 0 <= j < 10 ==> #[trigger] delete_steps(base, id)[j] is RemoveFile,
{
    lemma_delete_steps_shape(base, id);
}

} // verus!
