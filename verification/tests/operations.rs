use memefinder::coordinator::create;
use memefinder::coordinator::delete;
use memefinder::coordinator::ensure_index;
use memefinder::coordinator::update;
use memefinder::coordinator::Outcome;
use memefinder::coordinator::Saga;
use memefinder::coordinator::Step;
use memefinder::error::ServiceError;
use memefinder::identity::Identity;
use memefinder::index::IndexLookup;
use memefinder::models::ImageCreationRequest;
use memefinder::models::ImageInfo;
use memefinder::models::ImagePatch;
use memefinder::models::Status;
use memefinder::storage::StoreOp;
use std::collections::BTreeMap;

/// A store and an index in memory, with a step at which to fail.
struct World {
    files: BTreeMap<String, Vec<u8>>,
    dirs: Vec<String>,
    records: BTreeMap<u128, ImageInfo>,
    fail_at: Option<usize>,
    carried_out: usize,
}

fn world() -> World {
    World { files: BTreeMap::new(), dirs: Vec::new(), records: BTreeMap::new(), fail_at: None, carried_out: 0 }
}

fn copy_of(record: &ImageInfo) -> ImageInfo {
    ImageInfo {
        id: record.id,
        name: record.name.clone(),
        description: record.description.clone(),
        text: record.text.clone(),
        tags: record.tags.clone(),
        status: record.status,
    }
}

fn perform(world: &mut World, step: &Step) -> Outcome {
    if world.fail_at == Some(world.carried_out) {
        return Outcome::Failed;
    }
    world.carried_out += 1;
    match step {
        Step::Store(StoreOp::CreateDir { path }) => {
            world.dirs.push(path.clone());
            Outcome::Done
        }
        Step::Store(StoreOp::WriteFile { path, content }) => {
            world.files.insert(path.clone(), content.clone());
            Outcome::Done
        }
        Step::Store(StoreOp::RemoveFile { path }) => match world.files.remove(path) {
            Some(_) => Outcome::Done,
            None => Outcome::Missing,
        },
        Step::Upsert(record) => {
            world.records.insert(record.id.value, copy_of(record));
            Outcome::Done
        }
        Step::Remove(id) => match world.records.remove(&id.value) {
            Some(_) => Outcome::Done,
            None => Outcome::Missing,
        },
        Step::CreateIndex(_) | Step::Configure(_) => Outcome::Done,
    }
}

fn run(world: &mut World, saga: &mut Saga) -> Result<(), ServiceError> {
    loop {
        let outcome = match saga.pending() {
            Some(step) => perform(world, step),
            None => return saga.result().unwrap(),
        };
        saga.report(outcome);
    }
}

fn picture(width: u32, height: u32, format: image::ImageOutputFormat) -> Vec<u8> {
    let mut buffer = image::RgbImage::new(width, height);
    for (x, y, pixel) in buffer.enumerate_pixels_mut() {
        *pixel = image::Rgb([(x % 256) as u8, (y % 256) as u8, 7]);
    }
    let mut bytes = Vec::new();
    image::DynamicImage::ImageRgb8(buffer)
        .write_to(&mut std::io::Cursor::new(&mut bytes), format)
        .unwrap();
    bytes
}

fn request(image: Vec<u8>) -> ImageCreationRequest {
    ImageCreationRequest {
        name: "cat".to_string(),
        image,
        description: Some("a cat".to_string()),
        text: None,
        tags: Some(vec!["animal".to_string()]),
    }
}

fn created_identity(world: &World) -> Identity {
    assert_eq!(world.records.len(), 1);
    Identity::new(*world.records.keys().next().unwrap())
}

#[test]
fn create_saves_ten_files_and_registers_a_draft() {
    let source = picture(300, 200, image::ImageOutputFormat::Jpeg(85));
    let mut saga = create(request(source.clone()), "base").unwrap();
    let mut world = world();
    assert_eq!(run(&mut world, &mut saga), Ok(()));
    assert_eq!(world.carried_out, 15);
    assert_eq!(world.files.len(), 10);
    assert_eq!(world.dirs.len(), 4);
    let id = created_identity(&world);
    let text = id.to_string();
    let shard = format!("{}/{}", &text[..2], &text[2..4]);
    for tier in ["full", "normal", "preview"] {
        assert!(world.dirs.contains(&format!("base/{tier}/{shard}")));
        for ext in ["webp", "jpeg", "png"] {
            let path = format!("base/{tier}/{shard}/{text}.{ext}");
            assert!(!world.files[&path].is_empty(), "{path}");
        }
    }
    assert_eq!(world.files[&format!("base/original/{shard}/{text}")], source);
    let record = &world.records[&id.value];
    assert_eq!(record.status, Status::Draft);
    assert_eq!(record.name.as_deref(), Some("cat"));
    assert_eq!(record.description, None);
    assert_eq!(record.text, None);
    assert_eq!(record.tags, None);
    let preview = image::load_from_memory(&world.files[&format!("base/preview/{shard}/{text}.png")])
        .unwrap();
    assert_eq!((preview.width(), preview.height()), (256, 171));
}

#[test]
fn create_with_malformed_bytes_plans_nothing() {
    let outcome = create(request(vec![0xff, 0xd8, 0xff]), "base");
    assert!(matches!(outcome, Err(ServiceError::Decode)));
    let outcome = create(request(b"GIF89a".to_vec()), "base");
    assert!(matches!(outcome, Err(ServiceError::Decode)));
}

#[test]
fn two_ingestions_of_the_same_bytes_are_independent() {
    let source = picture(40, 30, image::ImageOutputFormat::Png);
    let mut world = world();
    let mut first = create(request(source.clone()), "base").unwrap();
    assert_eq!(run(&mut world, &mut first), Ok(()));
    let mut second = create(request(source), "base").unwrap();
    assert_eq!(run(&mut world, &mut second), Ok(()));
    assert_eq!(world.records.len(), 2);
    assert_eq!(world.files.len(), 20);
    let ids: Vec<Identity> = world.records.keys().map(|value| Identity::new(*value)).collect();
    assert_ne!(ids[0], ids[1]);
    let paths_of = |id: &Identity| -> Vec<String> {
        let text = id.to_string();
        let shard = format!("{}/{}", &text[..2], &text[2..4]);
        let mut paths = vec![format!("base/original/{shard}/{text}")];
        for tier in ["full", "normal", "preview"] {
            for ext in ["webp", "jpeg", "png"] {
                paths.push(format!("base/{tier}/{shard}/{text}.{ext}"));
            }
        }
        paths
    };
    let (one, other) = (paths_of(&ids[0]), paths_of(&ids[1]));
    for (left, right) in one.iter().zip(other.iter()) {
        assert_ne!(left, right);
        assert_eq!(world.files[left], world.files[right]);
    }
    let mut removal = delete(ids[0], "base");
    assert_eq!(run(&mut world, &mut removal), Ok(()));
    assert_eq!(world.files.len(), 10);
    assert!(one.iter().all(|path| !world.files.contains_key(path)));
    assert!(other.iter().all(|path| world.files.contains_key(path)));
    assert_eq!(world.records.len(), 1);
}

#[test]
fn a_failing_write_ends_the_creation_and_keeps_what_was_written() {
    let mut saga = create(request(picture(40, 30, image::ImageOutputFormat::Png)), "base").unwrap();
    let mut world = world();
    world.fail_at = Some(6);
    assert_eq!(run(&mut world, &mut saga), Err(ServiceError::Store));
    assert_eq!(world.carried_out, 6);
    assert_eq!(world.files.len(), 4);
    assert!(world.records.is_empty());
    assert!(saga.pending().is_none());
    saga.report(Outcome::Done);
    assert_eq!(saga.result(), Some(Err(ServiceError::Store)));
}

#[test]
fn a_failing_index_leaves_the_artifacts_behind() {
    let mut saga = create(request(picture(40, 30, image::ImageOutputFormat::Png)), "base").unwrap();
    let mut world = world();
    world.fail_at = Some(14);
    assert_eq!(run(&mut world, &mut saga), Err(ServiceError::Index));
    assert_eq!(world.files.len(), 10);
    assert!(world.records.is_empty());
}

#[test]
fn delete_removes_the_record_first_and_then_every_file() {
    let mut world = world();
    let mut saga = create(request(picture(40, 30, image::ImageOutputFormat::Png)), "base").unwrap();
    assert_eq!(run(&mut world, &mut saga), Ok(()));
    let id = created_identity(&world);
    let mut removal = delete(id, "base");
    assert!(matches!(removal.pending(), Some(Step::Remove(first)) if *first == id));
    world.carried_out = 0;
    assert_eq!(run(&mut world, &mut removal), Ok(()));
    assert_eq!(world.carried_out, 11);
    assert!(world.records.is_empty());
    assert!(world.files.is_empty());
    assert_eq!(world.dirs.len(), 4);
}

#[test]
fn deleting_what_is_not_there_does_no_harm() {
    let mut world = world();
    world.files.insert("base/full/aa/bb/other.png".to_string(), vec![1]);
    let mut removal = delete(Identity::new(7), "base");
    assert_eq!(run(&mut world, &mut removal), Ok(()));
    assert_eq!(world.files.len(), 1);
    let mut again = delete(Identity::new(7), "base");
    assert_eq!(run(&mut world, &mut again), Ok(()));
}

#[test]
fn a_failing_index_ends_the_deletion_before_any_file_is_touched() {
    let mut world = world();
    let mut saga = create(request(picture(40, 30, image::ImageOutputFormat::Png)), "base").unwrap();
    assert_eq!(run(&mut world, &mut saga), Ok(()));
    let id = created_identity(&world);
    world.carried_out = 0;
    world.fail_at = Some(0);
    let mut removal = delete(id, "base");
    assert_eq!(run(&mut world, &mut removal), Err(ServiceError::Index));
    assert_eq!(world.files.len(), 10);
    assert_eq!(world.records.len(), 1);
    world.fail_at = Some(3);
    let mut removal = delete(id, "base");
    assert_eq!(run(&mut world, &mut removal), Err(ServiceError::Store));
    assert!(world.records.is_empty());
    assert_eq!(world.files.len(), 8);
}

#[test]
fn update_with_tags_only_changes_the_tags_and_no_file() {
    let mut world = world();
    let mut saga = create(request(picture(40, 30, image::ImageOutputFormat::Png)), "base").unwrap();
    assert_eq!(run(&mut world, &mut saga), Ok(()));
    let id = created_identity(&world);
    let files = world.files.clone();
    let current = copy_of(&world.records[&id.value]);
    let patch = ImagePatch {
        name: None,
        description: None,
        text: None,
        tags: Some(vec!["pet".to_string(), "grey".to_string()]),
        status: None,
    };
    let mut change = update(current, patch);
    world.carried_out = 0;
    assert_eq!(run(&mut world, &mut change), Ok(()));
    assert_eq!(world.carried_out, 1);
    assert_eq!(world.files, files);
    let record = &world.records[&id.value];
    assert_eq!(record.id, id);
    assert_eq!(record.name.as_deref(), Some("cat"));
    assert_eq!(record.description, None);
    assert_eq!(record.text, None);
    assert_eq!(record.status, Status::Draft);
    assert_eq!(record.tags, Some(vec!["pet".to_string(), "grey".to_string()]));
}

#[test]
fn startup_creates_and_configures_a_missing_index() {
    let mut saga = ensure_index(IndexLookup::Missing).unwrap();
    match saga.pending() {
        Some(Step::CreateIndex(schema)) => {
            assert_eq!(schema.uid, "images");
            assert_eq!(schema.primary_key, "id");
        }
        other => panic!("{other:?}"),
    }
    saga.report(Outcome::Done);
    match saga.pending() {
        Some(Step::Configure(schema)) => {
            assert_eq!(schema.searchable, vec!["name", "description", "text", "tags"]);
            assert_eq!(schema.filterable, vec!["tags", "status"]);
        }
        other => panic!("{other:?}"),
    }
    assert_eq!(saga.result(), None);
    saga.report(Outcome::Missing);
    assert_eq!(saga.result(), Some(Err(ServiceError::Index)));
}

#[test]
fn startup_leaves_an_index_that_is_there_alone() {
    let saga = ensure_index(IndexLookup::Found).unwrap();
    assert!(saga.pending().is_none());
    assert_eq!(saga.result(), Some(Ok(())));
    assert!(matches!(ensure_index(IndexLookup::Failed), Err(ServiceError::Index)));
}
