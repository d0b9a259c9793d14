use memefinder::converter::ConvertedImages;
use memefinder::converter::ImagesVersions;
use memefinder::identity::Identity;
use memefinder::storage::delete_images;
use memefinder::storage::directory_of;
use memefinder::storage::path_of;
use memefinder::storage::path_of_original;
use memefinder::storage::save_images;
use memefinder::storage::Format;
use memefinder::storage::StoreOp;
use memefinder::storage::Tier;

const ID: u128 = 0xa1a2a3a4b1b2c1c2d1d2d3d4d5d6d7d8;
const TEXT: &str = "a1a2a3a4-b1b2-c1c2-d1d2-d3d4d5d6d7d8";

fn bundle() -> ImagesVersions {
    ImagesVersions {
        full: ConvertedImages::new(vec![1], vec![2], vec![3]),
        normal: ConvertedImages::new(vec![4], vec![5], vec![6]),
        preview: ConvertedImages::new(vec![7], vec![8], vec![9]),
        original: vec![10, 11],
    }
}

fn paths(ops: &[StoreOp]) -> Vec<String> {
    let mut all = Vec::new();
    for op in ops {
        match op {
            StoreOp::CreateDir { path } => all.push(format!("dir {path}")),
            StoreOp::WriteFile { path, .. } => all.push(format!("write {path}")),
            StoreOp::RemoveFile { path } => all.push(format!("remove {path}")),
        }
    }
    all
}

#[test]
fn artifact_path_follows_the_shard_scheme() {
    let id = Identity::new(ID);
    assert_eq!(
        path_of("./storage/images", Tier::Full, Format::Webp, &id),
        format!("./storage/images/full/a1/a2/{TEXT}.webp")
    );
    assert_eq!(
        path_of("/srv", Tier::Normal, Format::Jpeg, &id),
        format!("/srv/normal/a1/a2/{TEXT}.jpeg")
    );
    assert_eq!(
        path_of("/srv", Tier::Preview, Format::Png, &id),
        format!("/srv/preview/a1/a2/{TEXT}.png")
    );
    assert_eq!(
        path_of_original("./storage/images", &id),
        format!("./storage/images/original/a1/a2/{TEXT}")
    );
    assert_eq!(directory_of("b", "full", &id), "b/full/a1/a2");
}

#[test]
fn path_computation_is_repeatable() {
    let id = Identity::new(ID);
    assert_eq!(
        path_of("base", Tier::Full, Format::Png, &id),
        path_of("base", Tier::Full, Format::Png, &id)
    );
}

#[test]
fn identities_of_one_shard_do_not_collide() {
    let one = Identity::new(ID);
    let other = Identity::new(ID + 1);
    assert_eq!(directory_of("b", "full", &one), directory_of("b", "full", &other));
    assert_ne!(
        path_of("b", Tier::Full, Format::Png, &one),
        path_of("b", Tier::Full, Format::Png, &other)
    );
    assert_ne!(path_of_original("b", &one), path_of_original("b", &other));
}

#[test]
fn save_plan_lists_directories_and_files_in_order() {
    let id = Identity::new(ID);
    let ops = save_images("b", &id, bundle());
    let expected = vec![
        "dir b/full/a1/a2".to_string(),
        format!("write b/full/a1/a2/{TEXT}.webp"),
        format!("write b/full/a1/a2/{TEXT}.jpeg"),
        format!("write b/full/a1/a2/{TEXT}.png"),
        "dir b/normal/a1/a2".to_string(),
        format!("write b/normal/a1/a2/{TEXT}.webp"),
        format!("write b/normal/a1/a2/{TEXT}.jpeg"),
        format!("write b/normal/a1/a2/{TEXT}.png"),
        "dir b/preview/a1/a2".to_string(),
        format!("write b/preview/a1/a2/{TEXT}.webp"),
        format!("write b/preview/a1/a2/{TEXT}.jpeg"),
        format!("write b/preview/a1/a2/{TEXT}.png"),
        "dir b/original/a1/a2".to_string(),
        format!("write b/original/a1/a2/{TEXT}"),
    ];
    assert_eq!(paths(&ops), expected);
}

#[test]
fn save_plan_puts_each_encoding_under_its_own_extension() {
    let id = Identity::new(ID);
    let ops = save_images("b", &id, bundle());
    let mut contents = Vec::new();
    for op in &ops {
        if let StoreOp::WriteFile { content, .. } = op {
            contents.push(content.clone());
        }
    }
    // new(png, webp, jpeg); files are written in the order webp, jpeg, png
    assert_eq!(
        contents,
        vec![
            vec![2], vec![3], vec![1],
            vec![5], vec![6], vec![4],
            vec![8], vec![9], vec![7],
            vec![10, 11],
        ]
    );
}

#[test]
fn delete_plan_removes_the_ten_files_and_no_directory() {
    let id = Identity::new(ID);
    let ops = delete_images("b", &id);
    assert_eq!(ops.len(), 10);
    let saved: Vec<String> = paths(&save_images("b", &id, bundle()))
        .into_iter()
        .filter(|p| p.starts_with("write "))
        .map(|p| p.replacen("write ", "remove ", 1))
        .collect();
    assert_eq!(paths(&ops), saved);
}

#[test]
fn converted_images_new_keeps_each_buffer_by_name() {
    let images = ConvertedImages::new(vec![1, 1], vec![2, 2], vec![3, 3]);
    assert_eq!(images.png, vec![1, 1]);
    assert_eq!(images.webp, vec![2, 2]);
    assert_eq!(images.jpeg, vec![3, 3]);
}
