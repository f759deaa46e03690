use opensi_core::archive::{entry_resource, read_archive, write_archive, ArchiveError};
use opensi_core::resources::{find_resource, insert_resource};
use opensi_core::v4::{Packagev4, ResourceIdv4};
use opensi_core::v5::package::get_resource_type;
use opensi_core::v5::{PackageV5, Resource};

const DECLARATION: &str = r#"<?xml version="1.0" encoding="utf-8"?>"#;

#[test]
fn write_then_read_gives_content_and_resources() {
    let mut resources: Vec<(ResourceIdv4, Vec<u8>)> = Vec::new();
    insert_resource(&mut resources, ResourceIdv4::image("1.png"), vec![1, 2, 3, 4]);
    insert_resource(&mut resources, ResourceIdv4::audio("@a b.mp3"), vec![5; 1000]);
    let xml = "<package name=\"Пакет\"></package>";
    let bytes = write_archive(xml, &resources).expect("written");
    let (text, read) = read_archive::<ResourceIdv4>(bytes).expect("read");
    assert_eq!(text, format!("{DECLARATION}{xml}"));
    assert_eq!(read.len(), 2);
    for (key, value) in &resources {
        assert_eq!(find_resource(&read, key), Some(value));
    }
}

#[test]
fn package_to_bytes_and_back() {
    let mut p = Packagev4::new_with_identity("id".to_string(), 2021, 12, 31);
    insert_resource(&mut p.resource, ResourceIdv4::texts("notes.txt"), b"hi".to_vec());
    let bytes = p.to_bytes("<package/>").expect("written");
    let (text, read) = Packagev4::read_zip_buffer(bytes).expect("read");
    assert_eq!(text, format!("{DECLARATION}<package/>"));
    assert_eq!(read, p.resource);
}

#[test]
fn v5_archive_read_with_v4_handles() {
    let mut resources: Vec<(Resource, Vec<u8>)> = Vec::new();
    insert_resource(&mut resources, Resource::Image("Images/x.png".to_string()), vec![1]);
    insert_resource(&mut resources, Resource::Texts("Texts/y".to_string()), vec![2]);
    let bytes = write_archive("<p/>", &resources).expect("written");
    let (_, read) = read_archive::<ResourceIdv4>(bytes.clone()).expect("read");
    // v4 handles get an `@` in front of the name
    assert_eq!(read.len(), 2);
    assert!(find_resource(&read, &ResourceIdv4::image("x.png")).is_some());
    let (text, read5) = PackageV5::read_zip_buffer(bytes).expect("read");
    assert_eq!(text, format!("{DECLARATION}<p/>"));
    assert_eq!(read5, resources);
}

#[test]
fn garbage_is_refused() {
    let result = read_archive::<ResourceIdv4>(vec![1, 2, 3, 4, 5]);
    assert!(matches!(result, Err(ArchiveError::Zip(_))));
}

#[test]
fn duplicate_file_names_are_refused() {
    let resources = vec![
        (Resource::Image("Images/x.png".to_string()), vec![1]),
        (Resource::Image("Images/x.png".to_string()), vec![2]),
    ];
    assert!(matches!(write_archive("<p/>", &resources), Err(ArchiveError::Zip(_))));
}

#[test]
fn v5_resource_types() {
    assert_eq!(get_resource_type("Audio/a.mp3"), Some(Resource::Audio("Audio/a.mp3".to_string())));
    assert_eq!(get_resource_type("Images/i.png"), Some(Resource::Image("Images/i.png".to_string())));
    assert_eq!(get_resource_type("Video/v.mp4"), Some(Resource::Video("Video/v.mp4".to_string())));
    assert_eq!(get_resource_type("Texts/t"), Some(Resource::Texts("Texts/t".to_string())));
    assert_eq!(get_resource_type("content.xml"), None);
    assert_eq!(Resource::Audio("Audio/a".to_string()).extract_key(), "Audio/a");
}

#[test]
fn which_entries_are_resources() {

    let image = entry_resource::<ResourceIdv4>(false, Some("Images/1.jpg".to_string())).unwrap();
    assert_eq!(image.path(), "Images/@1.jpg");
    assert!(entry_resource::<ResourceIdv4>(true, Some("Images/1.jpg".to_string())).is_none());
    assert!(entry_resource::<ResourceIdv4>(false, None).is_none());
    assert!(entry_resource::<ResourceIdv4>(false, Some("content.xml".to_string())).is_none());
    assert!(entry_resource::<Resource>(false, Some("[Content_Types].xml".to_string())).is_none());
    assert!(entry_resource::<ResourceIdv4>(false, Some("Fonts/a.ttf".to_string())).is_none());
    assert_eq!(
        entry_resource::<Resource>(false, Some("Texts/a".to_string())),
        Some(Resource::Texts("Texts/a".to_string()))
    );
}

#[test]
fn enclosed_names_with_backslashes_are_taken_as_given() {
    // the name is taken as the platform gives it: for a v4 handle `\` separates no folder
    assert!(entry_resource::<ResourceIdv4>(false, Some("Images\\1.jpg".to_string())).is_none());
    // a v5 handle goes by the name's start alone
    assert_eq!(
        entry_resource::<Resource>(false, Some("Images\\1.jpg".to_string())),
        Some(Resource::Image("Images\\1.jpg".to_string()))
    );
}

#[test]
fn archive_without_resources_reads_and_empty_bytes_are_refused() {
    let resources: Vec<(ResourceIdv4, Vec<u8>)> = Vec::new();
    let bytes = write_archive("<p/>", &resources).unwrap();
    assert!(read_archive::<ResourceIdv4>(bytes).is_ok());
    assert!(matches!(read_archive::<ResourceIdv4>(Vec::new()), Err(ArchiveError::Zip(_))));
}
