use opensi_core::encoding::percent_encode_name;
use opensi_core::resources::{find_resource, insert_resource};
use opensi_core::v4::{AtomKindv4, Atomv4, Packagev4, ResourceIdv4};

fn atom(kind: AtomKindv4, body: &str) -> Atomv4 {
    Atomv4 { time: None, kind, body: body.to_string() }
}

#[test]
fn try_new_adds_at_prefix() {
    let id = ResourceIdv4::try_new("Images/joker.png").unwrap();
    assert_eq!(id.path(), "Images/@joker.png");
    assert_eq!(id.name(), "@joker.png");
    assert!(matches!(id, ResourceIdv4::Image(_)));
}

#[test]
fn try_new_keeps_existing_prefix() {
    let id = ResourceIdv4::try_new("Audio/@song.mp3").unwrap();
    assert_eq!(id.path(), "Audio/@song.mp3");
    assert_eq!(id.name(), "@song.mp3");
    assert!(matches!(id, ResourceIdv4::Audio(_)));
}

#[test]
fn try_new_splits_at_first_slash() {
    let id = ResourceIdv4::try_new("Video/a/b.mp4").unwrap();
    assert_eq!(id.path(), "Video/@a/b.mp4");
    assert_eq!(id.name(), "@a/b.mp4");
    let t = ResourceIdv4::try_new("Texts/x.txt").unwrap();
    assert!(matches!(t, ResourceIdv4::Texts(_)));
}

#[test]
fn try_new_refuses_unknown_folders() {
    assert!(ResourceIdv4::try_new("Pictures/x.png").is_none());
    assert!(ResourceIdv4::try_new("content.xml").is_none());
    assert!(ResourceIdv4::try_new("images/x.png").is_none());
}

#[test]
fn folder_constructors() {
    assert_eq!(ResourceIdv4::audio("a.mp3").path(), "Audio/@a.mp3");
    assert_eq!(ResourceIdv4::video("@v.mp4").path(), "Video/@v.mp4");
    assert_eq!(ResourceIdv4::image("i.png").name(), "@i.png");
    assert_eq!(ResourceIdv4::texts("t.txt").path(), "Texts/@t.txt");
}

#[test]
fn path_parses_back_to_handle() {
    let id = ResourceIdv4::image("cat picture.png");
    assert_eq!(ResourceIdv4::try_new(id.path()), Some(id.clone()));
}

#[test]
fn atom_resource_by_kind() {
    assert!(atom(AtomKindv4::Text, "hello").resource().is_none());
    assert_eq!(atom(AtomKindv4::Image, "pic.png").resource().unwrap().path(), "Images/@pic.png");
    assert_eq!(atom(AtomKindv4::Voice, "@s.mp3").resource().unwrap().path(), "Audio/@s.mp3");
    assert_eq!(atom(AtomKindv4::Video, "v.mp4").resource().unwrap().path(), "Video/@v.mp4");
}

#[test]
fn atom_resource_is_percent_encoded() {
    let id = atom(AtomKindv4::Image, "my pic.png").resource().unwrap();
    assert_eq!(id.path(), "Images/@my%20pic.png");
    let id = atom(AtomKindv4::Image, "фото.png").resource().unwrap();
    assert_eq!(id.path(), "Images/@%D1%84%D0%BE%D1%82%D0%BE.png");
}

#[test]
fn percent_encoding_of_names() {
    assert_eq!(percent_encode_name("plain-name_1.png"), "plain-name_1.png");
    assert_eq!(percent_encode_name("a b"), "a%20b");
    assert_eq!(percent_encode_name("tab\there"), "tab%09here");
    assert_eq!(percent_encode_name("é"), "%C3%A9");
    assert_eq!(percent_encode_name(""), "");
}

#[test]
fn insert_then_find_resource() {
    let mut entries: Vec<(ResourceIdv4, Vec<u8>)> = Vec::new();
    let a = ResourceIdv4::image("a.png");
    let b = ResourceIdv4::audio("a.png");
    insert_resource(&mut entries, a.clone(), vec![1, 2, 3]);
    insert_resource(&mut entries, b.clone(), vec![9]);
    assert_eq!(find_resource(&entries, &a), Some(&vec![1, 2, 3]));
    assert_eq!(find_resource(&entries, &b), Some(&vec![9]));
    insert_resource(&mut entries, a.clone(), vec![4]);
    assert_eq!(entries.len(), 2);
    assert_eq!(find_resource(&entries, &a), Some(&vec![4]));
    assert_eq!(find_resource(&entries, &ResourceIdv4::video("a.png")), None);
}

#[test]
fn package_get_resource_follows_atom() {
    let mut p = Packagev4::new_with_identity("id".to_string(), 2020, 1, 1);
    insert_resource(&mut p.resource, ResourceIdv4::image("my pic.png"), vec![7, 7]);
    insert_resource(&mut p.resource, ResourceIdv4::image("my%20pic.png"), vec![8]);
    assert_eq!(p.get_resource(&atom(AtomKindv4::Image, "my pic.png")), Some(&vec![8]));
    assert_eq!(p.get_resource(&atom(AtomKindv4::Voice, "my pic.png")), None);
    assert_eq!(p.get_resource(&atom(AtomKindv4::Text, "my pic.png")), None);
}

#[test]
fn atom_with_space_links_encoded_resource() {
    let a = atom(AtomKindv4::Image, "1 2.jpg");
    let id = a.resource().unwrap();
    assert_eq!(id, ResourceIdv4::image("1%202.jpg"));
    assert_eq!(id.path(), "Images/@1%202.jpg");
    assert!(atom(AtomKindv4::Text, "1 2.jpg").resource().is_none());
    assert_eq!(percent_encode_name("\u{7f}x y"), "%7Fx%20y");
}
