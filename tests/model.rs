use openvb::library::Library;
use openvb::singer::{Origin, PackageFormat, Singer};
use openvb::time::Timestamp;
use openvb::utterance::{FileDescriptor, Utterance};

const DATE: &str = "2024-05-01T12:00:00+00:00";

fn bundle(name: &str, is_default: bool) -> Library {
    Library {
        name: name.to_string(),
        uuid: 0,
        base_path: String::new(),
        language: None,
        is_default,
        files: vec![],
    }
}

fn segment(curr: &str, start: u64, end: u64) -> Utterance {
    Utterance::new(
        "sil".to_string(),
        curr.to_string(),
        "sil".to_string(),
        Timestamp::new(start),
        Timestamp::new(end),
    )
}

#[test]
fn default_bundle_is_the_marked_one() {
    let mut s = Singer::new(DATE.to_string());
    s.libraries.push(bundle("B0", false));
    s.libraries.push(bundle("B1", true));
    assert_eq!(s.get_default().unwrap().name, "B1");
}

#[test]
fn default_bundle_falls_back_to_first() {
    let mut s = Singer::new(DATE.to_string());
    s.libraries.push(bundle("B0", false));
    assert_eq!(s.get_default().unwrap().name, "B0");
}

#[test]
fn default_bundle_of_empty_package_is_none() {
    let s = Singer::new(DATE.to_string());
    assert!(s.get_default().is_none());
}

#[test]
fn first_marked_bundle_wins() {
    let mut s = Singer::new(DATE.to_string());
    s.libraries.push(bundle("B0", false));
    s.libraries.push(bundle("B1", true));
    s.libraries.push(bundle("B2", true));
    assert_eq!(s.get_default().unwrap().name, "B1");
}

#[test]
fn new_package_is_empty_and_made_by_generator() {
    let s = Singer::new(DATE.to_string());
    assert!(s.libraries.is_empty());
    assert_eq!(s.origin.application, "OpenVBgen");
    assert_eq!(s.origin.creation_date, DATE);
    let o = Origin::now(DATE.to_string());
    assert_eq!(o.creation_date, DATE);
    assert!(o.author.is_none());
}

#[test]
fn normalize_sorts_segments_and_sets_audio_path() {
    let mut s = Singer::new(DATE.to_string());
    let mut lib = bundle("B0", true);
    lib.files.push(FileDescriptor::new(
        "a.wav".to_string(),
        vec![segment("c", 300, 400), segment("a", 100, 200), segment("b", 200, 300), segment("d", 100, 150)],
    ));
    s.libraries.push(lib);
    s.normalize("/data/set");
    let labels = &s.libraries[0].files[0].labels;
    let starts: Vec<u64> = labels.iter().map(|u| u.start.value).collect();
    assert_eq!(starts, vec![100, 100, 200, 300]);
    let currs: Vec<&str> = labels.iter().map(|u| u.curr.as_str()).collect();
    assert_eq!(currs, vec!["a", "d", "b", "c"]);
    let expected = std::path::Path::new("/data/set").join("a.wav").to_string_lossy().into_owned();
    for u in labels {
        assert_eq!(u.audio_path, expected);
    }
    assert_eq!(s.libraries[0].files[0].path, "a.wav");
}

#[test]
fn labels_in_file_then_segment_order() {
    let mut lib = bundle("B0", true);
    lib.files.push(FileDescriptor::new("1.wav".to_string(), vec![segment("a", 0, 1), segment("b", 1, 2)]));
    lib.files.push(FileDescriptor::new("2.wav".to_string(), vec![]));
    lib.files.push(FileDescriptor::new("3.wav".to_string(), vec![segment("c", 0, 1)]));
    let labels: Vec<&str> = lib.iter_labels().iter().map(|u| u.curr.as_str()).collect();
    assert_eq!(labels, vec!["a", "b", "c"]);
}

#[test]
fn next_takes_last_file() {
    let mut lib = bundle("B0", true);
    lib.files.push(FileDescriptor::new("1.wav".to_string(), vec![]));
    lib.files.push(FileDescriptor::new("2.wav".to_string(), vec![]));
    assert_eq!(lib.next().unwrap().path, "2.wav");
    assert_eq!(lib.next().unwrap().path, "1.wav");
    assert!(lib.next().is_none());
}

#[test]
fn package_format_by_extension() {
    assert_eq!(PackageFormat::from_extension("json"), Some(PackageFormat::Json));
    assert_eq!(PackageFormat::from_extension("bin"), Some(PackageFormat::Bin));
    assert_eq!(PackageFormat::from_extension("txt"), None);
    assert_eq!(PackageFormat::from_extension("JSON"), None);
    assert_eq!(PackageFormat::from_extension(""), None);
}

#[test]
fn segment_midpoint_law() {
    let u = segment("a", 101, 200);
    assert_eq!(u.midpoint.value, 150);
    let v = segment("a", 7, 7);
    assert_eq!(v.midpoint.value, 7);
}

#[test]
fn normalize_to_gives_the_exact_audio_path() {
    let mut f = FileDescriptor::new(
        "b.wav".to_string(),
        vec![segment("y", 50, 60), segment("x", 10, 20)],
    );
    f.normalize_to("/abs/b.wav");
    let currs: Vec<&str> = f.labels.iter().map(|u| u.curr.as_str()).collect();
    assert_eq!(currs, vec!["x", "y"]);
    assert!(f.labels.iter().all(|u| u.audio_path == "/abs/b.wav"));
}
