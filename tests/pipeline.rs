use openvb::generate::{
    assemble_library, canonical_label, keep_pitched, phones_tier_index, segments_from_intervals,
    GeneratorConfig, SourceDataType, SourcePhoneset, UnitPlan,
};
use openvb::ipa::{FromIPA, ToIPA};
use openvb::time::Timestamp;
use openvb::utterance::{FileDescriptor, Utterance};

fn intervals(items: &[(u64, u64, &str)]) -> Vec<(Timestamp, Timestamp, String)> {
    items.iter().map(|(s, e, l)| (Timestamp::new(*s), Timestamp::new(*e), l.to_string())).collect()
}

fn config(phoneset: SourcePhoneset) -> GeneratorConfig {
    GeneratorConfig {
        language: "en".to_string(),
        name: "Test Dataset".to_string(),
        phoneset,
        data_type: SourceDataType::TextGrid,
        path: "/data".to_string(),
    }
}

/// A file built by a worker: three intervals (silence, `curr`, silence) and
/// the note estimated for the middle one.
fn built_file(path: &str, curr: &str, note: u8) -> FileDescriptor {
    let segs = segments_from_intervals(&intervals(&[(0, 100_000, "sil"), (100_000, 400_000, curr), (400_000, 500_000, "sil")]));
    let estimates: Vec<Option<u8>> = segs.iter().map(|u| if u.needs_pitch() { Some(note) } else { None }).collect();
    FileDescriptor::new(path.to_string(), keep_pitched(segs, &estimates))
}

#[test]
fn phoneset_names() {
    for p in [SourcePhoneset::Arpabet, SourcePhoneset::IPA, SourcePhoneset::XSampa, SourcePhoneset::Unset] {
        assert_eq!(SourcePhoneset::from_string(&p.to_string()), p);
    }
    assert_eq!(SourcePhoneset::IPA.to_string(), "ipa");
    assert_eq!(SourcePhoneset::Unset.to_string(), "none");
    assert_eq!(SourcePhoneset::from_string("xsampa"), SourcePhoneset::XSampa);
}

#[test]
fn data_type_names() {
    for d in [SourceDataType::TextGrid, SourceDataType::OtoIni, SourceDataType::Label, SourceDataType::Empty] {
        assert_eq!(SourceDataType::from_string(&d.to_string()), d);
    }
    assert_eq!(SourceDataType::TextGrid.to_string(), "textgrid");
    assert_eq!(SourceDataType::from_string("otoini"), SourceDataType::OtoIni);
}

#[test]
fn segments_take_neighbours_as_context() {
    let segs = segments_from_intervals(&intervals(&[(0, 10, "a"), (10, 21, "b"), (21, 30, "c")]));
    assert_eq!(segs.len(), 3);
    assert_eq!((segs[0].prev.as_str(), segs[0].curr.as_str(), segs[0].next.as_str()), ("sil", "a", "b"));
    assert_eq!((segs[1].prev.as_str(), segs[1].curr.as_str(), segs[1].next.as_str()), ("a", "b", "c"));
    assert_eq!((segs[2].prev.as_str(), segs[2].curr.as_str(), segs[2].next.as_str()), ("b", "c", "sil"));
    assert_eq!(segs[1].midpoint.value, 15);
    assert_eq!(segs[2].midpoint.value, 25);
    assert!(segs.iter().all(|u| u.pitch.is_none() && u.flags == 0));
    assert!(segments_from_intervals(&vec![]).is_empty());
}

#[test]
fn pitch_kept_only_where_found() {
    let segs = segments_from_intervals(&intervals(&[(0, 10, "sil"), (10, 20, "a"), (20, 30, "e"), (30, 40, "br")]));
    let kept = keep_pitched(segs, &vec![Some(60), Some(62), None, Some(61)]);
    assert_eq!(kept.len(), 1);
    assert_eq!(kept[0].curr, "a");
    assert_eq!(kept[0].pitch, Some(62));
}

#[test]
fn placeholder_labels() {
    assert_eq!(canonical_label("SP"), "sil");
    assert_eq!(canonical_label("AP"), "br");
    assert_eq!(canonical_label("r0"), "r");
    assert_eq!(canonical_label("d0"), "d");
    assert_eq!(canonical_label("a"), "a");
}

#[test]
fn phones_tier_is_found_by_name_and_kind() {
    let tiers = vec![("words".to_string(), true), ("phones".to_string(), false), ("phones".to_string(), true)];
    assert_eq!(phones_tier_index(&tiers), Some(2));
    assert_eq!(phones_tier_index(&vec![("words".to_string(), true)]), None);
}

#[test]
fn failed_unit_is_left_out() {
    let results = vec![
        Some(FileDescriptor::new("1.wav".to_string(), vec![])),
        Some(FileDescriptor::new("2.wav".to_string(), vec![])),
        None,
        Some(FileDescriptor::new("4.wav".to_string(), vec![])),
        Some(FileDescriptor::new("5.wav".to_string(), vec![])),
    ];
    let lib = assemble_library(results);
    assert_eq!(lib.files.len(), 4);
    assert!(lib.is_default);
    assert_eq!(lib.name, "Default");
    let paths: Vec<&str> = lib.files.iter().map(|f| f.path.as_str()).collect();
    assert_eq!(paths, vec!["1.wav", "2.wav", "4.wav", "5.wav"]);
}

#[test]
fn dataset_of_three_files_one_unannotated() {
    // 220 Hz is note 57, 440 Hz note 69
    let results = vec![Some(built_file("one.wav", "a", 57)), None, Some(built_file("two.wav", "a", 69))];
    let singer = config(SourcePhoneset::XSampa).assemble(results, "2024-05-01T12:00:00+00:00".to_string());
    assert_eq!(singer.meta.name, "Test Dataset");
    assert_eq!(singer.libraries.len(), 1);
    let lib = &singer.libraries[0];
    assert_eq!(lib.files.len(), 2);
    for (file, note) in lib.files.iter().zip([57u8, 69]) {
        assert_eq!(file.labels.len(), 1);
        assert_eq!(file.labels[0].curr, "a");
        assert_eq!(file.labels[0].pitch, Some(note));
        assert_eq!(file.labels[0].prev, "sil");
        assert_eq!(file.labels[0].next, "sil");
    }
}

#[test]
fn ipa_source_is_converted() {
    let segs = segments_from_intervals(&intervals(&[(0, 10, "sil"), (10, 20, "ə"), (20, 30, "æ")]));
    let results = vec![Some(FileDescriptor::new("x.wav".to_string(), segs))];
    let singer = config(SourcePhoneset::IPA).assemble(results, "2024-05-01T12:00:00+00:00".to_string());
    let labels = &singer.libraries[0].files[0].labels;
    assert_eq!(labels[1].curr, "@");
    assert_eq!(labels[1].prev, "sil");
    assert_eq!(labels[1].next, "{");
    assert_eq!(labels[2].curr, "{");
    assert_eq!(labels[2].next, "sil");
}

#[test]
fn token_conversion_both_ways() {
    let mut u = Utterance::new("sil".to_string(), "@".to_string(), "{".to_string(), Timestamp::new(0), Timestamp::new(1));
    u.to_ipa();
    assert_eq!(u.prev, "sil");
    assert_eq!(u.curr, "ə");
    assert_eq!(u.next, "æ");
    u.from_ipa();
    assert_eq!(u.curr, "@");
    assert_eq!(u.next, "{");
}

#[test]
fn unit_plans_tell_empty_from_unsupported() {
    assert_eq!(SourceDataType::TextGrid.unit_plan(), UnitPlan::ParseTextGrid);
    assert_eq!(SourceDataType::Empty.unit_plan(), UnitPlan::NoAnnotation);
    assert_eq!(SourceDataType::Label.unit_plan(), UnitPlan::Unsupported);
    assert_eq!(SourceDataType::OtoIni.unit_plan(), UnitPlan::Unsupported);
}

#[test]
fn silent_tokens_are_not_converted() {
    // "br" and "cl" hold letters that the translation table would rewrite
    let mut u = Utterance::new("pau".to_string(), "br".to_string(), "cl".to_string(), Timestamp::new(0), Timestamp::new(1));
    u.to_ipa();
    assert_eq!((u.prev.as_str(), u.curr.as_str(), u.next.as_str()), ("pau", "br", "cl"));
    u.from_ipa();
    assert_eq!((u.prev.as_str(), u.curr.as_str(), u.next.as_str()), ("pau", "br", "cl"));
}
