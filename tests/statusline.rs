use reasoning_translation::statusline::{
    circle_icon_for_percent, Segment, SegmentData, SegmentId, UsageSegment,
};

#[test]
fn test_get_circle_icon() {
    assert_eq!(circle_icon_for_percent(0).to_string(), "\u{f0a9e}");
    assert_eq!(circle_icon_for_percent(50).to_string(), "\u{f0aa1}");
    assert_eq!(circle_icon_for_percent(100).to_string(), "\u{f0aa5}");
}

#[test]
fn circle_icon_steps() {
    assert_eq!(circle_icon_for_percent(12), '\u{f0a9e}');
    assert_eq!(circle_icon_for_percent(13), '\u{f0a9f}');
    assert_eq!(circle_icon_for_percent(87), '\u{f0aa4}');
    assert_eq!(circle_icon_for_percent(88), '\u{f0aa5}');
}

#[test]
fn segment_ids_have_config_names() {
    assert_eq!(SegmentId::Model.as_str(), "model");
    assert_eq!(SegmentId::Directory.as_str(), "directory");
    assert_eq!(SegmentId::Git.as_str(), "git");
    assert_eq!(SegmentId::Context.as_str(), "context");
    assert_eq!(SegmentId::Usage.as_str(), "usage");
    assert_eq!(SegmentId::default(), SegmentId::Model);
    assert_eq!(UsageSegment.id(), SegmentId::Usage);
}

#[test]
fn segment_data_builders() {
    let data = SegmentData::new("42%".to_string())
        .with_secondary("· soon".to_string())
        .with_metadata("k".to_string(), "1".to_string())
        .with_metadata("k".to_string(), "2".to_string());
    assert_eq!(data.primary, "42%");
    assert_eq!(data.secondary, "· soon");
    assert_eq!(data.metadata.get(&"k".to_string()), Some("2".to_string()));
    assert_eq!(data.metadata.len(), 1);
    assert_eq!(data.metadata.get(&"x".to_string()), None);
}
