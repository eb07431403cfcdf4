//! Status-line segment data.
use vstd::prelude::*;

use crate::text_map::TextMap;

verus! {

/// Which segment of the status line.
#[derive(Debug, Clone, Copy, PartialEq, Eq, Structural, Hash, Default)]
pub enum SegmentId {
    #[default]
    Model,
    Directory,
    Git,
    Context,
    Usage,
}

pub open spec fn segment_name_spec(id: SegmentId) -> Seq<char> {
    match id {
        SegmentId::Model => "model"@,
        SegmentId::Directory => "directory"@,
        SegmentId::Git => "git"@,
        SegmentId::Context => "context"@,
        SegmentId::Usage => "usage"@,
    }
}

impl SegmentId {
    /// The segment's name in configuration.
    pub fn as_str(&self) -> (r: &'static str)
        ensures
            r@ == segment_name_spec(*self),
    {
        match self {
            SegmentId::Model => "model",
            SegmentId::Directory => "directory",
            SegmentId::Git => "git",
            SegmentId::Context => "context",
            SegmentId::Usage => "usage",
        }
    }
}

/// What a segment collected: a primary text, an optional secondary text,
/// and named metadata.
pub struct SegmentData {
    pub primary: String,
    pub secondary: String,
    pub metadata: TextMap,
}

impl SegmentData {
    pub open spec fn wf(&self) -> bool {
        self.metadata.wf()
    }

    /// Data with a primary text only.
    pub fn new(primary: String) -> (r: Self)
        ensures
            r.wf(),
            r.primary@ == primary@,
            r.secondary@ == Seq::<char>::empty(),
            r.metadata.view_map() == Map::<Seq<char>, Seq<char>>::empty(),
    {
        SegmentData { primary, secondary: String::new(), metadata: TextMap::new() }
    }

    /// The same data with `secondary` as its secondary text.
    pub fn with_secondary(self, secondary: String) -> (r: Self)
        requires
            self.wf(),
        ensures
            r.wf(),
            r.primary == self.primary,
            r.secondary@ == secondary@,
            r.metadata.view_map() == self.metadata.view_map(),
    {
        let mut data = self;
        data.secondary = secondary;
        data
    }

    /// The same data with `value` stored under `key`.
    pub fn with_metadata(self, key: String, value: String) -> (r: Self)
        requires
            self.wf(),
        ensures
            r.wf(),
            r.primary == self.primary,
            r.secondary == self.secondary,
            r.metadata.view_map() == self.metadata.view_map().insert(key@, value@),
    {
        let mut data = self;
        data.metadata.insert(key, value);
        data
    }
}

/// Git details shown in the configuration preview.
#[derive(Debug)]
pub struct GitPreviewData {
    pub branch: String,
    pub status: String,
    pub ahead: u32,
    pub behind: u32,
}

/// A status-line segment.
pub trait Segment {
    /// Which segment this is.
    fn id(&self) -> SegmentId;
}

/// The rate-limit usage segment.
pub struct UsageSegment;

impl Segment for UsageSegment {
    fn id(&self) -> SegmentId {
        SegmentId::Usage
    }
}

/// The slice icon for a usage of `percent`, one of eight steps of a circle.
pub open spec fn circle_icon_spec(percent: u8) -> Seq<char> {
    if percent <= 12 {
        seq!['\u{f0a9e}']
    } else if percent <= 25 {
        seq!['\u{f0a9f}']
    } else if percent <= 37 {
        seq!['\u{f0aa0}']
    } else if percent <= 50 {
        seq!['\u{f0aa1}']
    } else if percent <= 62 {
        seq!['\u{f0aa2}']
    } else if percent <= 75 {
        seq!['\u{f0aa3}']
    } else if percent <= 87 {
        seq!['\u{f0aa4}']
    } else {
        seq!['\u{f0aa5}']
    }
}

/// The circle-slice icon for a usage given in whole percent.
pub fn circle_icon_for_percent(percent: u8) -> (r: char)
    ensures
        seq![r] == circle_icon_spec(percent),
{
    if percent <= 12 {
        '\u{f0a9e}'
    } else if percent <= 25 {
        '\u{f0a9f}'
    } else if percent <= 37 {
        '\u{f0aa0}'
    } else if percent <= 50 {
        '\u{f0aa1}'
    } else if percent <= 62 {
        '\u{f0aa2}'
    } else if percent <= 75 {
        '\u{f0aa3}'
    } else if percent <= 87 {
        '\u{f0aa4}'
    } else {
        '\u{f0aa5}'
    }
}

} // verus!
