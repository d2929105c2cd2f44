//! A clip cut from a source video.
use vstd::prelude::*;

verus! {

/// The mathematical form of a clip record, as far as listings read it.
pub struct ClipView {
    pub id: int,
    pub source: Seq<char>,
    pub clip_filename: Seq<char>,
    pub start: int,
    pub end: int,
}

/// A clip of a source video, between two offsets.
#[derive(Clone, Debug)]
pub struct Model {
    pub id: i32,
    pub working_directory: String,
    pub source_filename: String,
    pub clip_filename: String,
    pub start: i64,
    pub end: i64,
    pub name: Option<String>,
    pub description: Option<String>,
}

impl View for Model {
    type V = ClipView;

    open spec fn view(&self) -> ClipView {
        ClipView {
            id: self.id as int,
            source: self.source_filename@,
            clip_filename: self.clip_filename@,
            start: self.start as int,
            end: self.end as int,
        }
    }
}

} // verus!
