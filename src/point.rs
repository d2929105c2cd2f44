//! A marked point in time of a source video.
use vstd::prelude::*;

verus! {

/// The mathematical form of a point record.
pub struct PointView {
    pub id: int,
    pub source: Seq<char>,
    pub time: int,
    pub name: Option<Seq<char>>,
}

/// A named instant of a source video, in milliseconds from its start.
#[derive(Clone, Debug)]
pub struct Model {
    pub id: i32,
    pub source_filename: String,
    pub time: i64,
    pub name: Option<String>,
}

impl View for Model {
    type V = PointView;

    open spec fn view(&self) -> PointView {
        PointView {
            id: self.id as int,
            source: self.source_filename@,
            time: self.time as int,
            name: match self.name {
                Some(n) => Some(n@),
                None => None,
            },
        }
    }
}

} // verus!
