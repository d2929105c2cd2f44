//! The fields of the forms that create clips, points and tags.
use vstd::prelude::*;

verus! {

/// A new clip: its bounds, and an optional name and description.
#[derive(Clone, Debug)]
pub struct ClipForm {
    pub start: i64,
    pub end: i64,
    pub name: Option<String>,
    pub description: Option<String>,
}

/// A new point: its time in milliseconds and an optional name.
#[derive(Clone, Debug)]
pub struct PointForm {
    pub time: i64,
    pub name: Option<String>,
}

/// A new tag: its text.
#[derive(Clone, Debug)]
pub struct TagForm {
    pub tag: String,
}

} // verus!
