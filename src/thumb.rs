//! The thumbnail command of the external media tool.
use vstd::prelude::*;

verus! {

/// The tool's arguments that write one scaled-down frame of `input` to `output`.
pub open spec fn thumbnail_args(input: Seq<char>, output: Seq<char>) -> Seq<Seq<char>> {
    seq!["-i"@, input, "-vf"@, "thumbnail,scale=320:180"@, "-frames:v"@, "1"@, output]
}

/// The view of a list of texts.
pub open spec fn texts(v: Seq<String>) -> Seq<Seq<char>> {
    v.map_values(|s: String| s@)
}

/// Thumbnail generation through the external media tool.
pub struct Thumb {}

impl Thumb {
    /// The arguments that make the tool pick a representative frame of `input`,
    /// scale it to 320x180 and write it to `output`.
    pub fn arguments(input: &str, output: &str) -> (r: Vec<String>)
        ensures
            texts(r@) == thumbnail_args(input@, output@),
    {
        let mut v: Vec<String> = Vec::new();
        v.push(String::from_str("-i"));
        v.push(String::from_str(input));
        v.push(String::from_str("-vf"));
        v.push(String::from_str("thumbnail,scale=320:180"));
        v.push(String::from_str("-frames:v"));
        v.push(String::from_str("1"));
        v.push(String::from_str(output));
        assert(texts(v@) =~= thumbnail_args(input@, output@));
        v
    }
}

} // verus!
