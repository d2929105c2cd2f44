//! What the tagging service returns for an image, and the request text it is sent.
use vstd::prelude::*;

verus! {

/// Tags and a short description of an image, as the tagging service returns them.
#[derive(Debug)]
pub struct ImageTags {
    pub tags: Vec<String>,
    pub description: String,
}

/// Why a tagging round trip gave no tags.
#[derive(Debug)]
pub enum TagError {
    /// The request did not complete.
    RequestFailed(String),
    /// The reply was not JSON or did not hold the expected fields.
    MalformedResponse(String),
}

impl TagError {
    /// The text that explains the failure.
    pub open spec fn reason(&self) -> Seq<char> {
        match self {
            TagError::RequestFailed(m) => m@,
            TagError::MalformedResponse(m) => m@,
        }
    }

    /// The text that explains the failure.
    pub fn message(&self) -> (r: String)
        ensures
            r@ == self.reason(),
    {
        match self {
            TagError::RequestFailed(m) => m.clone(),
            TagError::MalformedResponse(m) => m.clone(),
        }
    }
}

/// The instruction sent to the tagging service for an image.
pub open spec fn prompt_for(image_url: Seq<char>) -> Seq<char> {
    "Generate tags and a short description for this image: "@ + image_url
}

/// The instruction that asks the tagging service for tags and a description of
/// the image at `image_url`.
pub fn tagging_prompt(image_url: &str) -> (r: String)
    ensures
        r@ == prompt_for(image_url@),
{
    let mut r = String::from_str("Generate tags and a short description for this image: ");
    r.append(image_url);
    r
}

} // verus!
