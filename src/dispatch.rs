//! The dispatcher: what a job's operation asks of the external tool and of the
//! tagging service, step by step, and how each outcome ends the job.
//!
//! The dispatcher never performs a call itself. `Model::process` takes the
//! latest event of a job (its start, the tool's exit, the tagging reply) and
//! answers the next action; whoever runs the job performs it and reports back.
use vstd::prelude::*;
use crate::ai::{ImageTags, TagError};
use crate::conversion::{parse_operation, JobView, Model, Operation, Status};
use crate::path::{file_stem, file_stem_of, join, joined, parent, parent_of};
use crate::store::MAX_ID;
use crate::tag::{add_tag, add_tags, is_dup, lemma_tagging_idempotent, matches_tag, TagStore, TagStoreView, TagView};
use crate::text::{decimal, decimal_of, push_decimal, slug_of};
use crate::thumb::{texts, thumbnail_args, Thumb};

verus! {

/// Why the external tool did not succeed.
#[derive(Debug)]
pub enum ToolError {
    /// The tool ran and exited with this non-zero code (-1 when killed by a signal).
    NonZeroExit(i32),
    /// The tool could not be started, for the reason given.
    SpawnFailed(String),
}

impl ToolError {
    /// The text that explains the failure.
    pub open spec fn reason(&self) -> Seq<char> {
        match self {
            ToolError::NonZeroExit(code) => "ffmpeg failed with exit code: "@ + decimal_of(*code as int),
            ToolError::SpawnFailed(m) => m@,
        }
    }

    /// The text that explains the failure.
    pub fn message(&self) -> (r: String)
        ensures
            r@ == self.reason(),
    {
        match self {
            ToolError::NonZeroExit(code) => {
                let mut r = String::from_str("ffmpeg failed with exit code: ");
                push_decimal(&mut r, *code as i128);
                r
            },
            ToolError::SpawnFailed(m) => m.clone(),
        }
    }
}

/// What happened to a job since its last action.
#[derive(Debug)]
pub enum Event {
    /// The worker picked the job up.
    Start,
    /// The external tool exited.
    ToolFinished(Result<(), ToolError>),
    /// The tagging service answered.
    TagsReceived(Result<ImageTags, TagError>),
}

/// The mathematical form of an event: the tool's failure reason (`None` when
/// it succeeded), and the tags received or the tagging failure's reason.
pub enum EventView {
    Start,
    ToolFinished(Option<Seq<char>>),
    TagsReceived(Result<Seq<Seq<char>>, Seq<char>>),
}

impl View for Event {
    type V = EventView;

    open spec fn view(&self) -> EventView {
        match self {
            Event::Start => EventView::Start,
            Event::ToolFinished(r) => EventView::ToolFinished(
                match r {
                    Ok(()) => None,
                    Err(e) => Some(e.reason()),
                },
            ),
            Event::TagsReceived(r) => EventView::TagsReceived(
                match r {
                    Ok(t) => Ok(texts(t.tags@)),
                    Err(e) => Err(e.reason()),
                },
            ),
        }
    }
}

/// What the runner of a job does next.
#[derive(Debug)]
pub enum Action {
    /// Create `dir` if it is absent, then run the external tool with `args`.
    RunTool { dir: String, args: Vec<String> },
    /// Ask the tagging service for the tags of the image at `image_url`.
    TagImage { image_url: String },
    /// Store this terminal status for the job; nothing more is to be done. A
    /// failure comes with its reason.
    Finish(Status, Option<String>),
}

/// The mathematical form of an action.
pub enum ActionView {
    RunTool { dir: Seq<char>, args: Seq<Seq<char>> },
    TagImage { image_url: Seq<char> },
    Finish(Status, Option<Seq<char>>),
}

impl View for Action {
    type V = ActionView;

    open spec fn view(&self) -> ActionView {
        match self {
            Action::RunTool { dir, args } => ActionView::RunTool { dir: dir@, args: texts(args@) },
            Action::TagImage { image_url } => ActionView::TagImage { image_url: image_url@ },
            Action::Finish(s, reason) => ActionView::Finish(
                *s,
                match reason {
                    Some(m) => Some(m@),
                    None => None,
                },
            ),
        }
    }
}

/// The directory that holds the frames extracted for tagging.
pub open spec fn frames_dir() -> Seq<char> {
    "segments/ai/conversions"@
}

/// Where the frame extracted for tagging job `id` is written.
pub open spec fn frame_path(id: int) -> Seq<char> {
    joined(frames_dir(), decimal_of(id) + ".jpg"@)
}

/// The public address under which that frame is served.
pub open spec fn frame_url(id: int) -> Seq<char> {
    "https://media.aiowa.com/categorize/"@ + decimal_of(id) + ".jpg"@
}

/// The tool's arguments that write the frame one second into `source` to `output`.
pub open spec fn frame_args(source: Seq<char>, output: Seq<char>) -> Seq<Seq<char>> {
    seq!["-ss"@, "1"@, "-i"@, source, "-frames:v"@, "1"@, "-q:v"@, "2"@, output]
}

/// The next action of `job` after event `e`.
///
/// A thumbnail runs the tool once and ends Completed or Failed with it. A
/// categorisation runs the tool to extract a frame, then asks for tags of that
/// frame, and ends Completed once tags arrive; a failure at either step ends it
/// Failed, and no tags are asked for after a tool failure. Every Failed ending
/// carries the reason: the tool's or the tagging service's, an invalid source
/// path, or an event that the operation never waits for. Scale-down and clip
/// making do nothing yet, and an operation that is not known does nothing:
/// such jobs end Completed without any call.
pub open spec fn next_action(job: JobView, e: EventView) -> ActionView {
    match parse_operation(job.operation) {
        Some(Operation::Thumbnail) => match e {
            EventView::Start => match (parent_of(job.source), file_stem_of(job.source)) {
                (Some(p), Some(stem)) => ActionView::RunTool {
                    dir: joined(p, "thumbs"@),
                    args: thumbnail_args(job.source, joined(joined(p, "thumbs"@), stem + ".webp"@)),
                },
                (None, _) => ActionView::Finish(Status::Failed, Some("Invalid source path"@)),
                (Some(_), None) => ActionView::Finish(Status::Failed, Some("Invalid filename"@)),
            },
            EventView::ToolFinished(None) => ActionView::Finish(Status::Completed, None),
            EventView::ToolFinished(Some(reason)) => ActionView::Finish(Status::Failed, Some(reason)),
            EventView::TagsReceived(_) => ActionView::Finish(Status::Failed, Some(unexpected_reply())),
        },
        Some(Operation::Categorize) => match e {
            EventView::Start => ActionView::RunTool { dir: frames_dir(), args: frame_args(job.source, frame_path(job.id)) },
            EventView::ToolFinished(None) => ActionView::TagImage { image_url: frame_url(job.id) },
            EventView::ToolFinished(Some(reason)) => ActionView::Finish(Status::Failed, Some(reason)),
            EventView::TagsReceived(Ok(_)) => ActionView::Finish(Status::Completed, None),
            EventView::TagsReceived(Err(reason)) => ActionView::Finish(Status::Failed, Some(reason)),
        },
        _ => ActionView::Finish(Status::Completed, None),
    }
}

/// The reason given when a thumbnail job receives a tagging reply.
pub open spec fn unexpected_reply() -> Seq<char> {
    "Unexpected tagging reply for a thumbnail"@
}

/// The tag table after event `e` of `job`: the received tags are offered for
/// the job's source when a categorisation receives them, and nothing changes
/// otherwise.
pub open spec fn tags_after(job: JobView, e: EventView, s: TagStoreView) -> TagStoreView {
    match (parse_operation(job.operation), e) {
        (Some(Operation::Categorize), EventView::TagsReceived(Ok(tags))) => add_tags(s, job.source, tags),
        _ => s,
    }
}

/// A job whose operation is not known ends Completed on whatever event comes,
/// without running the tool, without asking for tags and without storing any.
pub proof fn lemma_unknown_operation_is_noop(job: JobView, e: EventView, s: TagStoreView)
    requires
        parse_operation(job.operation) is None,
    ensures
        next_action(job, e) == ActionView::Finish(Status::Completed, None),
        tags_after(job, e, s) == s,
{
}

/// A categorisation whose frame extraction fails ends Failed with the tool's
/// reason: no tagging request is made and no tag is stored.
pub proof fn lemma_categorize_tool_failure(job: JobView, reason: Seq<char>, s: TagStoreView)
    requires
        parse_operation(job.operation) == Some(Operation::Categorize),
    ensures
        next_action(job, EventView::ToolFinished(Some(reason))) == ActionView::Finish(Status::Failed, Some(reason)),
        tags_after(job, EventView::ToolFinished(Some(reason)), s) == s,
{
}

/// A categorisation that receives two different tags, with different slugs,
/// for a source that has no stored tag, stores exactly those two for it, in
/// order and with the next ids, and ends Completed.
pub proof fn lemma_categorize_stores_new_tags(job: JobView, t1: Seq<char>, t2: Seq<char>, s: TagStoreView)
    requires
        parse_operation(job.operation) == Some(Operation::Categorize),
        forall|k: int| 0 <= k < s.rows.len() ==> #[trigger] s.rows[k].source != job.source,
        t1 != t2,
        slug_of(t1) != slug_of(t2),
        s.next_id + 1 <= MAX_ID,
    ensures
        next_action(job, EventView::TagsReceived(Ok(seq![t1, t2]))) == ActionView::Finish(Status::Completed, None),
        tags_after(job, EventView::TagsReceived(Ok(seq![t1, t2])), s) == (TagStoreView {
            rows: s.rows.push(TagView { id: s.next_id, source: job.source, tag: t1, slug: slug_of(t1) }).push(
                TagView { id: s.next_id + 1, source: job.source, tag: t2, slug: slug_of(t2) },
            ),
            next_id: s.next_id + 2,
        }),
{
    let tags = seq![t1, t2];
    assert(tags.drop_last() =~= seq![t1]);
    assert(seq![t1].drop_last() =~= Seq::<Seq<char>>::empty());
    assert(add_tags(s, job.source, Seq::<Seq<char>>::empty()) == s);
    assert(!is_dup(s.rows, job.source, t1, slug_of(t1))) by {
        if is_dup(s.rows, job.source, t1, slug_of(t1)) {
            let i = choose|i: int| 0 <= i < s.rows.len() && #[trigger] matches_tag(s.rows[i], job.source, t1, slug_of(t1));
            assert(s.rows[i].source != job.source);
        }
    }
    let s1 = add_tag(s, job.source, t1);
    assert(add_tags(s, job.source, seq![t1]) == s1);
    assert(!is_dup(s1.rows, job.source, t2, slug_of(t2))) by {
        if is_dup(s1.rows, job.source, t2, slug_of(t2)) {
            let i = choose|i: int| 0 <= i < s1.rows.len() && #[trigger] matches_tag(s1.rows[i], job.source, t2, slug_of(t2));
            if i < s.rows.len() {
                assert(s1.rows[i] == s.rows[i]);
            }
        }
    }
}

/// Two categorisations of the same source that receive the same tags leave the
/// tag table as the first one left it: the second stores no row.
pub proof fn lemma_categorize_twice(job1: JobView, job2: JobView, tags: Seq<Seq<char>>, s: TagStoreView)
    requires
        parse_operation(job1.operation) == Some(Operation::Categorize),
        parse_operation(job2.operation) == Some(Operation::Categorize),
        job1.source == job2.source,
    ensures
        tags_after(job2, EventView::TagsReceived(Ok(tags)), tags_after(job1, EventView::TagsReceived(Ok(tags)), s))
            == tags_after(job1, EventView::TagsReceived(Ok(tags)), s),
{
    lemma_tagging_idempotent(s, job1.source, tags);
}

/// The tool's arguments for extracting the tagging frame.
fn frame_arguments(source: &str, output: &str) -> (r: Vec<String>)
    ensures
        texts(r@) == frame_args(source@, output@),
{
    let mut v: Vec<String> = Vec::new();
    v.push(String::from_str("-ss"));
    v.push(String::from_str("1"));
    v.push(String::from_str("-i"));
    v.push(String::from_str(source));
    v.push(String::from_str("-frames:v"));
    v.push(String::from_str("1"));
    v.push(String::from_str("-q:v"));
    v.push(String::from_str("2"));
    v.push(String::from_str(output));
    assert(texts(v@) =~= frame_args(source@, output@));
    v
}

impl Model {
    /// The first action of a thumbnail job.
    fn thumbnail_start(&self) -> (r: Action)
        requires
            parse_operation(self.operation@) == Some(Operation::Thumbnail),
        ensures
            r@ == next_action(self@, EventView::Start),
    {
        let p = match parent(self.source_filename.as_str()) {
            Some(p) => p,
            None => return Action::Finish(Status::Failed, Some(String::from_str("Invalid source path"))),
        };
        let stem = match file_stem(self.source_filename.as_str()) {
            Some(stem) => stem,
            None => return Action::Finish(Status::Failed, Some(String::from_str("Invalid filename"))),
        };
        let dir = join(p.as_str(), "thumbs");
        let mut name = stem;
        name.append(".webp");
        let out = join(dir.as_str(), name.as_str());
        let args = Thumb::arguments(self.source_filename.as_str(), out.as_str());
        Action::RunTool { dir, args }
    }

    /// Where this job's tagging frame is written.
    pub fn frame_path(&self) -> (r: String)
        ensures
            r@ == frame_path(self.id as int),
    {
        let mut name = decimal(self.id as i64);
        name.append(".jpg");
        join("segments/ai/conversions", name.as_str())
    }

    /// The public address of this job's tagging frame.
    pub fn frame_url(&self) -> (r: String)
        ensures
            r@ == frame_url(self.id as int),
    {
        let mut url = String::from_str("https://media.aiowa.com/categorize/");
        let id = decimal(self.id as i64);
        url.append(id.as_str());
        url.append(".jpg");
        proof {
            assert(url@ =~= frame_url(self.id as int));
        }
        url
    }

    /// Takes the latest event of this job and answers its next action; when a
    /// categorisation receives tags, each of them is stored for the job's source
    /// unless a tag with the same slug or text is already stored for it.
    pub fn process(&self, event: &Event, tags: &mut TagStore) -> (r: Action)
        requires
            old(tags).wf(),
        ensures
            final(tags).wf(),
            r@ == next_action(self@, event@),
            final(tags)@ == tags_after(self@, event@, old(tags)@),
    {
        let op = self.operation_kind();
        match op {
            Some(Operation::Thumbnail) => match event {
                Event::Start => self.thumbnail_start(),
                Event::ToolFinished(Ok(())) => Action::Finish(Status::Completed, None),
                Event::ToolFinished(Err(e)) => Action::Finish(Status::Failed, Some(e.message())),
                Event::TagsReceived(_) => Action::Finish(
                    Status::Failed,
                    Some(String::from_str("Unexpected tagging reply for a thumbnail")),
                ),
            },
            Some(Operation::Categorize) => match event {
                Event::Start => {
                    let out = self.frame_path();
                    let args = frame_arguments(self.source_filename.as_str(), out.as_str());
                    let dir = String::from_str("segments/ai/conversions");
                    Action::RunTool { dir, args }
                },
                Event::ToolFinished(Ok(())) => Action::TagImage { image_url: self.frame_url() },
                Event::ToolFinished(Err(e)) => Action::Finish(Status::Failed, Some(e.message())),
                Event::TagsReceived(Ok(t)) => {
                    tags.add_all(&self.source_filename, &t.tags);
                    Action::Finish(Status::Completed, None)
                },
                Event::TagsReceived(Err(e)) => Action::Finish(Status::Failed, Some(e.message())),
            },
            _ => Action::Finish(Status::Completed, None),
        }
    }
}

} // verus!
