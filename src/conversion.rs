//! The conversion job: its operation, its status and the stored row.
use vstd::prelude::*;
use crate::text::{ascii_lower_text, lowercase_of, same_text, to_lowercase};

verus! {

/// Seconds after which an unfinished job is taken as abandoned.
pub const STALE_AFTER_SECS: i64 = 3600;

/// The kinds of conversion the dispatcher knows.
#[derive(Clone, Copy, Debug, PartialEq, Eq, Structural)]
pub enum Operation {
    Thumbnail,
    Scaledown,
    Makeclip,
    Categorize,
}

/// Where a job stands in its lifecycle.
#[derive(Clone, Copy, Debug, PartialEq, Eq, Structural)]
pub enum Status {
    Pending,
    Running,
    Completed,
    Failed,
}

/// The operation named by an already lower-cased text; `None` for any other text.
pub open spec fn operation_named(s: Seq<char>) -> Option<Operation> {
    if s == "thumbnail"@ {
        Some(Operation::Thumbnail)
    } else if s == "scaledown"@ {
        Some(Operation::Scaledown)
    } else if s == "makeclip"@ {
        Some(Operation::Makeclip)
    } else if s == "categorize"@ {
        Some(Operation::Categorize)
    } else {
        None
    }
}

/// The operation a stored operation text stands for, ignoring case.
pub open spec fn parse_operation(s: Seq<char>) -> Option<Operation> {
    operation_named(lowercase_of(s))
}

impl Operation {
    /// Reads an operation from its lower-case name.
    pub fn from_lowercase(s: &str) -> (r: Option<Operation>)
        ensures
            r == operation_named(s@),
    {
        if same_text(s, "thumbnail") {
            Some(Operation::Thumbnail)
        } else if same_text(s, "scaledown") {
            Some(Operation::Scaledown)
        } else if same_text(s, "makeclip") {
            Some(Operation::Makeclip)
        } else if same_text(s, "categorize") {
            Some(Operation::Categorize)
        } else {
            None
        }
    }

    /// Reads an operation from its name in any case; `None` stands for an
    /// operation this dispatcher does not know.
    pub fn from_str_case_insensitive(s: &str) -> (r: Option<Operation>)
        ensures
            r == parse_operation(s@),
            ascii_lower_text(s@) ==> r == operation_named(s@),
    {
        let lower = to_lowercase(s);
        Operation::from_lowercase(lower.as_str())
    }
}

impl Status {
    /// Completed and Failed are terminal; Pending and Running are active.
    pub open spec fn is_terminal(self) -> bool {
        self is Completed || self is Failed
    }

    /// Whether the status is Completed or Failed.
    pub fn terminal(&self) -> (r: bool)
        ensures
            r == self.is_terminal(),
    {
        match self {
            Status::Completed | Status::Failed => true,
            _ => false,
        }
    }

    /// The lower-case name under which the status is stored.
    pub open spec fn name_of(self) -> Seq<char> {
        match self {
            Status::Pending => "pending"@,
            Status::Running => "running"@,
            Status::Completed => "completed"@,
            Status::Failed => "failed"@,
        }
    }

    /// The stored name of the status.
    pub fn name(&self) -> (r: &'static str)
        ensures
            r@ == self.name_of(),
    {
        match self {
            Status::Pending => "pending",
            Status::Running => "running",
            Status::Completed => "completed",
            Status::Failed => "failed",
        }
    }

    /// Reads a status from its stored name; `None` for any other text.
    pub fn from_name(s: &str) -> (r: Option<Status>)
        ensures
            r matches Some(st) ==> st.name_of() == s@,
            r is None ==> forall|st: Status| st.name_of() != s@,
    {
        proof {
            reveal_strlit("pending");
            reveal_strlit("running");
            reveal_strlit("completed");
            reveal_strlit("failed");
        }
        if same_text(s, "pending") {
            Some(Status::Pending)
        } else if same_text(s, "running") {
            Some(Status::Running)
        } else if same_text(s, "completed") {
            Some(Status::Completed)
        } else if same_text(s, "failed") {
            Some(Status::Failed)
        } else {
            proof {
                assert forall|st: Status| st.name_of() != s@ by {
                    match st {
                        Status::Pending => {},
                        Status::Running => {},
                        Status::Completed => {},
                        Status::Failed => {},
                    }
                }
            }
            None
        }
    }
}

/// The mathematical form of a stored job.
pub struct JobView {
    pub id: int,
    pub source: Seq<char>,
    pub operation: Seq<char>,
    pub time_requested: int,
    pub time_completed: Option<int>,
    pub status: Status,
    pub times_tried: int,
}

impl JobView {
    /// Pending or Running.
    pub open spec fn is_active(self) -> bool {
        !self.status.is_terminal()
    }

    /// The job is for this source file and this operation text.
    pub open spec fn has_key(self, source: Seq<char>, operation: Seq<char>) -> bool {
        self.source == source && self.operation == operation
    }

    /// Requested less than the staleness window before `now` (or after it).
    pub open spec fn is_fresh_at(self, now: int) -> bool {
        now - self.time_requested < STALE_AFTER_SECS
    }

    /// A completion time is recorded exactly when the status is terminal.
    pub open spec fn completion_consistent(self) -> bool {
        self.time_completed is Some <==> self.status.is_terminal()
    }
}

/// A stored conversion job.
#[derive(Debug)]
pub struct Model {
    pub id: i32,
    pub source_filename: String,
    pub operation: String,
    pub time_requested: i64,
    pub time_completed: Option<i64>,
    pub status: Status,
    pub times_tried: i32,
}

pub open spec fn opt_int(t: Option<i64>) -> Option<int> {
    match t {
        Some(v) => Some(v as int),
        None => None,
    }
}

impl View for Model {
    type V = JobView;

    open spec fn view(&self) -> JobView {
        JobView {
            id: self.id as int,
            source: self.source_filename@,
            operation: self.operation@,
            time_requested: self.time_requested as int,
            time_completed: opt_int(self.time_completed),
            status: self.status,
            times_tried: self.times_tried as int,
        }
    }
}

impl Clone for Model {
    fn clone(&self) -> (r: Self)
        ensures
            r@ == self@,
    {
        Model {
            id: self.id,
            source_filename: self.source_filename.clone(),
            operation: self.operation.clone(),
            time_requested: self.time_requested,
            time_completed: self.time_completed,
            status: self.status,
            times_tried: self.times_tried,
        }
    }
}

impl Model {
    /// The operation this job asks for, ignoring case; `None` when unknown.
    pub fn operation_kind(&self) -> (r: Option<Operation>)
        ensures
            r == parse_operation(self.operation@),
    {
        Operation::from_str_case_insensitive(self.operation.as_str())
    }
}

} // verus!
