//! Plans for cutting clips out of a source video with the external media tool:
//! where the cut is written and the tool's arguments. Creating the directory
//! and starting the tool are left to the caller.
use vstd::prelude::*;
use crate::path::{file_stem, file_stem_of, join, joined, parent, parent_of};
use crate::text::{decimal_of, digits, push_decimal, push_digits, push_three_digits, three_digits};
use crate::thumb::texts;

verus! {

/// Milliseconds kept on each side of a point.
pub const POINT_MARGIN_MS: i64 = 3000;

/// Why no cut can be made.
#[derive(Clone, Copy, Debug, PartialEq, Eq, Structural)]
pub enum CutError {
    /// The end is not after the start.
    InvalidDuration,
}

impl CutError {
    /// The message shown for the error.
    pub fn message(&self) -> (r: &'static str)
        ensures
            r@ == "Invalid clip duration"@,
    {
        "Invalid clip duration"
    }
}

/// The mathematical form of a cut plan.
pub struct CutPlanView {
    pub dir: Option<Seq<char>>,
    pub output: Seq<char>,
    pub args: Seq<Seq<char>>,
}

/// A cut to make: the directory to create first (if any), the file written,
/// and the tool's arguments.
#[derive(Debug)]
pub struct CutPlan {
    pub dir: Option<String>,
    pub output: String,
    pub args: Vec<String>,
}

pub open spec fn opt_text(o: Option<String>) -> Option<Seq<char>> {
    match o {
        Some(s) => Some(s@),
        None => None,
    }
}

impl View for CutPlan {
    type V = CutPlanView;

    open spec fn view(&self) -> CutPlanView {
        CutPlanView { dir: opt_text(self.dir), output: self.output@, args: texts(self.args@) }
    }
}

/// The file name of a clip: the source's stem (empty when it has none), then
/// the start and the end.
pub open spec fn clip_file_name(source: Seq<char>, start: int, end: int) -> Seq<char> {
    let stem = match file_stem_of(source) {
        Some(s) => s,
        None => Seq::empty(),
    };
    stem + "-"@ + decimal_of(start) + "-"@ + decimal_of(end) + ".mp4"@
}

/// The `clips` directory beside the source (beside `.` when the source has no parent).
pub open spec fn clips_dir(source: Seq<char>) -> Seq<char> {
    let p = match parent_of(source) {
        Some(p) => p,
        None => "."@,
    };
    joined(p, "clips"@)
}

/// The cut of `source` from `start` to `end` seconds, written into `output_dir`
/// when one is given and into the source's `clips` directory (created first)
/// otherwise; `None` when the end is not after the start.
pub open spec fn clip_cut(source: Seq<char>, start: int, end: int, output_dir: Option<Seq<char>>) -> Option<CutPlanView> {
    if end - start <= 0 {
        None
    } else {
        let name = clip_file_name(source, start, end);
        let (dir, output) = match output_dir {
            Some(d) => (None, joined(d, name)),
            None => (Some(clips_dir(source)), joined(clips_dir(source), name)),
        };
        Some(CutPlanView {
            dir,
            output,
            args: seq![
                "-i"@, source, "-ss"@, decimal_of(start), "-t"@, decimal_of(end - start), "-c"@, "copy"@, output
            ],
        })
    }
}

/// Seconds with exactly three decimals, for a time in milliseconds.
pub open spec fn seconds_fixed(ms: int) -> Seq<char> {
    let a = if ms < 0 { -ms } else { ms };
    let sign = if ms < 0 { "-"@ } else { Seq::empty() };
    sign + digits((a / 1000) as nat) + "."@ + three_digits((a % 1000) as nat)
}

/// The cut of six seconds of `source` centred on `point_time` milliseconds,
/// written to `output`, whose parent directory is created first.
pub open spec fn point_cut(source: Seq<char>, point_time: int, output: Seq<char>) -> CutPlanView {
    CutPlanView {
        dir: parent_of(output),
        output,
        args: seq![
            "-ss"@, seconds_fixed(point_time - POINT_MARGIN_MS), "-i"@, source, "-t"@,
            seconds_fixed(2 * POINT_MARGIN_MS), "-c"@, "copy"@, output
        ],
    }
}

/// Appends a time in milliseconds as seconds with three decimals.
pub fn push_seconds_fixed(out: &mut String, ms: i128)
    requires
        ms > i128::MIN,
    ensures
        final(out)@ == old(out)@ + seconds_fixed(ms as int),
{
    let a: u128 = if ms < 0 { (-ms) as u128 } else { ms as u128 };
    if ms < 0 {
        out.append("-");
    }
    push_digits(out, a / 1000);
    out.append(".");
    push_three_digits(out, a % 1000);
    proof {
        reveal_strlit("-");
        reveal_strlit(".");
        assert(final(out)@ =~= old(out)@ + seconds_fixed(ms as int));
    }
}

/// Plans the cut of `source` between `start` and `end` (seconds): the clip is
/// named after the source's stem and the bounds, and written into
/// `output_dir`, or into a `clips` directory beside the source. Refused when
/// the end is not after the start.
pub fn create_video_clip(source: &str, start: i64, end: i64, output_dir: Option<&str>) -> (r: Result<CutPlan, CutError>)
    ensures
        match r {
            Ok(p) => clip_cut(source@, start as int, end as int, match output_dir {
                Some(d) => Some(d@),
                None => None,
            }) == Some(p@),
            Err(e) => e == CutError::InvalidDuration && end - start <= 0,
        },
{
    let duration: i128 = end as i128 - start as i128;
    if duration <= 0 {
        return Err(CutError::InvalidDuration);
    }
    let mut name = match file_stem(source) {
        Some(s) => s,
        None => String::new(),
    };
    name.append("-");
    push_decimal(&mut name, start as i128);
    name.append("-");
    push_decimal(&mut name, end as i128);
    name.append(".mp4");
    proof {
        assert(name@ =~= clip_file_name(source@, start as int, end as int));
    }
    let (dir, output) = match output_dir {
        Some(d) => (None, join(d, name.as_str())),
        None => {
            let base = match parent(source) {
                Some(p) => p,
                None => String::from_str("."),
            };
            let clips = join(base.as_str(), "clips");
            let output = join(clips.as_str(), name.as_str());
            (Some(clips), output)
        },
    };
    let mut args: Vec<String> = Vec::new();
    args.push(String::from_str("-i"));
    args.push(String::from_str(source));
    args.push(String::from_str("-ss"));
    let mut t = String::new();
    push_decimal(&mut t, start as i128);
    args.push(t);
    args.push(String::from_str("-t"));
    let mut d = String::new();
    push_decimal(&mut d, duration);
    args.push(d);
    args.push(String::from_str("-c"));
    args.push(String::from_str("copy"));
    args.push(output.clone());
    let plan = CutPlan { dir, output, args };
    proof {
        let want = clip_cut(source@, start as int, end as int, match output_dir {
            Some(d) => Some(d@),
            None => None,
        });
        assert(texts(plan.args@) =~= want.unwrap().args);
    }
    Ok(plan)
}

/// Plans the cut of six seconds of `source` centred on `point_time`
/// (milliseconds), written to `output`.
pub fn create_point_video(source: &str, point_time: i64, output: &str) -> (r: CutPlan)
    ensures
        r@ == point_cut(source@, point_time as int, output@),
{
    let dir = parent(output);
    let mut args: Vec<String> = Vec::new();
    args.push(String::from_str("-ss"));
    let mut start = String::new();
    push_seconds_fixed(&mut start, point_time as i128 - POINT_MARGIN_MS as i128);
    args.push(start);
    args.push(String::from_str("-i"));
    args.push(String::from_str(source));
    args.push(String::from_str("-t"));
    let mut length = String::new();
    push_seconds_fixed(&mut length, 2 * POINT_MARGIN_MS as i128);
    args.push(length);
    args.push(String::from_str("-c"));
    args.push(String::from_str("copy"));
    args.push(String::from_str(output));
    let plan = CutPlan { dir, output: String::from_str(output), args };
    proof {
        assert(texts(plan.args@) =~= point_cut(source@, point_time as int, output@).args);
    }
    plan
}

} // verus!
