//! The command-line options of the server.
use vstd::prelude::*;

verus! {

/// One command-line option.
#[derive(Debug, PartialEq, Eq)]
pub enum CliOption {
    /// `--where`: print where the database file lives.
    Where,
    /// `--help`: print the usage.
    Help,
    /// `--folder=PATH`: the folder to serve.
    Folder(String),
    /// `--set-ffmpeg=PATH`: store the media tool's path in the settings.
    SetFfmpeg(String),
    /// Anything else.
    Unknown(String),
}

/// What follows prefix `p` in `s`, when `s` starts with it.
pub open spec fn after_prefix(s: Seq<char>, p: Seq<char>) -> Option<Seq<char>> {
    if p.len() <= s.len() && s.subrange(0, p.len() as int) == p {
        Some(s.subrange(p.len() as int, s.len() as int))
    } else {
        None
    }
}

/// The mathematical form of an option.
pub enum CliOptionView {
    Where,
    Help,
    Folder(Seq<char>),
    SetFfmpeg(Seq<char>),
    Unknown(Seq<char>),
}

impl View for CliOption {
    type V = CliOptionView;

    open spec fn view(&self) -> CliOptionView {
        match self {
            CliOption::Where => CliOptionView::Where,
            CliOption::Help => CliOptionView::Help,
            CliOption::Folder(p) => CliOptionView::Folder(p@),
            CliOption::SetFfmpeg(p) => CliOptionView::SetFfmpeg(p@),
            CliOption::Unknown(a) => CliOptionView::Unknown(a@),
        }
    }
}

/// The option that a command-line argument stands for.
pub open spec fn option_of(arg: Seq<char>) -> CliOptionView {
    if arg == "--where"@ {
        CliOptionView::Where
    } else if arg == "--help"@ {
        CliOptionView::Help
    } else if after_prefix(arg, "--folder="@) is Some {
        CliOptionView::Folder(after_prefix(arg, "--folder="@).unwrap())
    } else if after_prefix(arg, "--set-ffmpeg="@) is Some {
        CliOptionView::SetFfmpeg(after_prefix(arg, "--set-ffmpeg="@).unwrap())
    } else {
        CliOptionView::Unknown(arg)
    }
}

/// What follows `p` in `s`, when `s` starts with `p`.
pub fn strip_prefix(s: &str, p: &str) -> (r: Option<String>)
    ensures
        match r {
            Some(t) => after_prefix(s@, p@) == Some(t@),
            None => after_prefix(s@, p@) is None,
        },
{
    let n = s.unicode_len();
    let m = p.unicode_len();
    if m > n {
        return None;
    }
    let mut i: usize = 0;
    while i < m
        invariant
            m == p@.len(),
            n == s@.len(),
            m <= n,
            i <= m,
            forall|k: int| 0 <= k < i ==> s@[k] == p@[k],
        decreases m - i,
    {
        if s.get_char(i) != p.get_char(i) {
            assert(s@.subrange(0, m as int)[i as int] != p@[i as int]);
            return None;
        }
        i = i + 1;
    }
    assert(s@.subrange(0, m as int) =~= p@);
    let rest = s.substring_char(m, n);
    Some(String::from_str(rest))
}

/// Reads one command-line argument.
pub fn parse_option(arg: &str) -> (r: CliOption)
    ensures
        r@ == option_of(arg@),
{
    if crate::text::same_text(arg, "--where") {
        return CliOption::Where;
    }
    if crate::text::same_text(arg, "--help") {
        return CliOption::Help;
    }
    if let Some(path) = strip_prefix(arg, "--folder=") {
        return CliOption::Folder(path);
    }
    if let Some(path) = strip_prefix(arg, "--set-ffmpeg=") {
        return CliOption::SetFfmpeg(path);
    }
    CliOption::Unknown(String::from_str(arg))
}

} // verus!
