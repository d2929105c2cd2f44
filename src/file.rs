//! HTML fragments that list media files, clips and tags.
use vstd::prelude::*;
use crate::clip;
use crate::path::{parent, parent_of};
use crate::tag;
use crate::point;
use crate::text::{decimal_of, digit_char, digits, push_decimal, push_digits, push_two_digits, two_digits};

verus! {

/// Where the thumbnail of `video` in folder `subpath` is served.
pub open spec fn video_thumb_path(subpath: Seq<char>, video: Seq<char>) -> Seq<char> {
    if subpath.len() != 0 {
        "/"@ + subpath + "/thumbs/"@ + video + ".webp"@
    } else {
        "/thumbs/"@ + video + ".webp"@
    }
}

/// The path of `video` in folder `subpath`, from the root.
pub open spec fn video_link(subpath: Seq<char>, video: Seq<char>) -> Seq<char> {
    if subpath.len() == 0 {
        "/"@ + video
    } else {
        "/"@ + subpath + "/"@ + video
    }
}

/// A video tile: its thumbnail and name, linking to the video's page. The
/// page address is `/videos/` followed by the video's path from the root, so
/// it holds two slashes in a row.
pub open spec fn video_preview_html(subpath: Seq<char>, video: Seq<char>) -> Seq<char> {
    "<a href='/videos/"@ + video_link(subpath, video)
        + "' style='max-width:250px;display:inline-block;' class='video_preview'><img src='"@
        + video_thumb_path(subpath, video) + "' class='img-fluid rounded border' alt='"@ + video
        + "' style='width:100%;'><div class='text-center text-white position-absolute mx-auto px-2 filename'>"@
        + video + "</div></a>"@
}

/// A list entry for a file; a video links to its page, with a second link to
/// the file itself.
pub open spec fn file_preview_html(link: Seq<char>, file_name: Seq<char>, is_video: bool) -> Seq<char> {
    let main_link = if is_video { "/videos"@ + link } else { link };
    let extra = if is_video { " <a href='"@ + link + "'>\u{1F3AC}</a>"@ } else { Seq::empty() };
    "<li class='list-group-item'><a href='"@ + main_link + "'>"@ + file_name + "</a>"@ + extra + "</li>"@
}

/// A list entry for a clip: its source and the clip's file with its bounds.
pub open spec fn clip_preview_html(c: clip::ClipView) -> Seq<char> {
    "<li class='list-group-item'>\n            <a href='"@ + c.source + "'>\n            "@ + c.source
        + "\n            </a> &gt;\n            <a href='/segments/"@ + c.clip_filename + "'>\n            "@
        + c.clip_filename + " ("@ + decimal_of(c.start) + "-"@ + decimal_of(c.end)
        + ")\n            </a>\n            </li>"@
}

/// A list entry for a tag: its source and the tag's id and text.
pub open spec fn tag_preview_html(t: tag::TagView) -> Seq<char> {
    "<li class='list-group-item'>\n            <a href='"@ + t.source + "'>\n            "@ + t.source
        + "\n            </a> &gt; Tag "@ + decimal_of(t.id) + ": "@ + t.tag + "\n            </li>"@
}

/// The folder of a clip's source file, empty when it has none.
pub open spec fn clip_dir(source: Seq<char>) -> Seq<char> {
    match parent_of(source) {
        Some(p) => p,
        None => Seq::empty(),
    }
}

/// Where a clip's file is served.
pub open spec fn clip_segment_path(dir: Seq<char>, clip_filename: Seq<char>) -> Seq<char> {
    if dir.len() != 0 {
        "/"@ + dir + "/segments/"@ + clip_filename
    } else {
        "/segments/"@ + clip_filename
    }
}

/// Where a clip's thumbnail is served.
pub open spec fn clip_thumb_path(dir: Seq<char>, clip_filename: Seq<char>) -> Seq<char> {
    if dir.len() != 0 {
        "/"@ + dir + "/segments/thumbs/"@ + clip_filename + ".webp"@
    } else {
        "/segments/thumbs/"@ + clip_filename + ".webp"@
    }
}

/// A clip tile: its thumbnail, name and bounds, linking to the clip's file.
pub open spec fn clip_video_preview_html(c: clip::ClipView) -> Seq<char> {
    let dir = clip_dir(c.source);
    "<a href='"@ + clip_segment_path(dir, c.clip_filename)
        + "' style='max-width:250px;display:inline-block;' class='video_preview'><img src='"@
        + clip_thumb_path(dir, c.clip_filename) + "' class='img-fluid rounded border' alt='"@ + c.clip_filename
        + "' style='width:100%;'><div class='text-center text-white position-absolute mx-auto px-2 filename'>"@
        + c.clip_filename + " ("@ + decimal_of(c.start) + "-"@ + decimal_of(c.end) + ")</div></a>"@
}

/// One field of a point's time label: the value with two digits at least, and
/// a minus sign when the time is negative and the field is not zero.
pub open spec fn time_field(negative: bool, v: nat) -> Seq<char> {
    if negative && v > 0 {
        "-"@ + digits(v)
    } else {
        two_digits(v)
    }
}

/// A time in milliseconds as hours, minutes, seconds and hundredths, each
/// field cut toward zero as integer division does.
pub open spec fn time_label(ms: int) -> Seq<char> {
    let neg = ms < 0;
    let a = if neg { -ms } else { ms };
    time_field(neg, (a / 3600000) as nat) + ":"@ + time_field(neg, ((a / 60000) % 60) as nat) + ":"@
        + time_field(neg, ((a / 1000) % 60) as nat) + ":"@ + time_field(neg, ((a % 1000) / 10) as nat)
}

/// The fraction of a second (below 1000 milliseconds) without trailing zeros,
/// after a dot; empty for zero.
pub open spec fn fraction_text(f: nat) -> Seq<char> {
    if f == 0 {
        Seq::empty()
    } else if f % 100 == 0 {
        seq!['.', digit_char((f / 100) as int)]
    } else if f % 10 == 0 {
        seq!['.', digit_char((f / 100) as int), digit_char(((f / 10) % 10) as int)]
    } else {
        seq!['.', digit_char((f / 100) as int), digit_char(((f / 10) % 10) as int), digit_char((f % 10) as int)]
    }
}

/// A time in milliseconds as seconds, in its shortest exact decimal form.
pub open spec fn seconds_text(ms: int) -> Seq<char> {
    let a = if ms < 0 { -ms } else { ms };
    (if ms < 0 { "-"@ } else { Seq::empty() }) + digits((a / 1000) as nat) + fraction_text((a % 1000) as nat)
}

/// A list entry for a point: its source, linked at the point's time, and the
/// point's id, name (`Untitled` when it has none) and time label.
pub open spec fn point_preview_html(p: point::PointView) -> Seq<char> {
    let name = match p.name {
        Some(n) => n,
        None => "Untitled"@,
    };
    "<li class='list-group-item'>\n            <a href='"@ + p.source + "#t="@ + seconds_text(p.time) + "'>\n            "@
        + p.source + "\n            </a> &gt; Point "@ + decimal_of(p.id) + ": "@ + name + " ("@ + time_label(p.time)
        + ")\n            </li>"@
}

fn push_time_field(out: &mut String, negative: bool, v: u128)
    ensures
        final(out)@ == old(out)@ + time_field(negative, v as nat),
{
    if negative && v > 0 {
        out.append("-");
        push_digits(out, v);
        proof {
            reveal_strlit("-");
            assert(final(out)@ =~= old(out)@ + time_field(negative, v as nat));
        }
    } else {
        push_two_digits(out, v);
    }
}

fn push_fraction(out: &mut String, f: u128)
    requires
        f < 1000,
    ensures
        final(out)@ == old(out)@ + fraction_text(f as nat),
{
    if f == 0 {
        assert(old(out)@ + fraction_text(f as nat) =~= old(out)@);
        return;
    }
    crate::text::push_char(out, '.');
    push_digits_exact(out, f / 100);
    if f % 100 != 0 {
        push_digits_exact(out, (f / 10) % 10);
        if f % 10 != 0 {
            push_digits_exact(out, f % 10);
        }
    }
    assert(final(out)@ =~= old(out)@ + fraction_text(f as nat));
}

fn push_digits_exact(out: &mut String, d: u128)
    requires
        d < 10,
    ensures
        final(out)@ == old(out)@.push(digit_char(d as int)),
{
    push_digits(out, d);
    assert(digits(d as nat) =~= seq![digit_char(d as int)]);
    assert(old(out)@ + seq![digit_char(d as int)] =~= old(out)@.push(digit_char(d as int)));
}

fn push_seconds_text(out: &mut String, ms: i64)
    ensures
        final(out)@ == old(out)@ + seconds_text(ms as int),
{
    let neg = ms < 0;
    let a: u128 = if neg { (-(ms as i128)) as u128 } else { ms as u128 };
    if neg {
        out.append("-");
    }
    push_digits(out, a / 1000);
    push_fraction(out, a % 1000);
    proof {
        reveal_strlit("-");
        assert(final(out)@ =~= old(out)@ + seconds_text(ms as int));
    }
}

fn push_time_label(out: &mut String, ms: i64)
    ensures
        final(out)@ == old(out)@ + time_label(ms as int),
{
    let neg = ms < 0;
    let a: u128 = if neg { (-(ms as i128)) as u128 } else { ms as u128 };
    push_time_field(out, neg, a / 3600000);
    out.append(":");
    push_time_field(out, neg, (a / 60000) % 60);
    out.append(":");
    push_time_field(out, neg, (a / 1000) % 60);
    out.append(":");
    push_time_field(out, neg, (a % 1000) / 10);
    assert(final(out)@ =~= old(out)@ + time_label(ms as int));
}

/// Renders list entries and tiles for the file browser.
pub struct File;

impl File {
    pub fn video_preview(subpath: &str, video: &str) -> (r: String)
        ensures
            r@ == video_preview_html(subpath@, video@),
    {
        let mut r = String::from_str("<a href='/videos//");
        if !subpath.is_empty() {
            r.append(subpath);
            r.append("/");
        }
        r.append(video);
        r.append("' style='max-width:250px;display:inline-block;' class='video_preview'><img src='/");
        if !subpath.is_empty() {
            r.append(subpath);
            r.append("/");
        }
        r.append("thumbs/");
        r.append(video);
        r.append(".webp' class='img-fluid rounded border' alt='");
        r.append(video);
        r.append(
            "' style='width:100%;'><div class='text-center text-white position-absolute mx-auto px-2 filename'>",
        );
        r.append(video);
        r.append("</div></a>");
        proof {
            reveal_strlit("<a href='/videos//");
            reveal_strlit("<a href='/videos/");
            reveal_strlit("/");
            reveal_strlit("' style='max-width:250px;display:inline-block;' class='video_preview'><img src='/");
            reveal_strlit("' style='max-width:250px;display:inline-block;' class='video_preview'><img src='");
            reveal_strlit("thumbs/");
            reveal_strlit("/thumbs/");
            reveal_strlit(".webp' class='img-fluid rounded border' alt='");
            reveal_strlit(".webp");
            reveal_strlit("' class='img-fluid rounded border' alt='");
            assert(r@ =~= video_preview_html(subpath@, video@));
        }
        r
    }

    pub fn file_preview(link: &str, file_name: &str, is_video: bool) -> (r: String)
        ensures
            r@ == file_preview_html(link@, file_name@, is_video),
    {
        let mut r = String::from_str("<li class='list-group-item'><a href='");
        if is_video {
            r.append("/videos");
        }
        r.append(link);
        r.append("'>");
        r.append(file_name);
        r.append("</a>");
        if is_video {
            r.append(" <a href='");
            r.append(link);
            r.append("'>\u{1F3AC}</a>");
        }
        r.append("</li>");
        proof {
            assert(r@ =~= file_preview_html(link@, file_name@, is_video));
        }
        r
    }

    pub fn clip_preview(clip: &clip::Model) -> (r: String)
        ensures
            r@ == clip_preview_html(clip@),
    {
        let mut r = String::from_str("<li class='list-group-item'>\n            <a href='");
        r.append(clip.source_filename.as_str());
        r.append("'>\n            ");
        r.append(clip.source_filename.as_str());
        r.append("\n            </a> &gt;\n            <a href='/segments/");
        r.append(clip.clip_filename.as_str());
        r.append("'>\n            ");
        r.append(clip.clip_filename.as_str());
        r.append(" (");
        push_decimal(&mut r, clip.start as i128);
        r.append("-");
        push_decimal(&mut r, clip.end as i128);
        r.append(")\n            </a>\n            </li>");
        proof {
            assert(r@ =~= clip_preview_html(clip@));
        }
        r
    }

    pub fn point_preview(point: &point::Model) -> (r: String)
        ensures
            r@ == point_preview_html(point@),
    {
        let mut r = String::from_str("<li class='list-group-item'>\n            <a href='");
        r.append(point.source_filename.as_str());
        r.append("#t=");
        push_seconds_text(&mut r, point.time);
        r.append("'>\n            ");
        r.append(point.source_filename.as_str());
        r.append("\n            </a> &gt; Point ");
        push_decimal(&mut r, point.id as i128);
        r.append(": ");
        match &point.name {
            Some(n) => r.append(n.as_str()),
            None => r.append("Untitled"),
        }
        r.append(" (");
        push_time_label(&mut r, point.time);
        r.append(")\n            </li>");
        proof {
            assert(r@ =~= point_preview_html(point@));
        }
        r
    }

    pub fn tag_preview(tag: &tag::Model) -> (r: String)
        ensures
            r@ == tag_preview_html(tag@),
    {
        let mut r = String::from_str("<li class='list-group-item'>\n            <a href='");
        r.append(tag.source_filename.as_str());
        r.append("'>\n            ");
        r.append(tag.source_filename.as_str());
        r.append("\n            </a> &gt; Tag ");
        push_decimal(&mut r, tag.id as i128);
        r.append(": ");
        r.append(tag.tag.as_str());
        r.append("\n            </li>");
        proof {
            assert(r@ =~= tag_preview_html(tag@));
        }
        r
    }

    pub fn clip_video_preview(clip: &clip::Model) -> (r: String)
        ensures
            r@ == clip_video_preview_html(clip@),
    {
        let dir = match parent(clip.source_filename.as_str()) {
            Some(p) => p,
            None => String::new(),
        };
        let has_dir = !dir.as_str().is_empty();
        let mut r = String::from_str("<a href='/");
        if has_dir {
            r.append(dir.as_str());
            r.append("/");
        }
        r.append("segments/");
        r.append(clip.clip_filename.as_str());
        r.append("' style='max-width:250px;display:inline-block;' class='video_preview'><img src='/");
        if has_dir {
            r.append(dir.as_str());
            r.append("/");
        }
        r.append("segments/thumbs/");
        r.append(clip.clip_filename.as_str());
        r.append(".webp' class='img-fluid rounded border' alt='");
        r.append(clip.clip_filename.as_str());
        r.append(
            "' style='width:100%;'><div class='text-center text-white position-absolute mx-auto px-2 filename'>",
        );
        r.append(clip.clip_filename.as_str());
        r.append(" (");
        push_decimal(&mut r, clip.start as i128);
        r.append("-");
        push_decimal(&mut r, clip.end as i128);
        r.append(")</div></a>");
        proof {
            reveal_strlit("<a href='/");
            reveal_strlit("<a href='");
            reveal_strlit("/");
            reveal_strlit("segments/");
            reveal_strlit("/segments/");
            reveal_strlit("' style='max-width:250px;display:inline-block;' class='video_preview'><img src='/");
            reveal_strlit("' style='max-width:250px;display:inline-block;' class='video_preview'><img src='");
            reveal_strlit("segments/thumbs/");
            reveal_strlit("/segments/thumbs/");
            reveal_strlit(".webp' class='img-fluid rounded border' alt='");
            reveal_strlit(".webp");
            reveal_strlit("' class='img-fluid rounded border' alt='");
            assert(r@ =~= clip_video_preview_html(clip@));
        }
        r
    }
}

} // verus!
