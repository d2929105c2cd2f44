use cloud::args::{parse_option, strip_prefix, CliOption};
use cloud::file::File;
use cloud::media::{create_point_video, create_video_clip, CutError};
use cloud::point;

#[test]
fn clip_cut_beside_source() {
    let plan = create_video_clip("videos/movie.mp4", 5, 12, None).unwrap();
    assert_eq!(plan.dir.as_deref(), Some("videos/clips"));
    assert_eq!(plan.output, "videos/clips/movie-5-12.mp4");
    assert_eq!(plan.args, vec!["-i", "videos/movie.mp4", "-ss", "5", "-t", "7", "-c", "copy", "videos/clips/movie-5-12.mp4"]);
}

#[test]
fn clip_cut_into_given_folder() {
    let plan = create_video_clip("movie.mp4", 0, 30, Some("out")).unwrap();
    assert_eq!(plan.dir, None);
    assert_eq!(plan.output, "out/movie-0-30.mp4");
    assert_eq!(plan.args[5], "30");
}

#[test]
fn clip_cut_without_parent_folder() {
    let plan = create_video_clip("movie.mp4", 1, 2, None).unwrap();
    assert_eq!(plan.dir.as_deref(), Some("clips"));
    assert_eq!(plan.output, "clips/movie-1-2.mp4");
}

#[test]
fn clip_cut_needs_positive_duration() {
    assert_eq!(create_video_clip("movie.mp4", 10, 10, None).unwrap_err(), CutError::InvalidDuration);
    assert_eq!(create_video_clip("movie.mp4", 10, 3, None).unwrap_err(), CutError::InvalidDuration);
    assert_eq!(CutError::InvalidDuration.message(), "Invalid clip duration");
}

#[test]
fn clip_cut_with_extreme_bounds() {
    let plan = create_video_clip("m.mp4", i64::MIN, i64::MAX, Some("o")).unwrap();
    assert_eq!(plan.args[5], "18446744073709551615");
}

#[test]
fn point_cut_centres_on_the_point() {
    let plan = create_point_video("movie.mp4", 12_345, "points/movie-12345.mp4");
    assert_eq!(plan.dir.as_deref(), Some("points"));
    assert_eq!(plan.output, "points/movie-12345.mp4");
    assert_eq!(plan.args, vec!["-ss", "9.345", "-i", "movie.mp4", "-t", "6.000", "-c", "copy", "points/movie-12345.mp4"]);
}

#[test]
fn point_cut_near_the_start() {
    let plan = create_point_video("movie.mp4", 1_500, "p.mp4");
    assert_eq!(plan.args[1], "-1.500");
    let plan = create_point_video("movie.mp4", 2_950, "p.mp4");
    assert_eq!(plan.args[1], "-0.050");
    assert_eq!(plan.dir.as_deref(), Some(""));
}

fn a_point(time: i64, name: Option<&str>) -> point::Model {
    point::Model { id: 4, source_filename: "a.mp4".to_string(), time, name: name.map(|n| n.to_string()) }
}

#[test]
fn point_preview_time_label() {
    assert_eq!(
        File::point_preview(&a_point(3_723_456, Some("goal"))),
        "<li class='list-group-item'>
            <a href='a.mp4#t=3723.456'>
            a.mp4
            </a> &gt; Point 4: goal (01:02:03:45)
            </li>"
    );
}

#[test]
fn point_preview_untitled_and_round_seconds() {
    assert_eq!(
        File::point_preview(&a_point(2_000, None)),
        "<li class='list-group-item'>
            <a href='a.mp4#t=2'>
            a.mp4
            </a> &gt; Point 4: Untitled (00:00:02:00)
            </li>"
    );
    assert!(File::point_preview(&a_point(1_500, None)).contains("#t=1.5'"));
    assert!(File::point_preview(&a_point(1_050, None)).contains("#t=1.05'"));
    assert!(File::point_preview(&a_point(0, None)).contains("#t=0'"));
}

#[test]
fn point_preview_negative_time() {
    let html = File::point_preview(&a_point(-61_500, None));
    assert!(html.contains("#t=-61.5'"));
    assert!(html.contains("(00:-1:-1:-50)"));
}

#[test]
fn options() {
    assert_eq!(parse_option("--where"), CliOption::Where);
    assert_eq!(parse_option("--help"), CliOption::Help);
    assert_eq!(parse_option("--folder=/srv/media"), CliOption::Folder("/srv/media".to_string()));
    assert_eq!(parse_option("--set-ffmpeg=/usr/bin/ffmpeg"), CliOption::SetFfmpeg("/usr/bin/ffmpeg".to_string()));
    assert_eq!(parse_option("--set-ffmpeg="), CliOption::SetFfmpeg(String::new()));
    assert_eq!(parse_option("--verbose"), CliOption::Unknown("--verbose".to_string()));
    assert_eq!(parse_option("--where=x"), CliOption::Unknown("--where=x".to_string()));
}

#[test]
fn prefixes() {
    assert_eq!(strip_prefix("héllo", "hé"), Some("llo".to_string()));
    assert_eq!(strip_prefix("he", "hello"), None);
    assert_eq!(strip_prefix("abc", ""), Some("abc".to_string()));
    assert_eq!(strip_prefix("abc", "abd"), None);
}
