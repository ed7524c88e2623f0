use image_resizer::enumerate::get_file_paths;
use image_resizer::error::ResizeError;
use image_resizer::naming::{EntryName, Format};
use image_resizer::plan::{plan_resize, Failure};

fn text(s: &str) -> EntryName {
    EntryName::Text(s.to_string())
}

fn jobs_of(names: &[EntryName], dest: &str) -> (Vec<(usize, Format, String)>, Option<Failure>) {
    let plan = plan_resize(&names.iter().map(copy_name).collect(), dest);
    let jobs = plan.jobs.into_iter().map(|j| (j.index, j.format, j.target)).collect();
    (jobs, plan.failure)
}

fn copy_name(n: &EntryName) -> EntryName {
    match n {
        EntryName::Missing => EntryName::Missing,
        EntryName::Undecodable => EntryName::Undecodable,
        EntryName::Text(s) => EntryName::Text(s.clone()),
    }
}

#[test]
fn images_then_text_file_fails_on_the_text_file() {
    let (jobs, failure) = jobs_of(&[text("a.jpg"), text("b.png"), text("notes.txt")], "out");
    assert_eq!(
        jobs,
        vec![
            (0, Format::Jpeg, "out/a.jpg".to_string()),
            (1, Format::Png, "out/b.png".to_string()),
        ]
    );
    assert_eq!(failure, Some(Failure { index: 2, error: ResizeError::InvalidFormat }));
}

#[test]
fn unsupported_file_first_stops_everything() {
    let (jobs, failure) = jobs_of(&[text("notes.txt"), text("a.jpg"), text("b.png")], "out");
    assert!(jobs.is_empty());
    assert_eq!(failure, Some(Failure { index: 0, error: ResizeError::InvalidFormat }));
}

#[test]
fn only_image_files_plan_every_file() {
    let (jobs, failure) = jobs_of(&[text("b.png"), text("a.jpg")], "/tmp/dest");
    assert_eq!(
        jobs,
        vec![
            (0, Format::Png, "/tmp/dest/b.png".to_string()),
            (1, Format::Jpeg, "/tmp/dest/a.jpg".to_string()),
        ]
    );
    assert_eq!(failure, None);
}

#[test]
fn file_without_extension_stops_with_invalid_format() {
    let (jobs, failure) = jobs_of(&[text("a.jpg"), text("Makefile"), text("c.png")], "d");
    assert_eq!(jobs, vec![(0, Format::Jpeg, "d/a.jpg".to_string())]);
    assert_eq!(failure, Some(Failure { index: 1, error: ResizeError::InvalidFormat }));
}

#[test]
fn gif_stops_with_invalid_format() {
    let (jobs, failure) = jobs_of(&[text("x.gif"), text("a.jpg")], "d");
    assert!(jobs.is_empty());
    assert_eq!(failure, Some(Failure { index: 0, error: ResizeError::InvalidFormat }));
}

#[test]
fn undecodable_name_stops_with_invalid_str() {
    let (jobs, failure) = jobs_of(&[text("a.png"), EntryName::Undecodable, text("b.png")], "d");
    assert_eq!(jobs, vec![(0, Format::Png, "d/a.png".to_string())]);
    assert_eq!(failure, Some(Failure { index: 1, error: ResizeError::InvalidStr }));
}

#[test]
fn path_without_name_is_skipped() {
    let (jobs, failure) = jobs_of(&[EntryName::Missing, text("a.png")], "d");
    assert_eq!(jobs, vec![(1, Format::Png, "d/a.png".to_string())]);
    assert_eq!(failure, None);
}

#[test]
fn empty_batch_plans_nothing() {
    let (jobs, failure) = jobs_of(&[], "d");
    assert!(jobs.is_empty());
    assert_eq!(failure, None);
}

#[test]
fn excluded_file_is_never_planned() {
    let listing = vec![Some("a.jpg".to_string()), Some("skip.jpg".to_string())];
    let kept = get_file_paths(&listing, Some("skip.jpg"));
    let names: Vec<EntryName> =
        kept.iter().map(|&i| text(listing[i].as_ref().unwrap())).collect();
    let plan = plan_resize(&names, "out");
    assert_eq!(plan.failure, None);
    assert_eq!(plan.jobs.len(), 1);
    assert_eq!(plan.jobs[0].target, "out/a.jpg");
    assert_eq!(plan.jobs[0].format, Format::Jpeg);
}

#[test]
fn same_arguments_plan_the_same_jobs() {
    let names = [text("a.jpg"), text("b.png")];
    assert_eq!(jobs_of(&names, "out"), jobs_of(&names, "out"));
}
