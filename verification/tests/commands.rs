use wolffia::commands::{
    get_data_dir, is_desktop, read_file, show_open_dialog, show_save_dialog, write_file,
};
use wolffia::dialog::{OpenDialog, PickFile, PickFiles, SaveDialog};
use wolffia::write::WriteFile;

fn text(s: &str) -> String {
    s.to_string()
}

fn image_filters() -> Vec<(String, Vec<String>)> {
    vec![
        (text("Images"), vec![text("png"), text("jpg")]),
        (text("All files"), vec![text("*")]),
    ]
}

#[test]
fn is_desktop_is_true() {
    assert!(is_desktop());
}

#[test]
fn is_desktop_is_true_every_time() {
    for _ in 0..5 {
        assert_eq!(is_desktop(), true);
    }
}

#[test]
fn data_dir_is_handed_on() {
    assert_eq!(
        get_data_dir(Ok(text("/home/ada/.local/share/app"))),
        Ok(text("/home/ada/.local/share/app"))
    );
}

#[test]
fn data_dir_failure_has_no_prefix() {
    assert_eq!(
        get_data_dir(Err(text("unknown path"))),
        Err(text("unknown path"))
    );
}

#[test]
fn read_hands_the_text_on() {
    assert_eq!(read_file(Ok(text("line one\nline two\n"))), Ok(text("line one\nline two\n")));
    assert_eq!(read_file(Ok(text(""))), Ok(text("")));
}

#[test]
fn read_failure_is_prefixed() {
    assert_eq!(
        read_file(Err(text("No such file or directory (os error 2)"))),
        Err(text("Failed to read file: No such file or directory (os error 2)"))
    );
}

#[test]
fn read_failure_with_empty_cause() {
    assert_eq!(read_file(Err(text(""))), Err(text("Failed to read file: ")));
}

#[test]
fn write_starts_with_the_parent_directory() {
    let job = write_file(text("notes/2024/today.md"), text("hello"));
    assert_eq!(
        job,
        WriteFile::CreateDirAll {
            dir: text("notes/2024"),
            path: text("notes/2024/today.md"),
            content: text("hello"),
        }
    );
}

#[test]
fn write_of_an_absolute_path_starts_with_its_directory() {
    let job = write_file(text("/data/app/state.json"), text("{}"));
    assert_eq!(
        job,
        WriteFile::CreateDirAll {
            dir: text("/data/app"),
            path: text("/data/app/state.json"),
            content: text("{}"),
        }
    );
}

#[test]
fn write_of_a_bare_name_asks_for_the_empty_directory() {
    let job = write_file(text("today.md"), text("hello"));
    assert_eq!(
        job,
        WriteFile::CreateDirAll { dir: text(""), path: text("today.md"), content: text("hello") }
    );
}

#[test]
fn write_of_a_path_without_parent_starts_with_the_file() {
    assert_eq!(
        write_file(text(""), text("hello")),
        WriteFile::Write { path: text(""), content: text("hello") }
    );
    assert_eq!(
        write_file(text("/"), text("hello")),
        WriteFile::Write { path: text("/"), content: text("hello") }
    );
}

#[test]
fn write_runs_from_directory_to_file_to_success() {
    let job = write_file(text("a/b.txt"), text("x"));
    let job = job.advance(Ok(()));
    assert_eq!(job, WriteFile::Write { path: text("a/b.txt"), content: text("x") });
    let job = job.advance(Ok(()));
    assert_eq!(job, WriteFile::Done { reply: Ok(()) });
}

#[test]
fn write_stops_when_the_directory_fails() {
    let job = write_file(text("a/b.txt"), text("x"));
    let job = job.advance(Err(text("Permission denied (os error 13)")));
    assert_eq!(
        job,
        WriteFile::Done {
            reply: Err(text("Failed to create directory: Permission denied (os error 13)"))
        }
    );
}

#[test]
fn write_reports_a_failed_file() {
    let job = write_file(text("a/b.txt"), text("x")).advance(Ok(()));
    let job = job.advance(Err(text("Is a directory (os error 21)")));
    assert_eq!(
        job,
        WriteFile::Done { reply: Err(text("Failed to write file: Is a directory (os error 21)")) }
    );
}

#[test]
fn finished_write_ignores_further_outcomes() {
    let done = WriteFile::Done { reply: Err(text("Failed to write file: full")) };
    assert_eq!(
        done.advance(Ok(())),
        WriteFile::Done { reply: Err(text("Failed to write file: full")) }
    );
    let done = WriteFile::Done { reply: Ok(()) };
    assert_eq!(done.advance(Err(text("late"))), WriteFile::Done { reply: Ok(()) });
}

#[test]
fn begin_takes_the_parent_as_given() {
    assert_eq!(
        WriteFile::begin(Some(text("dir")), text("elsewhere/file"), text("c")),
        WriteFile::CreateDirAll { dir: text("dir"), path: text("elsewhere/file"), content: text("c") }
    );
    assert_eq!(
        WriteFile::begin(None, text("dir/file"), text("c")),
        WriteFile::Write { path: text("dir/file"), content: text("c") }
    );
}

#[test]
fn any_write_is_over_after_two_outcomes() {
    let outcomes: Vec<Result<(), String>> = vec![Ok(()), Err(text("no"))];
    for parent in [None, Some(text("d"))] {
        for first in &outcomes {
            for second in &outcomes {
                let job = WriteFile::begin(parent.clone(), text("d/f"), text("c"));
                let job = job.advance(first.clone()).advance(second.clone());
                assert!(matches!(job, WriteFile::Done { .. }));
            }
        }
    }
}

#[test]
fn save_dialog_keeps_name_and_filters() {
    let dialog = show_save_dialog(text("export.png"), image_filters());
    assert_eq!(dialog, SaveDialog { filters: image_filters(), file_name: text("export.png") });
}

#[test]
fn save_dialog_replies_with_the_chosen_path() {
    let dialog = show_save_dialog(text("export.png"), image_filters());
    assert_eq!(
        dialog.chosen(Some(text("/home/ada/export.png"))),
        Ok(Some(text("/home/ada/export.png")))
    );
}

#[test]
fn cancelled_save_dialog_is_no_failure() {
    let dialog = show_save_dialog(text("export.png"), Vec::new());
    assert_eq!(dialog.chosen(None), Ok(None));
}

#[test]
fn open_dialog_for_one_file() {
    let dialog = show_open_dialog(false, image_filters());
    assert_eq!(dialog, OpenDialog::One(PickFile { filters: image_filters() }));
}

#[test]
fn open_dialog_for_many_files() {
    let dialog = show_open_dialog(true, image_filters());
    assert_eq!(dialog, OpenDialog::Many(PickFiles { filters: image_filters() }));
}

#[test]
fn single_pick_gives_one_path() {
    let ask = PickFile { filters: image_filters() };
    assert_eq!(ask.chosen(Some(text("/tmp/a.png"))), Ok(vec![text("/tmp/a.png")]));
}

#[test]
fn cancelled_single_pick_gives_no_path() {
    let ask = PickFile { filters: Vec::new() };
    assert_eq!(ask.chosen(None), Ok(Vec::new()));
}

#[test]
fn multiple_pick_keeps_every_path_in_order() {
    let ask = PickFiles { filters: image_filters() };
    let picked = vec![text("/tmp/b.png"), text("/tmp/a.png"), text("/tmp/b.png")];
    assert_eq!(ask.chosen(Some(picked.clone())), Ok(picked));
}

#[test]
fn multiple_pick_of_nothing_gives_no_path() {
    let ask = PickFiles { filters: image_filters() };
    assert_eq!(ask.chosen(Some(Vec::new())), Ok(Vec::new()));
}

#[test]
fn cancelled_multiple_pick_gives_no_path() {
    let ask = PickFiles { filters: image_filters() };
    assert_eq!(ask.chosen(None), Ok(Vec::new()));
}

#[test]
fn open_dialog_without_multiple_never_gives_two_paths() {
    for choice in [None, Some(text("/tmp/only.txt"))] {
        match show_open_dialog(false, image_filters()) {
            OpenDialog::One(ask) => {
                let paths = ask.chosen(choice).unwrap();
                assert!(paths.len() <= 1);
            }
            OpenDialog::Many(_) => panic!("a dialog for one file was asked for"),
        }
    }
}
