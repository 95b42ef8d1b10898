use imgui_filedialog::{
    Context, DialogError, DisplayRequest, ExtensionHint, FileDialog, Frame, OpenRequest, Phase,
    Selection,
};

const HANDLE: usize = 0x1000;

fn names(list: &[&str]) -> Vec<String> {
    list.iter().map(|s| s.to_string()).collect()
}

fn confirmed(path: &str, list: &[&str]) -> Frame {
    Frame::Confirmed(Selection::new(path.to_string(), names(list)))
}

fn rendering() -> FileDialog {
    let mut dialog = FileDialog::new("dlg", HANDLE).unwrap();
    dialog.open_modal().unwrap();
    dialog.display().unwrap();
    dialog
}

#[test]
fn a_null_handle_is_an_allocation_failure() {
    assert_eq!(FileDialog::new("dlg", 0).unwrap_err(), DialogError::AllocationFailed);
    assert_eq!(Context::new(0).unwrap_err(), DialogError::AllocationFailed);
}

#[test]
fn a_new_dialog_is_closed() {
    let dialog = FileDialog::new("dlg", HANDLE).unwrap();
    assert_eq!(dialog.phase(), Phase::Closed);
}

#[test]
fn open_hands_out_the_defaults() {
    let mut dialog = FileDialog::new("dlg", HANDLE).unwrap();
    let request = dialog.open_modal().unwrap();
    assert_eq!(
        request,
        OpenRequest {
            handle: HANDLE,
            id: "dlg".to_string(),
            title: "Choose a File".to_string(),
            filters: ".*".to_string(),
            path: ".".to_string(),
            file_name: String::new(),
            max_selection: 1,
            flags: 0,
        }
    );
    assert_eq!(dialog.phase(), Phase::Pending);
}

#[test]
fn display_hands_out_the_default_sizes() {
    let mut dialog = FileDialog::new("dlg", HANDLE).unwrap();
    dialog.open_modal().unwrap();
    let request = dialog.display().unwrap();
    assert_eq!(
        request,
        DisplayRequest {
            handle: HANDLE,
            id: "dlg".to_string(),
            flags: 0,
            min_size: [200, 300],
            max_size: [700, 500],
        }
    );
    assert_eq!(dialog.phase(), Phase::Rendering);
}

#[test]
fn builders_set_the_configuration() {
    let mut dialog = FileDialog::new("pick", HANDLE)
        .unwrap()
        .title("Open Project")
        .filters(".rs,.toml")
        .min_size([100, 150])
        .max_size([1000, 800]);
    let open = dialog.open_modal().unwrap();
    assert_eq!(open.id, "pick");
    assert_eq!(open.title, "Open Project");
    assert_eq!(open.filters, ".rs,.toml");
    let frame = dialog.display().unwrap();
    assert_eq!(frame.min_size, [100, 150]);
    assert_eq!(frame.max_size, [1000, 800]);
}

#[test]
fn texts_stop_at_the_first_nul() {
    let mut dialog = FileDialog::new("id\0hidden", HANDLE)
        .unwrap()
        .title("Title\0rest")
        .filters("\0.txt");
    let open = dialog.open_modal().unwrap();
    assert_eq!(open.id, "id");
    assert_eq!(open.title, "Title");
    assert_eq!(open.filters, "");
}

#[test]
fn texts_without_nul_are_kept_whole() {
    let mut dialog = FileDialog::new("dialog é", HANDLE).unwrap().title("Öffnen");
    let open = dialog.open_modal().unwrap();
    assert_eq!(open.id, "dialog é");
    assert_eq!(open.title, "Öffnen");
}

#[test]
fn open_twice_is_refused() {
    let mut dialog = FileDialog::new("dlg", HANDLE).unwrap();
    dialog.open_modal().unwrap();
    assert_eq!(dialog.open_modal().unwrap_err(), DialogError::AlreadyOpen);
    assert_eq!(dialog.phase(), Phase::Pending);
}

#[test]
fn open_after_finishing_needs_a_close() {
    let mut dialog = rendering();
    assert_eq!(dialog.record_frame(Frame::Cancelled), Ok(true));
    assert_eq!(dialog.open_modal().unwrap_err(), DialogError::AlreadyOpen);
    assert_eq!(dialog.close(), Ok(Some(HANDLE)));
    assert!(dialog.open_modal().is_ok());
}

#[test]
fn display_before_open_is_refused() {
    let mut dialog = FileDialog::new("dlg", HANDLE).unwrap();
    assert_eq!(dialog.display().unwrap_err(), DialogError::NotOpen);
    assert_eq!(dialog.phase(), Phase::Closed);
}

#[test]
fn a_frame_result_without_a_frame_is_refused() {
    let mut dialog = FileDialog::new("dlg", HANDLE).unwrap();
    assert_eq!(dialog.record_frame(Frame::Unfinished), Err(DialogError::NotOpen));
    dialog.open_modal().unwrap();
    assert_eq!(dialog.record_frame(Frame::Cancelled), Err(DialogError::NotRendering));
    assert_eq!(dialog.phase(), Phase::Pending);
}

#[test]
fn frames_run_until_the_first_finished_one() {
    let mut dialog = FileDialog::new("dlg", HANDLE).unwrap();
    dialog.open_modal().unwrap();
    for _ in 0..5 {
        assert!(dialog.display().is_ok());
        assert_eq!(dialog.record_frame(Frame::Unfinished), Ok(false));
        assert_eq!(dialog.phase(), Phase::Rendering);
    }
    assert!(dialog.display().is_ok());
    assert_eq!(dialog.record_frame(confirmed("/tmp/x", &["a.txt"])), Ok(true));
    assert_eq!(dialog.phase(), Phase::Confirmed);
    assert_eq!(dialog.display().unwrap_err(), DialogError::AlreadyFinished);
    assert_eq!(dialog.record_frame(Frame::Unfinished), Err(DialogError::AlreadyFinished));
    assert_eq!(dialog.phase(), Phase::Confirmed);
    assert_eq!(dialog.is_ok(), Ok(true));
}

#[test]
fn a_dismissed_dialog_is_finished_and_not_confirmed() {
    let mut dialog = rendering();
    assert_eq!(dialog.record_frame(Frame::Cancelled), Ok(true));
    assert_eq!(dialog.phase(), Phase::Cancelled);
    assert_eq!(dialog.is_ok(), Ok(false));
    assert_eq!(dialog.current_path(), Ok(None));
    assert_eq!(dialog.selection().unwrap_err(), DialogError::NotConfirmed);
    assert_eq!(dialog.display().unwrap_err(), DialogError::AlreadyFinished);
}

#[test]
fn a_confirmed_dialog_gives_its_path_and_files() {
    let mut dialog = rendering();
    assert_eq!(dialog.record_frame(confirmed("/tmp/x", &["a.txt", "b.txt"])), Ok(true));
    assert_eq!(dialog.is_ok(), Ok(true));
    assert_eq!(dialog.current_path(), Ok(Some("/tmp/x".to_string())));
    let selection = dialog.selection().unwrap();
    assert_eq!(
        selection.files(),
        vec!["/tmp/x/a.txt".to_string(), "/tmp/x/b.txt".to_string()]
    );
}

#[test]
fn selection_read_twice_is_equal() {
    let mut dialog = rendering();
    dialog.record_frame(confirmed("/tmp/x", &["a.txt", "", "b.txt"])).unwrap();
    let first = dialog.selection().unwrap();
    let second = dialog.selection().unwrap();
    assert_eq!(first, second);
    assert_eq!(first.files(), second.files());
    assert_eq!(first.skipped(), second.skipped());
    assert_eq!(dialog.current_path(), dialog.current_path());
    assert_eq!(dialog.phase(), Phase::Confirmed);
}

#[test]
fn a_confirmation_without_files_is_an_empty_selection() {
    let mut dialog = rendering();
    assert_eq!(dialog.record_frame(confirmed("/tmp/x", &[])), Ok(true));
    let selection = dialog.selection().unwrap();
    assert_eq!(selection.files(), Vec::<String>::new());
    assert_eq!(selection.count(), 0);
    assert_eq!(dialog.current_path(), Ok(Some("/tmp/x".to_string())));
}

#[test]
fn a_closed_dialog_cannot_be_asked() {
    let dialog = FileDialog::new("dlg", HANDLE).unwrap();
    assert_eq!(dialog.selection().unwrap_err(), DialogError::NotOpen);
    assert_eq!(dialog.is_ok(), Err(DialogError::NotOpen));
    assert_eq!(dialog.current_path(), Err(DialogError::NotOpen));
}

#[test]
fn an_unfinished_dialog_has_no_selection_yet() {
    let mut dialog = FileDialog::new("dlg", HANDLE).unwrap();
    dialog.open_modal().unwrap();
    assert_eq!(dialog.is_ok(), Ok(false));
    assert_eq!(dialog.current_path(), Ok(None));
    assert_eq!(dialog.selection().unwrap_err(), DialogError::NotConfirmed);
    dialog.display().unwrap();
    assert_eq!(dialog.is_ok(), Ok(false));
    assert_eq!(dialog.selection().unwrap_err(), DialogError::NotConfirmed);
}

#[test]
fn the_selection_outlives_the_session() {
    let mut dialog = rendering();
    dialog.record_frame(confirmed("/tmp/x", &["a.txt"])).unwrap();
    let selection = dialog.selection().unwrap();
    dialog.close().unwrap();
    assert_eq!(dialog.selection().unwrap_err(), DialogError::NotOpen);
    dialog.open_modal().unwrap();
    dialog.release().unwrap();
    drop(dialog);
    assert_eq!(selection.files(), vec!["/tmp/x/a.txt".to_string()]);
}

#[test]
fn reopening_resets_the_confirmation() {
    let mut dialog = rendering();
    dialog.record_frame(confirmed("/tmp/x", &["a.txt"])).unwrap();
    assert_eq!(dialog.is_ok(), Ok(true));
    assert_eq!(dialog.close(), Ok(Some(HANDLE)));
    dialog.open_modal().unwrap();
    assert_eq!(dialog.is_ok(), Ok(false));
    assert_eq!(dialog.current_path(), Ok(None));
    assert_eq!(dialog.phase(), Phase::Pending);
}

#[test]
fn close_leaves_any_open_phase() {
    let mut dialog = FileDialog::new("dlg", HANDLE).unwrap();
    dialog.open_modal().unwrap();
    assert_eq!(dialog.close(), Ok(Some(HANDLE)));
    assert_eq!(dialog.phase(), Phase::Closed);
    dialog.open_modal().unwrap();
    dialog.display().unwrap();
    assert_eq!(dialog.close(), Ok(Some(HANDLE)));
    assert_eq!(dialog.phase(), Phase::Closed);
}

#[test]
fn close_without_open_then_release_is_clean() {
    let mut dialog = FileDialog::new("dlg", HANDLE).unwrap();
    assert_eq!(dialog.close(), Ok(None));
    assert_eq!(dialog.phase(), Phase::Closed);
    assert_eq!(dialog.release(), Ok(HANDLE));
    assert_eq!(dialog.release(), Err(DialogError::HandleDestroyed));
}

#[test]
fn nothing_is_issued_against_a_released_handle() {
    let mut dialog = rendering();
    assert_eq!(dialog.release(), Ok(HANDLE));
    assert_eq!(dialog.phase(), Phase::Closed);
    assert_eq!(dialog.open_modal().unwrap_err(), DialogError::HandleDestroyed);
    assert_eq!(dialog.display().unwrap_err(), DialogError::HandleDestroyed);
    assert_eq!(dialog.record_frame(Frame::Unfinished), Err(DialogError::HandleDestroyed));
    assert_eq!(dialog.close(), Err(DialogError::HandleDestroyed));
    assert_eq!(dialog.is_ok(), Err(DialogError::HandleDestroyed));
    assert_eq!(dialog.current_path(), Err(DialogError::HandleDestroyed));
    assert_eq!(dialog.selection().unwrap_err(), DialogError::HandleDestroyed);
}

#[test]
fn a_context_gives_its_handle_up_once() {
    let mut context = Context::new(HANDLE).unwrap();
    assert!(context.is_live());
    assert_eq!(context.handle(), Ok(HANDLE));
    assert_eq!(context.release(), Ok(HANDLE));
    assert!(!context.is_live());
    assert_eq!(context.handle(), Err(DialogError::HandleDestroyed));
    assert_eq!(context.release(), Err(DialogError::HandleDestroyed));
}

#[test]
fn the_extension_hint_marks_text_files() {
    assert_eq!(
        Context::extension_hint(),
        ExtensionHint {
            pattern: ".txt".to_string(),
            color: [255, 0, 255, 255],
            description: "Exciting file!".to_string(),
        }
    );
}
