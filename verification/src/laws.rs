//! What holds of every dialog, stated over the steps of a session and
//! proved from their definitions.
use crate::error::DialogError;
use crate::path::joined;
use crate::selection::{lemma_paths_of_named, selected_paths, SelectionView};
use crate::session::{DialogView, FrameView, Session};
use vstd::prelude::*;

verus! {

/// Whether every answer in `frames` leaves the dialog unfinished.
pub open spec fn all_unfinished(frames: Seq<FrameView>) -> bool {
    forall|i: int| 0 <= i < frames.len() ==> frames[i] is Unfinished
}

/// A dialog that was never opened is closed without any native call, and
/// its widget is then given up exactly once: the first release returns the
/// address that the dialog was made with, and a second one is refused.
pub proof fn lemma_close_before_open_then_release(dialog: DialogView)
    requires
        dialog.wf(),
        dialog.context.live,
        dialog.session is Closed,
    ensures
        dialog.close_result() == Ok::<Option<usize>, DialogError>(None),
        dialog.closed() == dialog,
        dialog.closed().release_result() == Ok::<usize, DialogError>(dialog.context.handle),
        dialog.closed().released().wf(),
        !dialog.closed().released().context.live,
        dialog.closed().released().release_result() == Err::<usize, DialogError>(
            DialogError::HandleDestroyed,
        ),
{
}

/// Whatever the state of its session, closing a dialog with a living widget
/// leaves it closed and keeps the widget, and giving the widget up
/// afterwards returns its address once.
pub proof fn lemma_close_then_release_from_anywhere(dialog: DialogView)
    requires
        dialog.context.live,
    ensures
        dialog.close_result() is Ok,
        dialog.closed().session is Closed,
        dialog.closed().context == dialog.context,
        dialog.closed().release_result() == Ok::<usize, DialogError>(dialog.context.handle),
        dialog.closed().released().release_result() is Err,
{
}

/// When the widget has been given up, nothing is asked of it any more:
/// every step is refused and leaves the dialog as it is.
pub proof fn lemma_released_dialog_refuses_everything(dialog: DialogView, frame: FrameView)
    ensures
        dialog.released().open_refusal() == Some(DialogError::HandleDestroyed),
        dialog.released().display_refusal() == Some(DialogError::HandleDestroyed),
        dialog.released().record_refusal() == Some(DialogError::HandleDestroyed),
        dialog.released().query_refusal() == Some(DialogError::HandleDestroyed),
        dialog.released().close_result() is Err,
        dialog.released().opened() == dialog.released(),
        dialog.released().displayed() == dialog.released(),
        dialog.released().recorded(frame) == dialog.released(),
        dialog.released().closed() == dialog.released(),
{
}

/// A whole frame of a dialog that takes frames is what its two steps make
/// of it: the frame is started, the answer is accepted, and the dialog is
/// left as the answer says.
pub proof fn lemma_frame_is_display_then_record(dialog: DialogView, frame: FrameView)
    requires
        dialog.context.live,
        dialog.session.in_progress(),
    ensures
        dialog.display_refusal() is None,
        dialog.displayed().session is Rendering,
        dialog.displayed().record_refusal() is None,
        dialog.displayed().record_result(frame) == Ok::<bool, DialogError>(frame.finished()),
        dialog.rendered(frame) == dialog.with_session(frame.outcome()),
{
}

/// Any number of unfinished frames leave an open dialog taking frames: at
/// least one of them, and it is rendering.
pub proof fn lemma_unfinished_frames_keep_rendering(dialog: DialogView, frames: Seq<FrameView>)
    requires
        dialog.context.live,
        dialog.session.in_progress(),
        all_unfinished(frames),
    ensures
        dialog.rendered_all(frames) == if frames.len() == 0 {
            dialog
        } else {
            dialog.with_session(Session::Rendering)
        },
        dialog.rendered_all(frames).display_refusal() is None,
    decreases frames.len(),
{
    if frames.len() > 0 {
        let front = frames.drop_last();
        assert(all_unfinished(front)) by {
            assert forall|i: int| 0 <= i < front.len() implies front[i] is Unfinished by {
                assert(front[i] == frames[i]);
            }
        }
        lemma_unfinished_frames_keep_rendering(dialog, front);
        assert(frames.last() is Unfinished);
        lemma_frame_is_display_then_record(dialog.rendered_all(front), frames.last());
    }
}

/// The frames of an open dialog run to the first finished one and no
/// further. After any number of unfinished frames, the frame whose answer
/// `last` is a confirmation or a dismissal is accepted and leaves the dialog
/// finished with that outcome. From then on every frame is refused: neither
/// starting one nor an answer to one changes the dialog.
pub proof fn lemma_frames_end_with_the_first_finished(
    dialog: DialogView,
    frames: Seq<FrameView>,
    last: FrameView,
    later: FrameView,
)
    requires
        dialog.context.live,
        dialog.session.in_progress(),
        all_unfinished(frames),
        last.finished(),
    ensures
        dialog.rendered_all(frames).display_refusal() is None,
        dialog.rendered_all(frames).displayed().record_result(last) == Ok::<bool, DialogError>(
            true,
        ),
        dialog.rendered_all(frames.push(last)) == dialog.with_session(last.outcome()),
        dialog.rendered_all(frames.push(last)).session.finished(),
        dialog.rendered_all(frames.push(last)).display_refusal() == Some(
            DialogError::AlreadyFinished,
        ),
        dialog.rendered_all(frames.push(last)).record_refusal() == Some(
            DialogError::AlreadyFinished,
        ),
        dialog.rendered_all(frames.push(last)).displayed() == dialog.rendered_all(
            frames.push(last),
        ),
        dialog.rendered_all(frames.push(last)).recorded(later) == dialog.rendered_all(
            frames.push(last),
        ),
        dialog.rendered_all(frames.push(last)).rendered(later) == dialog.rendered_all(
            frames.push(last),
        ),
{
    lemma_unfinished_frames_keep_rendering(dialog, frames);
    let all = frames.push(last);
    assert(all.drop_last() =~= frames);
    assert(all.last() == last);
    lemma_frame_is_display_then_record(dialog.rendered_all(frames), last);
}

/// Asking for the selection changes nothing, so asking twice gives equal
/// answers: two selections that are both the answer of one dialog hold the
/// same path and entries, and yield the same files.
pub proof fn lemma_selection_read_is_repeatable(
    dialog: DialogView,
    first: Result<SelectionView, DialogError>,
    second: Result<SelectionView, DialogError>,
)
    requires
        first == dialog.confirmed_selection(),
        second == dialog.confirmed_selection(),
    ensures
        first == second,
        first is Ok ==> selected_paths(first->Ok_0.path, first->Ok_0.names) == selected_paths(
            second->Ok_0.path,
            second->Ok_0.names,
        ),
{
}

/// A confirmation is a selection even when it names no file: the answer is
/// then a selection without files, neither an error nor nothing.
pub proof fn lemma_confirmed_without_files(dialog: DialogView, path: Seq<char>)
    requires
        dialog.context.live,
        dialog.session == Session::Confirmed(SelectionView { path, names: Seq::empty() }),
    ensures
        dialog.confirmation() == Ok::<bool, DialogError>(true),
        dialog.confirmed_selection() == Ok::<SelectionView, DialogError>(
            SelectionView { path, names: Seq::empty() },
        ),
        selected_paths(path, Seq::empty()) == Seq::<Seq<char>>::empty(),
{
}

/// What a rendering dialog is confirmed with is what it answers with
/// afterwards: the path is that of the confirmation, the selection is the
/// one that was recorded, and where every entry carries a name the files
/// are that path joined with each name, in order.
pub proof fn lemma_snapshot_round_trip(dialog: DialogView, selection: SelectionView)
    requires
        dialog.context.live,
        dialog.session is Rendering,
    ensures
        dialog.recorded(FrameView::Confirmed(selection)).confirmed_path() == Ok::<
            Option<Seq<char>>,
            DialogError,
        >(Some(selection.path)),
        dialog.recorded(FrameView::Confirmed(selection)).confirmed_selection() == Ok::<
            SelectionView,
            DialogError,
        >(selection),
        (forall|i: int| 0 <= i < selection.names.len() ==> selection.names[i].len() > 0)
            ==> selected_paths(selection.path, selection.names) == selection.names.map_values(
            |name: Seq<char>| joined(selection.path, name),
        ),
{
    if forall|i: int| 0 <= i < selection.names.len() ==> selection.names[i].len() > 0 {
        lemma_paths_of_named(selection.path, selection.names);
    }
}

/// A closed dialog answers no question about an outcome and starts no
/// frame: each of these is refused as a misuse, and nothing is read.
pub proof fn lemma_closed_dialog_answers_nothing(dialog: DialogView)
    requires
        dialog.context.live,
        dialog.session is Closed,
    ensures
        dialog.confirmed_selection() == Err::<SelectionView, DialogError>(DialogError::NotOpen),
        dialog.confirmed_path() == Err::<Option<Seq<char>>, DialogError>(DialogError::NotOpen),
        dialog.confirmation() == Err::<bool, DialogError>(DialogError::NotOpen),
        dialog.display_refusal() == Some(DialogError::NotOpen),
        dialog.record_refusal() == Some(DialogError::NotOpen),
{
}

/// Closing and opening again forgets the outcome of the session before:
/// whatever the dialog held, it can be opened once it is closed, and it is
/// then pending, not confirmed and without a path.
pub proof fn lemma_reopen_resets_confirmation(dialog: DialogView)
    requires
        dialog.context.live,
    ensures
        dialog.closed().open_refusal() is None,
        dialog.closed().opened().session is Pending,
        dialog.closed().opened().confirmation() == Ok::<bool, DialogError>(false),
        dialog.closed().opened().confirmed_path() == Ok::<Option<Seq<char>>, DialogError>(None),
        dialog.closed().opened().confirmed_selection() == Err::<SelectionView, DialogError>(
            DialogError::NotConfirmed,
        ),
{
}

/// Opening, rendering and closing leave the configuration and the widget
/// of a dialog as they were.
pub proof fn lemma_steps_keep_configuration(dialog: DialogView, frame: FrameView)
    ensures
        dialog.opened().with_session(dialog.session) == dialog,
        dialog.displayed().with_session(dialog.session) == dialog,
        dialog.recorded(frame).with_session(dialog.session) == dialog,
        dialog.closed().with_session(dialog.session) == dialog,
        dialog.wf() ==> dialog.opened().wf() && dialog.displayed().wf() && dialog.recorded(
            frame,
        ).wf() && dialog.closed().wf() && dialog.released().wf(),
{
}

} // verus!
