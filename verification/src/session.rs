//! The states of a dialog session, the steps between them, and what
//! passes between a session and the native widget.
use crate::context::ContextView;
use crate::error::DialogError;
use crate::selection::{Selection, SelectionView};
use crate::text::nul_free;
use vstd::prelude::*;

verus! {

/// The title of a dialog that was given none.
pub open spec fn default_title() -> Seq<char> {
    "Choose a File"@
}

/// The filter expression of a dialog that was given none: it matches
/// every file.
pub open spec fn default_filters() -> Seq<char> {
    ".*"@
}

/// The smallest window of a dialog that was given no other: width and
/// height, in whole units.
pub open spec fn default_min_size() -> Seq<u32> {
    seq![200u32, 300u32]
}

/// The largest window of a dialog that was given no other: width and
/// height, in whole units.
pub open spec fn default_max_size() -> Seq<u32> {
    seq![700u32, 500u32]
}

/// Where a session stands, as a plain value.
#[derive(Clone, Copy, Debug, PartialEq, Eq, Structural)]
pub enum Phase {
    /// Not shown. The only phase from which the dialog can be opened.
    Closed,
    /// Opened, and no frame has been started yet.
    Pending,
    /// Opened, and at least one frame has been started.
    Rendering,
    /// The user dismissed the dialog.
    Cancelled,
    /// The user confirmed a selection.
    Confirmed,
}

/// Where a session stands, with the selection that a confirmed one holds.
pub enum Session {
    Closed,
    Pending,
    Rendering,
    Cancelled,
    Confirmed(SelectionView),
}

impl Session {
    /// The phase of this state.
    pub open spec fn phase(self) -> Phase {
        match self {
            Session::Closed => Phase::Closed,
            Session::Pending => Phase::Pending,
            Session::Rendering => Phase::Rendering,
            Session::Cancelled => Phase::Cancelled,
            Session::Confirmed(_) => Phase::Confirmed,
        }
    }

    /// Whether the dialog is shown and still takes frames.
    pub open spec fn in_progress(self) -> bool {
        self is Pending || self is Rendering
    }

    /// Whether the user has confirmed or dismissed the dialog.
    pub open spec fn finished(self) -> bool {
        self is Cancelled || self is Confirmed
    }
}

/// What the widget answered to one frame, as text.
pub enum FrameView {
    Unfinished,
    Cancelled,
    Confirmed(SelectionView),
}

impl FrameView {
    /// Whether this answer ends the dialog.
    pub open spec fn finished(self) -> bool {
        !(self is Unfinished)
    }

    /// The state in which this answer leaves a dialog that was rendering.
    pub open spec fn outcome(self) -> Session {
        match self {
            FrameView::Unfinished => Session::Rendering,
            FrameView::Cancelled => Session::Cancelled,
            FrameView::Confirmed(selection) => Session::Confirmed(selection),
        }
    }
}

/// What the widget answered to one frame. A confirmation carries the copy
/// of the widget's result, taken before any further native call.
#[derive(Debug)]
pub enum Frame {
    /// The dialog is still shown and must be rendered again.
    Unfinished,
    /// The user dismissed the dialog in this frame.
    Cancelled,
    /// The user confirmed in this frame.
    Confirmed(Selection),
}

impl View for Frame {
    type V = FrameView;

    open spec fn view(&self) -> FrameView {
        match self {
            Frame::Unfinished => FrameView::Unfinished,
            Frame::Cancelled => FrameView::Cancelled,
            Frame::Confirmed(selection) => FrameView::Confirmed(selection@),
        }
    }
}

/// What is handed to the widget to open the dialog, as text.
pub struct OpenRequestView {
    pub handle: usize,
    pub id: Seq<char>,
    pub title: Seq<char>,
    pub filters: Seq<char>,
    pub path: Seq<char>,
    pub file_name: Seq<char>,
    pub max_selection: i32,
    pub flags: i32,
}

/// What is handed to the widget to open the dialog as a modal.
#[derive(Debug, PartialEq, Eq)]
pub struct OpenRequest {
    /// The address of the widget.
    pub handle: usize,
    /// The identifier of the dialog.
    pub id: String,
    /// The title of the window.
    pub title: String,
    /// The filter expression for the files shown.
    pub filters: String,
    /// The directory in which browsing starts.
    pub path: String,
    /// The file name that is filled in at the start.
    pub file_name: String,
    /// How many entries the user may select.
    pub max_selection: i32,
    /// The widget's display flags.
    pub flags: i32,
}

impl View for OpenRequest {
    type V = OpenRequestView;

    open spec fn view(&self) -> OpenRequestView {
        OpenRequestView {
            handle: self.handle,
            id: self.id@,
            title: self.title@,
            filters: self.filters@,
            path: self.path@,
            file_name: self.file_name@,
            max_selection: self.max_selection,
            flags: self.flags,
        }
    }
}

/// What is handed to the widget to render one frame, as text.
pub struct DisplayRequestView {
    pub handle: usize,
    pub id: Seq<char>,
    pub flags: i32,
    pub min_size: [u32; 2],
    pub max_size: [u32; 2],
}

/// What is handed to the widget to render one frame.
#[derive(Debug, PartialEq, Eq)]
pub struct DisplayRequest {
    /// The address of the widget.
    pub handle: usize,
    /// The identifier of the dialog.
    pub id: String,
    /// The window flags of the frame.
    pub flags: i32,
    /// The smallest width and height of the window, in whole units.
    pub min_size: [u32; 2],
    /// The largest width and height of the window, in whole units.
    pub max_size: [u32; 2],
}

impl View for DisplayRequest {
    type V = DisplayRequestView;

    open spec fn view(&self) -> DisplayRequestView {
        DisplayRequestView {
            handle: self.handle,
            id: self.id@,
            flags: self.flags,
            min_size: self.min_size,
            max_size: self.max_size,
        }
    }
}

/// What a dialog is, to its callers: its configuration as the widget
/// receives it, its handle and the state of its session.
pub struct DialogView {
    pub id: Seq<char>,
    pub title: Seq<char>,
    pub filters: Seq<char>,
    pub min_size: [u32; 2],
    pub max_size: [u32; 2],
    pub context: ContextView,
    pub session: Session,
}

impl DialogView {
    /// Whether the dialog can exist: its widget has an address, and its
    /// texts are as the widget receives them.
    pub open spec fn wf(self) -> bool {
        &&& self.context.handle != 0
        &&& nul_free(self.id)
        &&& nul_free(self.title)
        &&& nul_free(self.filters)
    }

    /// Whether this is the dialog that is made for the identifier `id` and
    /// the widget at `handle`: closed, with a living widget and the default
    /// title, filter and sizes.
    pub open spec fn is_new(self, id: Seq<char>, handle: usize) -> bool {
        &&& self.id == id
        &&& self.title == default_title()
        &&& self.filters == default_filters()
        &&& self.min_size@ == default_min_size()
        &&& self.max_size@ == default_max_size()
        &&& self.context == (ContextView { handle, live: true })
        &&& self.session is Closed
    }

    /// The same dialog in the state `session`.
    pub open spec fn with_session(self, session: Session) -> DialogView {
        DialogView { session, ..self }
    }

    /// Why the dialog cannot be opened now, if it cannot.
    pub open spec fn open_refusal(self) -> Option<DialogError> {
        if !self.context.live {
            Some(DialogError::HandleDestroyed)
        } else if !(self.session is Closed) {
            Some(DialogError::AlreadyOpen)
        } else {
            None
        }
    }

    /// What the widget is handed to open this dialog.
    pub open spec fn open_request(self) -> OpenRequestView {
        OpenRequestView {
            handle: self.context.handle,
            id: self.id,
            title: self.title,
            filters: self.filters,
            path: seq!['.'],
            file_name: Seq::empty(),
            max_selection: 1,
            flags: 0,
        }
    }

    /// The dialog after it was told to open: pending, unless that was
    /// refused.
    pub open spec fn opened(self) -> DialogView {
        if self.open_refusal() is None {
            self.with_session(Session::Pending)
        } else {
            self
        }
    }

    /// Why no frame can be started now, if none can.
    pub open spec fn display_refusal(self) -> Option<DialogError> {
        if !self.context.live {
            Some(DialogError::HandleDestroyed)
        } else if self.session is Closed {
            Some(DialogError::NotOpen)
        } else if self.session.finished() {
            Some(DialogError::AlreadyFinished)
        } else {
            None
        }
    }

    /// What the widget is handed to render one frame of this dialog.
    pub open spec fn display_request(self) -> DisplayRequestView {
        DisplayRequestView {
            handle: self.context.handle,
            id: self.id,
            flags: 0,
            min_size: self.min_size,
            max_size: self.max_size,
        }
    }

    /// The dialog after it was told to start a frame: rendering, unless
    /// that was refused.
    pub open spec fn displayed(self) -> DialogView {
        if self.display_refusal() is None {
            self.with_session(Session::Rendering)
        } else {
            self
        }
    }

    /// Why the widget's answer to a frame cannot be taken now, if it cannot.
    pub open spec fn record_refusal(self) -> Option<DialogError> {
        if !self.context.live {
            Some(DialogError::HandleDestroyed)
        } else if self.session is Closed {
            Some(DialogError::NotOpen)
        } else if self.session is Pending {
            Some(DialogError::NotRendering)
        } else if self.session.finished() {
            Some(DialogError::AlreadyFinished)
        } else {
            None
        }
    }

    /// What is returned for the widget's answer `frame`: whether it ends
    /// the dialog.
    pub open spec fn record_result(self, frame: FrameView) -> Result<bool, DialogError> {
        match self.record_refusal() {
            Some(e) => Err(e),
            None => Ok(frame.finished()),
        }
    }

    /// The dialog after it was given the widget's answer `frame`: as the
    /// answer leaves it, unless the answer was refused.
    pub open spec fn recorded(self, frame: FrameView) -> DialogView {
        if self.record_refusal() is None {
            self.with_session(frame.outcome())
        } else {
            self
        }
    }

    /// One whole frame: the dialog after it was told to start a frame and
    /// was then given the widget's answer `frame`.
    pub open spec fn rendered(self, frame: FrameView) -> DialogView {
        if self.display_refusal() is None {
            self.displayed().recorded(frame)
        } else {
            self
        }
    }

    /// The dialog after the whole frames `frames`, one after the other.
    pub open spec fn rendered_all(self, frames: Seq<FrameView>) -> DialogView
        decreases frames.len(),
    {
        if frames.len() == 0 {
            self
        } else {
            self.rendered_all(frames.drop_last()).rendered(frames.last())
        }
    }

    /// Why the outcome of the dialog cannot be asked for now, if it cannot.
    pub open spec fn query_refusal(self) -> Option<DialogError> {
        if !self.context.live {
            Some(DialogError::HandleDestroyed)
        } else if self.session is Closed {
            Some(DialogError::NotOpen)
        } else {
            None
        }
    }

    /// Whether the user confirmed the dialog, for a dialog that can be asked.
    pub open spec fn confirmation(self) -> Result<bool, DialogError> {
        match self.query_refusal() {
            Some(e) => Err(e),
            None => Ok(self.session is Confirmed),
        }
    }

    /// The directory that was browsed when the user confirmed, for a dialog
    /// that can be asked; none where the user has not confirmed.
    pub open spec fn confirmed_path(self) -> Result<Option<Seq<char>>, DialogError> {
        match self.query_refusal() {
            Some(e) => Err(e),
            None => match self.session {
                Session::Confirmed(selection) => Ok(Some(selection.path)),
                _ => Ok(None),
            },
        }
    }

    /// The selection of a confirmed dialog. A dialog that is open and not
    /// confirmed has none, which is an error of its own.
    pub open spec fn confirmed_selection(self) -> Result<SelectionView, DialogError> {
        match self.query_refusal() {
            Some(e) => Err(e),
            None => match self.session {
                Session::Confirmed(selection) => Ok(selection),
                _ => Err(DialogError::NotConfirmed),
            },
        }
    }

    /// What is returned when the dialog is told to close: the address
    /// against which the native close is to be issued, or none where the
    /// dialog is closed already.
    pub open spec fn close_result(self) -> Result<Option<usize>, DialogError> {
        if !self.context.live {
            Err(DialogError::HandleDestroyed)
        } else if self.session is Closed {
            Ok(None)
        } else {
            Ok(Some(self.context.handle))
        }
    }

    /// The dialog after it was told to close: closed, whatever it was.
    pub open spec fn closed(self) -> DialogView {
        if self.context.live {
            self.with_session(Session::Closed)
        } else {
            self
        }
    }

    /// What is returned when the widget is given up: its address, once.
    pub open spec fn release_result(self) -> Result<usize, DialogError> {
        if self.context.live {
            Ok(self.context.handle)
        } else {
            Err(DialogError::HandleDestroyed)
        }
    }

    /// The dialog after its widget was given up: closed, and without a
    /// living widget.
    pub open spec fn released(self) -> DialogView {
        DialogView {
            context: ContextView { handle: self.context.handle, live: false },
            session: Session::Closed,
            ..self
        }
    }
}

} // verus!
