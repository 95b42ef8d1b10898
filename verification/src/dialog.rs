//! The dialog session: a state machine that is stepped once per frame.
//!
//! The session never calls the native widget itself. Each operation that
//! needs a native call checks the state, moves it on and returns what is to
//! be handed to the widget; what the widget answered to a frame is reported
//! back with `record_frame`.
use crate::context::Context;
use crate::error::DialogError;
use crate::selection::Selection;
use crate::session::{
    default_filters, default_max_size, default_min_size, default_title, DialogView,
    DisplayRequest, Frame, OpenRequest, Phase, Session,
};
use crate::text::{c_text, lemma_c_text_is_prefix, lemma_c_text_of_nul_free, native_text, nul_free};
use vstd::prelude::*;
use vstd::string::*;

verus! {

proof fn lemma_defaults_nul_free()
    ensures
        nul_free(default_title()),
        nul_free(default_filters()),
{
    reveal_strlit("Choose a File");
    reveal_strlit(".*");
}

#[derive(Debug)]
enum State {
    Closed,
    Pending,
    Rendering,
    Cancelled,
    Confirmed(Selection),
}

impl View for State {
    type V = Session;

    closed spec fn view(&self) -> Session {
        match self {
            State::Closed => Session::Closed,
            State::Pending => Session::Pending,
            State::Rendering => Session::Rendering,
            State::Cancelled => Session::Cancelled,
            State::Confirmed(selection) => Session::Confirmed(selection@),
        }
    }
}

/// One file dialog: its configuration, the handle of its native widget and
/// the state of its session.
#[derive(Debug)]
pub struct FileDialog {
    id: String,
    context: Context,
    title: String,
    filters: String,
    min_size: [u32; 2],
    max_size: [u32; 2],
    state: State,
}

impl View for FileDialog {
    type V = DialogView;

    closed spec fn view(&self) -> DialogView {
        DialogView {
            id: self.id@,
            title: self.title@,
            filters: self.filters@,
            min_size: self.min_size,
            max_size: self.max_size,
            context: self.context@,
            session: self.state@,
        }
    }
}

impl FileDialog {
    #[verifier::type_invariant]
    spec fn well_formed(self) -> bool {
        self@.wf()
    }

    /// A closed dialog with the identifier `id` and the default title,
    /// filter and sizes, for the widget at address `raw`. A null address
    /// means that the native allocation failed, and gives no dialog.
    ///
    /// The identifier is kept as the widget receives it: up to its first
    /// NUL character.
    pub fn new(id: &str, raw: usize) -> (out: Result<FileDialog, DialogError>)
        ensures
            raw == 0 ==> out is Err && out->Err_0 == DialogError::AllocationFailed,
            raw != 0 ==> out is Ok && out->Ok_0@.wf() && out->Ok_0@.is_new(c_text(id@), raw),
    {
        let context = match Context::new(raw) {
            Ok(context) => context,
            Err(e) => {
                return Err(e);
            },
        };
        let min_size: [u32; 2] = [200, 300];
        let max_size: [u32; 2] = [700, 500];
        proof {
            lemma_defaults_nul_free();
            lemma_c_text_of_nul_free(default_title());
            lemma_c_text_of_nul_free(default_filters());
            lemma_c_text_is_prefix(id@);
            assert(min_size@ =~= default_min_size());
            assert(max_size@ =~= default_max_size());
        }
        Ok(
            FileDialog {
                context,
                id: native_text(id),
                title: native_text("Choose a File"),
                filters: native_text(".*"),
                min_size,
                max_size,
                state: State::Closed,
            },
        )
    }

    /// Sets the title of the window, kept as the widget receives it: up to
    /// its first NUL character. The configuration of a dialog is changed
    /// only while it is closed.
    pub fn title(self, title: &str) -> (out: Self)
        requires
            self@.session is Closed,
        ensures
            out@.wf(),
            out@ == (DialogView { title: c_text(title@), ..self@ }),
    {
        proof {
            use_type_invariant(&self);
            lemma_c_text_is_prefix(title@);
        }
        let mut out = self;
        out.title = native_text(title);
        out
    }

    /// Sets the filter expression for the files shown, kept as the widget
    /// receives it: up to its first NUL character. The configuration of a
    /// dialog is changed only while it is closed.
    pub fn filters(self, filters: &str) -> (out: Self)
        requires
            self@.session is Closed,
        ensures
            out@.wf(),
            out@ == (DialogView { filters: c_text(filters@), ..self@ }),
    {
        proof {
            use_type_invariant(&self);
            lemma_c_text_is_prefix(filters@);
        }
        let mut out = self;
        out.filters = native_text(filters);
        out
    }

    /// Sets the smallest width and height of the window, in whole units.
    /// The configuration of a dialog is changed only while it is closed.
    pub fn min_size(self, min_size: [u32; 2]) -> (out: Self)
        requires
            self@.session is Closed,
        ensures
            out@.wf(),
            out@ == (DialogView { min_size, ..self@ }),
    {
        proof {
            use_type_invariant(&self);
        }
        let mut out = self;
        out.min_size = min_size;
        out
    }

    /// Sets the largest width and height of the window, in whole units.
    /// The configuration of a dialog is changed only while it is closed.
    pub fn max_size(self, max_size: [u32; 2]) -> (out: Self)
        requires
            self@.session is Closed,
        ensures
            out@.wf(),
            out@ == (DialogView { max_size, ..self@ }),
    {
        proof {
            use_type_invariant(&self);
        }
        let mut out = self;
        out.max_size = max_size;
        out
    }

    /// Where the session stands.
    pub fn phase(&self) -> (out: Phase)
        ensures
            self@.wf(),
            out == self@.session.phase(),
    {
        proof {
            use_type_invariant(self);
        }
        match &self.state {
            State::Closed => Phase::Closed,
            State::Pending => Phase::Pending,
            State::Rendering => Phase::Rendering,
            State::Cancelled => Phase::Cancelled,
            State::Confirmed(_) => Phase::Confirmed,
        }
    }

    /// Opens the dialog as a modal. A closed dialog with a living widget
    /// becomes pending, and the result is what the native open call is to be
    /// handed. Any other dialog stays as it is and the call is refused.
    pub fn open_modal(&mut self) -> (out: Result<OpenRequest, DialogError>)
        ensures
            final(self)@.wf(),
            final(self)@ == old(self)@.opened(),
            match old(self)@.open_refusal() {
                Some(e) => out is Err && out->Err_0 == e,
                None => out is Ok && out->Ok_0@ == old(self)@.open_request(),
            },
    {
        proof {
            use_type_invariant(&*self);
        }
        let handle = match self.context.handle() {
            Ok(handle) => handle,
            Err(e) => {
                return Err(e);
            },
        };
        match &self.state {
            State::Closed => {},
            _ => {
                return Err(DialogError::AlreadyOpen);
            },
        }
        self.state = State::Pending;
        proof {
            reveal_strlit(".");
            reveal_strlit("");
            assert("."@ =~= seq!['.']);
            assert(""@ =~= Seq::<char>::empty());
        }
        Ok(
            OpenRequest {
                handle,
                id: self.id.clone(),
                title: self.title.clone(),
                filters: self.filters.clone(),
                path: String::from_str("."),
                file_name: String::from_str(""),
                max_selection: 1,
                flags: 0,
            },
        )
    }

    /// Starts one frame. A dialog that is open and not finished is rendering
    /// from now on, and the result is what the native display call is to be
    /// handed. Any other dialog stays as it is and the call is refused; a
    /// finished dialog takes no further frame.
    pub fn display(&mut self) -> (out: Result<DisplayRequest, DialogError>)
        ensures
            final(self)@.wf(),
            final(self)@ == old(self)@.displayed(),
            match old(self)@.display_refusal() {
                Some(e) => out is Err && out->Err_0 == e,
                None => out is Ok && out->Ok_0@ == old(self)@.display_request(),
            },
    {
        proof {
            use_type_invariant(&*self);
        }
        let handle = match self.context.handle() {
            Ok(handle) => handle,
            Err(e) => {
                return Err(e);
            },
        };
        match &self.state {
            State::Closed => {
                return Err(DialogError::NotOpen);
            },
            State::Cancelled => {
                return Err(DialogError::AlreadyFinished);
            },
            State::Confirmed(_) => {
                return Err(DialogError::AlreadyFinished);
            },
            _ => {},
        }
        self.state = State::Rendering;
        Ok(
            DisplayRequest {
                handle,
                id: self.id.clone(),
                flags: 0,
                min_size: self.min_size,
                max_size: self.max_size,
            },
        )
    }

    /// Takes the widget's answer to the frame that `display` started, and
    /// says whether the dialog finished in that frame. A confirmation is
    /// kept with its selection, a dismissal as such, and an unfinished frame
    /// leaves the dialog rendering. A dialog that is not rendering stays as
    /// it is and the answer is refused.
    pub fn record_frame(&mut self, frame: Frame) -> (out: Result<bool, DialogError>)
        ensures
            final(self)@.wf(),
            final(self)@ == old(self)@.recorded(frame@),
            out == old(self)@.record_result(frame@),
    {
        proof {
            use_type_invariant(&*self);
        }
        if !self.context.is_live() {
            return Err(DialogError::HandleDestroyed);
        }
        match &self.state {
            State::Closed => {
                return Err(DialogError::NotOpen);
            },
            State::Pending => {
                return Err(DialogError::NotRendering);
            },
            State::Cancelled => {
                return Err(DialogError::AlreadyFinished);
            },
            State::Confirmed(_) => {
                return Err(DialogError::AlreadyFinished);
            },
            State::Rendering => {},
        }
        match frame {
            Frame::Unfinished => Ok(false),
            Frame::Cancelled => {
                self.state = State::Cancelled;
                Ok(true)
            },
            Frame::Confirmed(selection) => {
                self.state = State::Confirmed(selection);
                Ok(true)
            },
        }
    }

    /// Closes the dialog, at any point of its session. The result is the
    /// address against which the native close call is to be issued; a
    /// dialog that is closed already needs none. The widget stays alive,
    /// and the dialog can be opened again.
    pub fn close(&mut self) -> (out: Result<Option<usize>, DialogError>)
        ensures
            final(self)@.wf(),
            final(self)@ == old(self)@.closed(),
            out == old(self)@.close_result(),
    {
        proof {
            use_type_invariant(&*self);
        }
        let handle = match self.context.handle() {
            Ok(handle) => handle,
            Err(e) => {
                return Err(e);
            },
        };
        match &self.state {
            State::Closed => {
                return Ok(None);
            },
            _ => {},
        }
        self.state = State::Closed;
        Ok(Some(handle))
    }

    /// Gives the widget up for destruction and closes the session. The
    /// first call returns the address to destroy; every later one is
    /// refused, as is every other operation from then on.
    pub fn release(&mut self) -> (out: Result<usize, DialogError>)
        ensures
            final(self)@.wf(),
            final(self)@ == old(self)@.released(),
            out == old(self)@.release_result(),
    {
        proof {
            use_type_invariant(&*self);
        }
        self.state = State::Closed;
        self.context.release()
    }

    /// Whether the user confirmed the dialog. An open dialog that is
    /// unfinished or was dismissed is not confirmed; a closed one cannot be
    /// asked.
    pub fn is_ok(&self) -> (out: Result<bool, DialogError>)
        ensures
            out == self@.confirmation(),
    {
        if !self.context.is_live() {
            return Err(DialogError::HandleDestroyed);
        }
        match &self.state {
            State::Closed => Err(DialogError::NotOpen),
            State::Confirmed(_) => Ok(true),
            _ => Ok(false),
        }
    }

    /// The directory that was browsed when the user confirmed, as an owned
    /// copy; none while the dialog is open and not confirmed. A closed
    /// dialog cannot be asked.
    pub fn current_path(&self) -> (out: Result<Option<String>, DialogError>)
        ensures
            match self@.confirmed_path() {
                Ok(Some(path)) => out is Ok && out->Ok_0 is Some && out->Ok_0->Some_0@ == path,
                Ok(None) => out is Ok && out->Ok_0 is None,
                Err(e) => out is Err && out->Err_0 == e,
            },
    {
        if !self.context.is_live() {
            return Err(DialogError::HandleDestroyed);
        }
        match &self.state {
            State::Closed => Err(DialogError::NotOpen),
            State::Confirmed(selection) => Ok(Some(selection.path())),
            _ => Ok(None),
        }
    }

    /// The selection of a confirmed dialog, as an owned copy that stays
    /// valid whatever happens to the dialog afterwards. A dialog that is
    /// closed or not confirmed has none.
    pub fn selection(&self) -> (out: Result<Selection, DialogError>)
        ensures
            match self@.confirmed_selection() {
                Ok(selection) => out is Ok && out->Ok_0@ == selection,
                Err(e) => out is Err && out->Err_0 == e,
            },
    {
        if !self.context.is_live() {
            return Err(DialogError::HandleDestroyed);
        }
        match &self.state {
            State::Closed => Err(DialogError::NotOpen),
            State::Confirmed(selection) => Ok(selection.clone()),
            _ => Err(DialogError::NotConfirmed),
        }
    }
}

} // verus!
