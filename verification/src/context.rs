//! The owner of the native widget's handle.
use crate::error::DialogError;
use vstd::prelude::*;
use vstd::string::*;

verus! {

/// A colour and a description that the widget shows for the files that
/// match a pattern. It is applied once, when the widget has been created.
#[derive(Debug, PartialEq, Eq)]
pub struct ExtensionHint {
    /// The extension that the hint is for.
    pub pattern: String,
    /// Red, green, blue and opacity, each from 0 (none) to 255 (full).
    pub color: [u8; 4],
    /// The text shown with such files.
    pub description: String,
}

/// What a context is, to its callers: the address of the native widget and
/// whether that widget is still to be destroyed.
pub struct ContextView {
    pub handle: usize,
    pub live: bool,
}

/// The single owner of one native widget.
///
/// A context is made from the address that the native allocation returned.
/// It hands that address out for as long as the widget lives, and gives it
/// up for destruction once.
#[derive(Debug)]
pub struct Context {
    handle: usize,
    live: bool,
}

impl View for Context {
    type V = ContextView;

    closed spec fn view(&self) -> ContextView {
        ContextView { handle: self.handle, live: self.live }
    }
}

impl Context {
    #[verifier::type_invariant]
    spec fn has_address(self) -> bool {
        self.handle != 0
    }

    /// Takes ownership of the widget at address `raw`. A null address means
    /// that the allocation failed.
    pub fn new(raw: usize) -> (out: Result<Context, DialogError>)
        ensures
            raw == 0 ==> out == Err::<Context, DialogError>(DialogError::AllocationFailed),
            raw != 0 ==> out is Ok && out->Ok_0@ == (ContextView { handle: raw, live: true }),
    {
        if raw == 0 {
            Err(DialogError::AllocationFailed)
        } else {
            Ok(Context { handle: raw, live: true })
        }
    }

    /// The hint that every new widget is given: text files are shown in
    /// magenta.
    pub fn extension_hint() -> (out: ExtensionHint)
        ensures
            out.pattern@ == ".txt"@,
            out.color@ == seq![255u8, 0u8, 255u8, 255u8],
            out.description@ == "Exciting file!"@,
    {
        let color: [u8; 4] = [255, 0, 255, 255];
        assert(color@ =~= seq![255u8, 0u8, 255u8, 255u8]);
        ExtensionHint {
            pattern: String::from_str(".txt"),
            color,
            description: String::from_str("Exciting file!"),
        }
    }

    /// Whether the widget is still to be destroyed.
    pub fn is_live(&self) -> (out: bool)
        ensures
            out == self@.live,
    {
        self.live
    }

    /// The address to issue a native call against. None is given once the
    /// widget has been given up for destruction.
    pub fn handle(&self) -> (out: Result<usize, DialogError>)
        ensures
            self@.handle != 0,
            out == if self@.live {
                Ok::<usize, DialogError>(self@.handle)
            } else {
                Err::<usize, DialogError>(DialogError::HandleDestroyed)
            },
    {
        proof {
            use_type_invariant(self);
        }
        if self.live {
            Ok(self.handle)
        } else {
            Err(DialogError::HandleDestroyed)
        }
    }

    /// Gives the widget up: returns the address to destroy, the first time,
    /// and refuses from then on.
    pub fn release(&mut self) -> (out: Result<usize, DialogError>)
        ensures
            final(self)@ == (ContextView { handle: old(self)@.handle, live: false }),
            out == if old(self)@.live {
                Ok::<usize, DialogError>(old(self)@.handle)
            } else {
                Err::<usize, DialogError>(DialogError::HandleDestroyed)
            },
        no_unwind
    {
        proof {
            use_type_invariant(&*self);
        }
        if self.live {
            self.live = false;
            Ok(self.handle)
        } else {
            Err(DialogError::HandleDestroyed)
        }
    }
}

} // verus!
