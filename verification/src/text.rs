//! Text as the native widget receives it.
//!
//! Every string handed to the widget travels as a NUL-terminated buffer, so
//! the widget sees a string only up to its first NUL character.
use vstd::prelude::*;

verus! {

/// The characters of `s` in front of its first NUL character; all of `s`
/// where it holds none.
pub open spec fn c_text(s: Seq<char>) -> Seq<char>
    decreases s.len(),
{
    if s.len() == 0 || s[0] == '\0' {
        Seq::empty()
    } else {
        seq![s[0]] + c_text(s.drop_first())
    }
}

/// Whether `s` holds no NUL character.
pub open spec fn nul_free(s: Seq<char>) -> bool {
    forall|i: int| 0 <= i < s.len() ==> s[i] != '\0'
}

/// A string without a NUL character reaches the widget unchanged.
pub proof fn lemma_c_text_of_nul_free(s: Seq<char>)
    requires
        nul_free(s),
    ensures
        c_text(s) == s,
    decreases s.len(),
{
    if s.len() > 0 {
        let rest = s.drop_first();
        assert forall|i: int| 0 <= i < rest.len() implies rest[i] != '\0' by {
            assert(rest[i] == s[i + 1]);
        }
        lemma_c_text_of_nul_free(rest);
        assert(seq![s[0]] + rest =~= s);
    } else {
        assert(c_text(s) =~= s);
    }
}

/// What reaches the widget is a NUL-free prefix of what was given, and it
/// stops only at a NUL character or at the end.
pub proof fn lemma_c_text_is_prefix(s: Seq<char>)
    ensures
        nul_free(c_text(s)),
        c_text(s).len() <= s.len(),
        c_text(s) == s.subrange(0, c_text(s).len() as int),
        c_text(s).len() < s.len() ==> s[c_text(s).len() as int] == '\0',
    decreases s.len(),
{
    if s.len() == 0 || s[0] == '\0' {
        assert(c_text(s) =~= s.subrange(0, 0));
    } else {
        let rest = s.drop_first();
        lemma_c_text_is_prefix(rest);
        let t = c_text(rest);
        let out = seq![s[0]] + t;
        assert(c_text(s) == out);
        assert forall|i: int| 0 <= i < out.len() implies out[i] != '\0' by {
            if i > 0 {
                assert(out[i] == t[i - 1]);
            }
        }
        assert(out =~= s.subrange(0, out.len() as int)) by {
            assert forall|i: int| 0 <= i < out.len() implies out[i] == s[i] by {
                if i > 0 {
                    assert(out[i] == t[i - 1]);
                    assert(t[i - 1] == rest.subrange(0, t.len() as int)[i - 1]);
                }
            }
        }
        if out.len() < s.len() {
            assert(rest[t.len() as int] == s[out.len() as int]);
        }
    }
}

/// Text that is already as the widget would see it stays as it is.
pub proof fn lemma_c_text_idempotent(s: Seq<char>)
    ensures
        c_text(c_text(s)) == c_text(s),
{
    lemma_c_text_is_prefix(s);
    lemma_c_text_of_nul_free(c_text(s));
}

/// Calls `imgui::ImString::new` on `s` and reads the result back with
/// `imgui::ImStr::to_str`.
///
/// `ImString::new` copies the bytes of `s`, appends a NUL byte and cuts the
/// buffer behind the first NUL byte in it; `to_str` gives the bytes in front
/// of that terminator. A NUL byte in UTF-8 is always the NUL character, so
/// the result is `s` up to its first NUL character. Not proved: the contract
/// is taken from the source of `imgui`.
#[verifier::external_body]
pub(crate) fn native_text(s: &str) -> (out: String)
    ensures
        out@ == c_text(s@),
{
    imgui::ImString::new(s).to_str().to_owned()
}

} // verus!
