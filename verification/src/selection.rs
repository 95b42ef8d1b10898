//! The owned copy of what a confirmed dialog reported.
use crate::path::{join_path, joined};
use vstd::prelude::*;

verus! {

/// The text of each string of `v`, in order.
pub open spec fn texts(v: Seq<String>) -> Seq<Seq<char>> {
    v.map_values(|s: String| s@)
}

/// The path of a reported entry inside `dir`; an entry without a name has none.
pub open spec fn entry_path(dir: Seq<char>, name: Seq<char>) -> Option<Seq<char>> {
    if name.len() == 0 {
        None
    } else {
        Some(joined(dir, name))
    }
}

/// The paths of the entries `names` inside `dir`: one for each entry that
/// carries a name, in the order of the entries.
pub open spec fn selected_paths(dir: Seq<char>, names: Seq<Seq<char>>) -> Seq<Seq<char>> {
    names.filter_map(|name: Seq<char>| entry_path(dir, name))
}

/// The number of entries among `names` that carry no name.
pub open spec fn unnamed_count(names: Seq<Seq<char>>) -> nat {
    names.filter(|name: Seq<char>| name.len() == 0).len()
}

/// Every entry yields a path or is counted as unnamed.
pub proof fn lemma_every_entry_accounted(dir: Seq<char>, names: Seq<Seq<char>>)
    ensures
        selected_paths(dir, names).len() + unnamed_count(names) == names.len(),
    decreases names.len(),
{
    reveal(Seq::filter);
    if names.len() > 0 {
        lemma_every_entry_accounted(dir, names.drop_last());
    }
}

/// With a name in every entry, the paths are the entries joined one by one.
pub proof fn lemma_paths_of_named(dir: Seq<char>, names: Seq<Seq<char>>)
    requires
        forall|i: int| 0 <= i < names.len() ==> names[i].len() > 0,
    ensures
        selected_paths(dir, names) == names.map_values(|name: Seq<char>| joined(dir, name)),
    decreases names.len(),
{
    let mapped = names.map_values(|name: Seq<char>| joined(dir, name));
    if names.len() > 0 {
        let front = names.drop_last();
        lemma_paths_of_named(dir, front);
        assert(selected_paths(dir, names) == selected_paths(dir, front) + seq![
            joined(dir, names.last()),
        ]);
        assert(selected_paths(dir, names) =~= mapped);
    } else {
        assert(selected_paths(dir, names) =~= mapped);
    }
}

/// What a selection holds: the directory that was browsed and the reported
/// entries, as text.
pub struct SelectionView {
    pub path: Seq<char>,
    pub names: Seq<Seq<char>>,
}

/// The result of a confirmed dialog, copied out of the native widget: the
/// directory that was browsed at that moment and the name of each selected
/// entry, in the widget's order. It owns all of its data.
#[derive(Debug, PartialEq, Eq)]
pub struct Selection {
    path: String,
    names: Vec<String>,
}

impl View for Selection {
    type V = SelectionView;

    closed spec fn view(&self) -> SelectionView {
        SelectionView { path: self.path@, names: texts(self.names@) }
    }
}

impl Clone for Selection {
    fn clone(&self) -> (out: Self)
        ensures
            out@ == self@,
    {
        let mut names: Vec<String> = Vec::new();
        let mut i: usize = 0;
        while i < self.names.len()
            invariant
                i <= self.names.len(),
                names@ == self.names@.take(i as int),
            decreases self.names.len() - i,
        {
            names.push(self.names[i].clone());
            assert(self.names@.take(i + 1) =~= self.names@.take(i as int).push(self.names@[i as int]));
            i = i + 1;
        }
        assert(names@ =~= self.names@);
        Selection { path: self.path.clone(), names }
    }
}

impl Selection {
    /// Takes ownership of the browsed directory `path` and of the reported
    /// entries `names`. An entry for which the widget gave no name is the
    /// empty string.
    pub fn new(path: String, names: Vec<String>) -> (out: Selection)
        ensures
            out@ == (SelectionView { path: path@, names: texts(names@) }),
    {
        Selection { path, names }
    }

    /// The directory that was browsed when the dialog was confirmed.
    pub fn path(&self) -> (out: String)
        ensures
            out@ == self@.path,
    {
        self.path.clone()
    }

    /// The number of reported entries, named or not.
    pub fn count(&self) -> (out: usize)
        ensures
            out == self@.names.len(),
    {
        self.names.len()
    }

    /// The selected files: the path of every entry that carries a name, in
    /// the order in which the widget reported them. Entries without a name
    /// are left out.
    pub fn files(&self) -> (out: Vec<String>)
        ensures
            texts(out@) == selected_paths(self@.path, self@.names),
    {
        let ghost all = texts(self.names@);
        let mut out: Vec<String> = Vec::new();
        let mut i: usize = 0;
        assert(texts(out@) =~= selected_paths(self.path@, all.take(0)));
        while i < self.names.len()
            invariant
                i <= self.names.len(),
                all == texts(self.names@),
                texts(out@) == selected_paths(self.path@, all.take(i as int)),
            decreases self.names.len() - i,
        {
            let name = self.names[i].as_str();
            let ghost before = out@;
            proof {
                let upto = all.take(i + 1);
                assert(upto.drop_last() =~= all.take(i as int));
                assert(upto.last() == name@);
            }
            if !name.is_empty() {
                let file = join_path(self.path.as_str(), name);
                out.push(file);
                assert(texts(out@) =~= texts(before) + seq![joined(self.path@, name@)]);
            }
            i = i + 1;
        }
        assert(all.take(i as int) =~= all);
        out
    }

    /// The number of entries that were left out of `files` because the
    /// widget reported no name for them.
    pub fn skipped(&self) -> (out: usize)
        ensures
            out == unnamed_count(self@.names),
    {
        let ghost all = texts(self.names@);
        let ghost unnamed = |name: Seq<char>| name.len() == 0;
        let mut out: usize = 0;
        let mut i: usize = 0;
        proof {
            reveal(Seq::filter);
        }
        while i < self.names.len()
            invariant
                i <= self.names.len(),
                all == texts(self.names@),
                unnamed == |name: Seq<char>| name.len() == 0,
                out == all.take(i as int).filter(unnamed).len(),
                out <= i,
            decreases self.names.len() - i,
        {
            proof {
                reveal(Seq::filter);
                let upto = all.take(i + 1);
                assert(upto.drop_last() =~= all.take(i as int));
                assert(upto.last() == self.names@[i as int]@);
            }
            if self.names[i].as_str().is_empty() {
                out = out + 1;
            }
            i = i + 1;
        }
        assert(all.take(i as int) =~= all);
        out
    }
}

} // verus!
