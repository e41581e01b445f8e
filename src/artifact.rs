use vstd::multiset::Multiset;
use vstd::prelude::*;

verus! {

/// Sole ownership of one transient file on disk.
///
/// The handle cannot be duplicated: whoever holds it is the one party
/// responsible for deleting the file, and handing the handle over moves
/// that responsibility with it.
#[derive(Debug)]
pub struct TempFile {
    path: String,
}

impl View for TempFile {
    type V = Seq<char>;

    /// The path of the owned file.
    closed spec fn view(&self) -> Seq<char> {
        self.path@
    }
}

/// The paths of a sequence of handles, in order.
pub open spec fn paths(files: Seq<TempFile>) -> Seq<Seq<char>> {
    files.map_values(|f: TempFile| f@)
}

/// The paths held by an optional handle.
pub open spec fn held(o: Option<TempFile>) -> Multiset<Seq<char>> {
    match o {
        Some(f) => Multiset::singleton(f@),
        None => Multiset::empty(),
    }
}

impl TempFile {
    /// Takes ownership of the file at `path`.
    pub fn new(path: String) -> (r: TempFile)
        ensures
            r@ == path@,
    {
        TempFile { path }
    }

    /// The path of the owned file.
    pub fn path_str(&self) -> (r: String)
        ensures
            r@ == self@,
    {
        self.path.clone()
    }
}

} // verus!
