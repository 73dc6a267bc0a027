//! Filesystem locations described as a base directory and the components
//! joined onto it; the caller turns one into a platform path.
use vstd::prelude::*;

use crate::state::texts;

verus! {

/// A base directory and the relative components joined onto it, in order.
#[derive(Debug, Clone, PartialEq)]
pub struct JoinedPath {
    pub base: String,
    pub parts: Vec<String>,
}

/// The mathematical model of a [`JoinedPath`].
pub struct PathView {
    pub base: Seq<char>,
    pub parts: Seq<Seq<char>>,
}

impl View for JoinedPath {
    type V = PathView;

    open spec fn view(&self) -> PathView {
        PathView { base: self.base@, parts: texts(self.parts@) }
    }
}

impl JoinedPath {
    /// The directory `base` itself.
    pub fn new(base: &str) -> (r: JoinedPath)
        ensures
            r@ == (PathView { base: base@, parts: Seq::empty() }),
    {
        let r = JoinedPath { base: base.to_owned(), parts: Vec::new() };
        assert(texts(r.parts@) =~= Seq::<Seq<char>>::empty());
        r
    }

    /// This location with `part` joined on.
    pub fn join(&self, part: &str) -> (r: JoinedPath)
        ensures
            r@ == (PathView { base: self@.base, parts: self@.parts.push(part@) }),
    {
        let mut parts = crate::state::copy_lines(&self.parts);
        parts.push(part.to_owned());
        let r = JoinedPath { base: self.base.clone(), parts };
        assert(texts(r.parts@) =~= texts(self.parts@).push(part@));
        r
    }
}

} // verus!
