//! Where a song or a user comes from, and a playlist of such a source.

use vstd::prelude::*;

verus! {

/// The music services a song can come from.
#[derive(Clone, Copy, Debug, PartialEq, Eq, Structural)]
pub enum SourceKind {
    Netease,
    Applemusic,
    Other,
}

/// An item of a music service: the service and the item's id there.
#[derive(Debug)]
pub struct Source {
    pub id: String,
    pub kind: SourceKind,
}

impl Clone for Source {
    fn clone(&self) -> (res: Self)
        ensures
            res == *self,
    {
        Source { id: self.id.clone(), kind: self.kind }
    }
}

/// A playlist of a music service: where it is, and its name.
#[derive(Debug)]
pub struct PlayList {
    pub source: Source,
    pub name: String,
}

/// A copy of an optional text.
pub fn clone_opt_string(o: &Option<String>) -> (res: Option<String>)
    ensures
        res == *o,
{
    match o {
        Some(s) => Some(s.clone()),
        None => None,
    }
}

/// A copy of an optional source.
pub fn clone_opt_source(o: &Option<Source>) -> (res: Option<Source>)
    ensures
        res == *o,
{
    match o {
        Some(s) => Some(s.clone()),
        None => None,
    }
}

} // verus!
