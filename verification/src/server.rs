//! The store: a path that is read once and served as often as asked for.

use vstd::prelude::*;
use crate::codec::PathDeserializer;
use crate::errors::{DecodeError, PathError};
use crate::json::{Json, parse, parsed};
use crate::msg::{Path, PathView};

verus! {

/// Serves a path that was read from a document. The path never changes.
#[derive(Debug)]
pub struct PathServer {
    path: Path,
}

impl View for PathServer {
    type V = PathView;

    closed spec fn view(&self) -> PathView {
        self.path@
    }
}

impl PathServer {
    /// A store of the path that the document holds.
    pub fn from_json(doc: &Json) -> (r: Result<PathServer, DecodeError>)
        ensures
            match r {
                Ok(server) => PathView::decode(doc@) == Ok::<PathView, DecodeError>(server@),
                Err(e) => PathView::decode(doc@) == Err::<PathView, DecodeError>(e),
            },
    {
        match PathDeserializer::from_json(doc) {
            Ok(read) => Ok(PathServer { path: read.0 }),
            Err(e) => Err(e),
        }
    }

    /// A store of the path that a JSON text holds.
    ///
    /// Fails with `Json` where the bytes are no JSON text, and with `Decode`
    /// where the text is JSON but not the document of a path.
    ///
    /// A text that gives one object the same name twice is read as if it
    /// gave only the last of those members: see [`parse`].
    pub fn load(bytes: &[u8]) -> (r: Result<PathServer, PathError>)
        ensures
            match parsed(bytes@) {
                None => r matches Err(PathError::Json(_)),
                Some(doc) => match PathView::decode(doc) {
                    Ok(path) => r matches Ok(server) && server@ == path,
                    Err(e) => r matches Err(PathError::Decode(reason)) && reason == e,
                },
            },
    {
        match parse(bytes) {
            Ok(doc) => match PathServer::from_json(&doc) {
                Ok(server) => Ok(server),
                Err(e) => Err(PathError::Decode(e)),
            },
            Err(e) => Err(PathError::Json(e)),
        }
    }

    /// The path that was read.
    pub fn get_path(&self) -> (path: &Path)
        ensures
            path@ == self@,
    {
        &self.path
    }
}

} // verus!
