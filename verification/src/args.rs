use vstd::prelude::*;

verus! {

/// What the editor is started with.
#[derive(Debug, Clone)]
pub struct Args {
    /// The file to open. If none is given, the editor starts on a new,
    /// empty buffer without a path.
    pub file: Option<String>,
}

} // verus!
