//! What the picture service and the viewer share.

use vstd::prelude::*;

verus! {

/// A picture of the library.
#[derive(Default, Debug, Clone)]
pub struct Item {
    pub id: i32,
    pub name: String,
    pub data: Option<Vec<u8>>,
}

/// What a client asks the service for.
#[derive(Debug, Clone, Copy, PartialEq, Eq, Structural)]
pub enum Code {
    /// stop the program
    AppTerminate,
    /// a random picture
    GetRandomMedia,
    /// move the picture with an index to the trash folder
    MoveMediaToTrash,
    /// like a picture
    SetLike,
}

} // verus!
