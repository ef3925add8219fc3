//! Signals of the web client, and the tray icon's texts.

use vstd::prelude::*;

verus! {

/// What the web client asks for.
#[derive(Debug, Clone, Copy, PartialEq, Eq, Structural)]
pub enum Code {
    AppTerminate,
    GetRandomMedia,
    MoveMediaToTrash,
    SetLike,
}

/// What the web server does for a client signal.
#[derive(Debug, Clone, Copy, PartialEq, Eq, Structural)]
pub enum Reply {
    /// answer with a random picture
    Random,
    /// move the picture with this index to the trash, then answer with a random one
    Trash(usize),
    /// like the picture with this index and answer with it
    Like(usize),
    /// no answer
    Ignore,
}

/// The reply to a signal with the code `code` and the picture index `id`.
pub fn reply_to(code: Code, id: Option<usize>) -> (r: Reply)
    ensures
        r == (match (code, id) {
            (Code::GetRandomMedia, _) => Reply::Random,
            (Code::MoveMediaToTrash, Some(i)) => Reply::Trash(i),
            (Code::SetLike, Some(i)) => Reply::Like(i),
            _ => Reply::Ignore,
        }),
{
    match (code, id) {
        (Code::GetRandomMedia, _) => Reply::Random,
        (Code::MoveMediaToTrash, Some(i)) => Reply::Trash(i),
        (Code::SetLike, Some(i)) => Reply::Like(i),
        _ => Reply::Ignore,
    }
}

/// The tray icon of the application.
pub struct App {}

impl Default for App {
    fn default() -> (r: App)
        ensures
            r == (App {}),
    {
        App {}
    }
}

impl App {
    /// Name of the icon.
    pub fn icon_name(&self) -> (r: String)
        ensures
            r@ == "trayicon"@,
    {
        String::from_str("trayicon")
    }

    /// Title of the tray item, also the first (disabled) entry of its menu.
    pub fn title(&self) -> (r: String)
        ensures
            r@ == "Zazyr"@,
    {
        String::from_str("Zazyr")
    }

    /// Identifier of the tray item.
    pub fn id(&self) -> (r: String)
        ensures
            r@ == "zazyr"@,
    {
        String::from_str("zazyr")
    }
}

} // verus!
