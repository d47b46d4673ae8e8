use vstd::prelude::*;

verus! {

/// What can go wrong between the library's caller and the board.
#[derive(Debug, Clone, Copy, PartialEq, Eq, Structural)]
pub enum WiiBoardError {
    /// Discovery ended without a single candidate device.
    NoBoardsFound,
    /// The connected device carries something other than a balance board.
    NotABoard,
    /// A candidate was found but the handshake with it failed.
    ConnectionFailed,
    /// The device is no longer connected.
    ConnectionDropped,
    /// The lock around the latest reading was left poisoned.
    MutexPoisoned,
}

impl WiiBoardError {
    /// The text of [`WiiBoardError::message`].
    pub open spec fn message_spec(self) -> Seq<char> {
        match self {
            WiiBoardError::NoBoardsFound => "No wii boards were found"@,
            WiiBoardError::NotABoard => "Not a wii board"@,
            WiiBoardError::ConnectionFailed => "Connection Failed"@,
            WiiBoardError::ConnectionDropped => "Connection to the WiiBoard dropped"@,
            WiiBoardError::MutexPoisoned => "Mutex poisoned"@,
        }
    }

    /// A one-line description of the error, for display.
    pub fn message(&self) -> (text: String)
        ensures
            text@ == self.message_spec(),
    {
        match self {
            WiiBoardError::NoBoardsFound => "No wii boards were found".to_owned(),
            WiiBoardError::NotABoard => "Not a wii board".to_owned(),
            WiiBoardError::ConnectionFailed => "Connection Failed".to_owned(),
            WiiBoardError::ConnectionDropped => "Connection to the WiiBoard dropped".to_owned(),
            WiiBoardError::MutexPoisoned => "Mutex poisoned".to_owned(),
        }
    }
}

} // verus!
