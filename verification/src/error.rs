//! The errors that end the program, and what each of them tells the user.

use vstd::prelude::*;
use vstd::string::*;

verus! {

/// The path that names the driver's raw interface.
pub const CHANNEL_PATH: &'static str = "network:";

/// Why the program cannot start.
#[derive(Clone, Copy, Debug, PartialEq, Eq, Structural)]
pub enum SetupError {
    /// The driver's channel could not be opened.
    ChannelOpenFailed,
    /// The size option was followed by something other than 60 or 1500: by
    /// the number held here, or by no number at all.
    InvalidSizeArgument(Option<i64>),
    /// The size option was the last argument.
    MissingSizeArgument,
}

impl SetupError {
    /// What the user is told.
    pub open spec fn message_text(self) -> Seq<char> {
        match self {
            SetupError::ChannelOpenFailed => "Can't open path "@ + CHANNEL_PATH@,
            SetupError::InvalidSizeArgument(Some(_)) => "Size has to be 60 or 1500 Bytes"@,
            SetupError::InvalidSizeArgument(None) => "Invalid argument to -s option"@,
            SetupError::MissingSizeArgument => "No argument to -s option"@,
        }
    }

    /// What the user is told.
    pub fn message(&self) -> (message: String)
        ensures
            message@ == self.message_text(),
    {
        match self {
            SetupError::ChannelOpenFailed => {
                let mut message = "Can't open path ".to_owned();
                message.append(CHANNEL_PATH);
                message
            },
            SetupError::InvalidSizeArgument(Some(_)) => {
                "Size has to be 60 or 1500 Bytes".to_owned()
            },
            SetupError::InvalidSizeArgument(None) => "Invalid argument to -s option".to_owned(),
            SetupError::MissingSizeArgument => "No argument to -s option".to_owned(),
        }
    }
}

/// Why the program ends.
#[derive(Debug, PartialEq, Eq)]
pub enum FatalError {
    /// It could not start.
    Setup(SetupError),
    /// A write to the channel failed; the text is the channel's own account.
    WriteFailed(String),
}

/// The mathematical content of a [`FatalError`].
pub enum FatalErrorView {
    Setup(SetupError),
    WriteFailed(Seq<char>),
}

impl View for FatalError {
    type V = FatalErrorView;

    open spec fn view(&self) -> FatalErrorView {
        match self {
            FatalError::Setup(error) => FatalErrorView::Setup(*error),
            FatalError::WriteFailed(detail) => FatalErrorView::WriteFailed(detail@),
        }
    }
}

impl FatalErrorView {
    /// What the user is told: for a failed write, the channel's own account.
    pub open spec fn message_text(self) -> Seq<char> {
        match self {
            FatalErrorView::Setup(error) => error.message_text(),
            FatalErrorView::WriteFailed(detail) => detail,
        }
    }
}

impl FatalError {
    /// What the user is told.
    pub fn message(&self) -> (message: String)
        ensures
            message@ == self@.message_text(),
    {
        match self {
            FatalError::Setup(error) => error.message(),
            FatalError::WriteFailed(detail) => detail.clone(),
        }
    }
}

} // verus!
