use vstd::prelude::*;

use crate::target::SystemTarget;
use crate::text::{decimal, push_decimal, push_str};

verus! {

/// The errors that the library's own logic reports.
#[derive(Debug, Clone, PartialEq, Eq)]
pub enum Error {
    UnsupportedBackend { backend: String },
    MissingEventSource { name: String },
    NiriCommandFailed { detail: String },
    TargetNotFound { target: SystemTarget },
    MissingInput,
    UnexpectedArgument { got: String },
    InvalidInlineNotaArgument { got: String },
    MissingSocket,
    UnexpectedSignalFrame { got: String },
    ActorCall { detail: String },
    Nota { detail: String },
}

/// The debug rendering of a system target.
pub open spec fn target_text(target: SystemTarget) -> Seq<char> {
    match target {
        SystemTarget::NiriWindow(window) => "NiriWindow(NiriWindow { id: NiriWindowId("@
            + decimal(window.id.0 as nat) + ") })"@,
    }
}

impl Error {
    /// The text that the error is displayed as.
    pub open spec fn spec_message(self) -> Seq<char> {
        match self {
            Error::UnsupportedBackend { backend } => "unsupported system backend: "@ + backend@,
            Error::MissingEventSource { name } => "missing system event source: "@ + name@,
            Error::NiriCommandFailed { detail } => "niri command failed: "@ + detail@,
            Error::TargetNotFound { target } => "target not found: "@ + target_text(target),
            Error::MissingInput => "missing command-line input"@,
            Error::UnexpectedArgument { got } => "unexpected command-line argument: "@ + got@,
            Error::InvalidInlineNotaArgument { got } => "invalid inline nota argument: "@ + got@,
            Error::MissingSocket => "system socket path is missing"@,
            Error::UnexpectedSignalFrame { got } => "unexpected signal frame: "@ + got@,
            Error::ActorCall { detail } => "actor call failed: "@ + detail@,
            Error::Nota { detail } => "nota error: "@ + detail@,
        }
    }

    pub fn message(&self) -> (message: String)
        ensures
            message@ == self.spec_message(),
    {
        let mut buffer: String = String::new();
        match self {
            Error::UnsupportedBackend { backend } => {
                push_str(&mut buffer, "unsupported system backend: ");
                push_str(&mut buffer, backend.as_str());
            },
            Error::MissingEventSource { name } => {
                push_str(&mut buffer, "missing system event source: ");
                push_str(&mut buffer, name.as_str());
            },
            Error::NiriCommandFailed { detail } => {
                push_str(&mut buffer, "niri command failed: ");
                push_str(&mut buffer, detail.as_str());
            },
            Error::TargetNotFound { target } => {
                push_str(&mut buffer, "target not found: ");
                match target {
                    SystemTarget::NiriWindow(window) => {
                        push_str(&mut buffer, "NiriWindow(NiriWindow { id: NiriWindowId(");
                        push_decimal(&mut buffer, window.id.0);
                        push_str(&mut buffer, ") })");
                    },
                }
            },
            Error::MissingInput => {
                push_str(&mut buffer, "missing command-line input");
            },
            Error::UnexpectedArgument { got } => {
                push_str(&mut buffer, "unexpected command-line argument: ");
                push_str(&mut buffer, got.as_str());
            },
            Error::InvalidInlineNotaArgument { got } => {
                push_str(&mut buffer, "invalid inline nota argument: ");
                push_str(&mut buffer, got.as_str());
            },
            Error::MissingSocket => {
                push_str(&mut buffer, "system socket path is missing");
            },
            Error::UnexpectedSignalFrame { got } => {
                push_str(&mut buffer, "unexpected signal frame: ");
                push_str(&mut buffer, got.as_str());
            },
            Error::ActorCall { detail } => {
                push_str(&mut buffer, "actor call failed: ");
                push_str(&mut buffer, detail.as_str());
            },
            Error::Nota { detail } => {
                push_str(&mut buffer, "nota error: ");
                push_str(&mut buffer, detail.as_str());
            },
        }
        proof {
            assert(buffer@ =~= self.spec_message());
        }
        buffer
    }
}

} // verus!
