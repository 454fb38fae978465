pub mod command;
pub mod daemon;
pub mod error;
pub mod event;
pub mod niri;
pub mod nota;
pub mod niri_focus;
pub mod niri_focus_actor;
pub mod target;
pub mod text;

pub use command::{
    CommandLine, CommandLineArgument, FocusCommand, Input, InputSource, ObserveFocus, ResolvedInput,
    SubscribeFocus,
};
pub use daemon::{
    ReadSystemState, RecordServedSystemRequest, SocketMode, SystemBackend, SystemCommandLine,
    SystemDaemon, SystemEvent, SystemFrameCodec, SystemHealth, SystemReadiness,
    SystemRequestHandler, SystemRequestSummary, SystemRequestUnimplemented, SystemState,
    SystemStatus, SystemStatusQuery, SystemSupervisor, SupervisorMessage, SystemUnimplementedReason,
};
pub use error::Error;
pub use event::{FocusObservation, FocusState, InputBufferState};
pub use niri::{
    FocusTracker, FocusTrackerView, NiriEvent, NiriTimestamp, NiriWindowSnapshot, NiriWindows,
};
pub use niri_focus::{ApplyNiriEvent, FocusStatistics, FocusStatisticsProbe, ReadFocusStatistics};
pub use niri_focus_actor::{NiriFocusActor, NiriFocusActorView};
pub use target::{HarnessTarget, HarnessTargetView, NiriWindow, NiriWindowId, SystemTarget};
