use vstd::prelude::*;

use crate::command::{copy_bytes, CommandLineArgument};
use crate::error::Error;
use crate::text::{decimal, push_decimal, push_str};
use vstd::string::StringSliceAdditionalSpecFns;

verus! {

// ---------------------------------------------------------------------------------------
// Socket mode
// ---------------------------------------------------------------------------------------

/// The permission bits that the daemon applies to its socket.
#[derive(Debug, Clone, Copy, PartialEq, Eq, Structural)]
pub struct SocketMode(pub u32);

/// Whether `byte` is an octal digit, `0` to `7`.
pub open spec fn is_octal_digit(byte: u8) -> bool {
    48 <= byte <= 55
}

/// The value of a numeral of octal digits, most significant first.
pub open spec fn octal_value(digits: Seq<u8>) -> nat
    decreases digits.len(),
{
    if digits.len() == 0 {
        0
    } else {
        octal_value(digits.drop_last()) * 8 + (digits.last() - 48) as nat
    }
}

/// The digits of an unsigned numeral: the text after one leading `+`, if there is one.
pub open spec fn unsigned_digits(bytes: Seq<u8>) -> Seq<u8> {
    if bytes.len() >= 1 && bytes[0] == 43u8 {
        bytes.drop_first()
    } else {
        bytes
    }
}

/// An unsigned octal numeral as `u32::from_str_radix(text, 8)` reads it: an optional `+`,
/// then one or more octal digits whose value fits in a `u32`; anything else is no value.
pub open spec fn spec_parse_octal_u32(bytes: Seq<u8>) -> Option<u32> {
    let digits = unsigned_digits(bytes);
    if digits.len() > 0 && (forall|i: int| 0 <= i < digits.len() ==> is_octal_digit(digits[i]))
        && octal_value(digits) <= u32::MAX {
        Some(octal_value(digits) as u32)
    } else {
        None
    }
}

/// The value of a prefix of an octal numeral is at most the value of the whole.
proof fn lemma_octal_prefix_at_most_whole(digits: Seq<u8>, length: int)
    requires
        0 <= length <= digits.len(),
        forall|i: int| 0 <= i < digits.len() ==> is_octal_digit(digits[i]),
    ensures
        octal_value(digits.subrange(0, length)) <= octal_value(digits),
    decreases digits.len(),
{
    if length < digits.len() {
        let shorter = digits.drop_last();
        assert(shorter.subrange(0, length) =~= digits.subrange(0, length));
        lemma_octal_prefix_at_most_whole(shorter, length);
    } else {
        assert(digits.subrange(0, length) =~= digits);
    }
}

impl SocketMode {
    pub fn from_octal(value: u32) -> (mode: Self)
        ensures
            mode.0 == value,
    {
        Self(value)
    }

    pub fn as_octal(self) -> (value: u32)
        ensures
            value == self.0,
    {
        self.0
    }

    /// The mode that an octal numeral such as `600` names (the text of the
    /// `PERSONA_SOCKET_MODE` setting), or `None` where the text is no such numeral.
    pub fn from_octal_text(text: &str) -> (mode: Option<Self>)
        ensures
            mode == match spec_parse_octal_u32(text.spec_bytes()) {
                Some(value) => Some(SocketMode(value)),
                None => None::<SocketMode>,
            },
    {
        let bytes = text.as_bytes();
        let ghost all = bytes@;
        let length = bytes.len();
        let start: usize = if length >= 1 && bytes[0] == 43u8 {
            1
        } else {
            0
        };
        let ghost digits = unsigned_digits(all);
        assert(digits =~= all.subrange(start as int, length as int));
        if start == length {
            return None;
        }
        let mut value: u32 = 0;
        let mut index: usize = start;
        while index < length
            invariant
                length == all.len(),
                bytes@ == all,
                all == text.spec_bytes(),
                digits == unsigned_digits(all),
                start <= index <= length,
                digits == all.subrange(start as int, length as int),
                forall|i: int| start <= i < index ==> is_octal_digit(all[i]),
                value as nat == octal_value(all.subrange(start as int, index as int)),
            decreases length - index,
        {
            let byte = bytes[index];
            if byte < 48u8 || byte > 55u8 {
                assert(digits[index - start] == byte);
                return None;
            }
            let ghost before = all.subrange(start as int, index as int);
            let ghost after = all.subrange(start as int, index + 1);
            assert(after.drop_last() =~= before);
            match value.checked_mul(8) {
                Some(scaled) => match scaled.checked_add((byte - 48u8) as u32) {
                    Some(next) => {
                        value = next;
                    },
                    None => {
                        proof {
                            if forall|i: int| 0 <= i < digits.len() ==> is_octal_digit(digits[i]) {
                                assert(digits.subrange(0, index + 1 - start) =~= after);
                                lemma_octal_prefix_at_most_whole(digits, index + 1 - start);
                            }
                        }
                        return None;
                    },
                },
                None => {
                    proof {
                        if forall|i: int| 0 <= i < digits.len() ==> is_octal_digit(digits[i]) {
                            assert(digits.subrange(0, index + 1 - start) =~= after);
                            lemma_octal_prefix_at_most_whole(digits, index + 1 - start);
                        }
                    }
                    return None;
                },
            }
            index = index + 1;
        }
        assert(all.subrange(start as int, length as int) =~= digits);
        Some(Self(value))
    }
}

// ---------------------------------------------------------------------------------------
// Frame codec
// ---------------------------------------------------------------------------------------

/// The length that a frame's four-byte big-endian prefix states.
pub open spec fn big_endian_length(prefix: Seq<u8>) -> nat {
    prefix[0] as nat * 16777216 + prefix[1] as nat * 65536 + prefix[2] as nat * 256
        + prefix[3] as nat
}

/// The text that refuses a frame longer than the codec's maximum.
pub open spec fn oversized_frame_text(length: nat, maximum: nat) -> Seq<char> {
    "frame length "@ + decimal(length) + " exceeds "@ + decimal(maximum)
}

/// Reads and writes length-prefixed signal frames of at most `maximum_frame_bytes`.
#[derive(Debug, Clone, Copy, PartialEq, Eq, Structural)]
pub struct SystemFrameCodec {
    pub maximum_frame_bytes: usize,
}

impl SystemFrameCodec {
    pub fn new(maximum_frame_bytes: usize) -> (codec: Self)
        ensures
            codec.maximum_frame_bytes == maximum_frame_bytes,
    {
        Self { maximum_frame_bytes }
    }

    /// The body length that a frame's prefix states, refused where it exceeds the
    /// codec's maximum.
    pub fn frame_length(&self, prefix: [u8; 4]) -> (length: Result<usize, Error>)
        ensures
            big_endian_length(prefix@) <= self.maximum_frame_bytes ==> length == Ok::<
                usize,
                Error,
            >(big_endian_length(prefix@) as usize),
            big_endian_length(prefix@) > self.maximum_frame_bytes ==> (length matches Err(
                Error::UnexpectedSignalFrame { got },
            ) && got@ == oversized_frame_text(
                big_endian_length(prefix@),
                self.maximum_frame_bytes as nat,
            )),
    {
        let stated: u32 = prefix[0] as u32 * 16777216 + prefix[1] as u32 * 65536 + prefix[2] as u32
            * 256 + prefix[3] as u32;
        assert(stated == big_endian_length(prefix@));
        let length = stated as usize;
        if length > self.maximum_frame_bytes {
            let mut text: String = String::new();
            push_str(&mut text, "frame length ");
            push_decimal(&mut text, stated as u64);
            push_str(&mut text, " exceeds ");
            push_decimal(&mut text, self.maximum_frame_bytes as u64);
            assert(text@ =~= oversized_frame_text(
                big_endian_length(prefix@),
                self.maximum_frame_bytes as nat,
            ));
            return Err(Error::UnexpectedSignalFrame { got: text });
        }
        Ok(length)
    }
}

impl Default for SystemFrameCodec {
    fn default() -> (codec: Self)
        ensures
            codec.maximum_frame_bytes == 1048576,
    {
        Self::new(1024 * 1024)
    }
}

} // verus!

verus! {

// ---------------------------------------------------------------------------------------
// Daemon settings and its command line
// ---------------------------------------------------------------------------------------

/// The system backends that the daemon serves.
#[derive(Debug, Clone, Copy, PartialEq, Eq, Hash, Structural)]
pub enum SystemBackend {
    Niri,
}

/// The daemon before it binds: its socket path (as encoded bytes), its backend, and the
/// mode to apply to the socket, if one was given.
#[derive(Debug, Clone, PartialEq, Eq)]
pub struct SystemDaemon {
    socket: Vec<u8>,
    backend: SystemBackend,
    socket_mode: Option<SocketMode>,
}

/// The abstract value of the daemon's settings.
pub struct SystemDaemonView {
    pub socket: Seq<u8>,
    pub backend: SystemBackend,
    pub socket_mode: Option<SocketMode>,
}

impl View for SystemDaemon {
    type V = SystemDaemonView;

    closed spec fn view(&self) -> SystemDaemonView {
        SystemDaemonView {
            socket: self.socket@,
            backend: self.backend,
            socket_mode: self.socket_mode,
        }
    }
}

impl SystemDaemon {
    /// A daemon on `socket` for the Niri backend, with the socket mode that the spawn
    /// environment gave, if any.
    pub fn from_socket(socket: Vec<u8>, socket_mode: Option<SocketMode>) -> (daemon: Self)
        ensures
            daemon@ == (SystemDaemonView {
                socket: socket@,
                backend: SystemBackend::Niri,
                socket_mode,
            }),
    {
        Self { socket, backend: SystemBackend::Niri, socket_mode }
    }

    pub fn with_backend(self, backend: SystemBackend) -> (daemon: Self)
        ensures
            daemon@ == (SystemDaemonView { backend, ..self@ }),
    {
        let mut daemon = self;
        daemon.backend = backend;
        daemon
    }

    pub fn with_socket_mode(self, socket_mode: SocketMode) -> (daemon: Self)
        ensures
            daemon@ == (SystemDaemonView { socket_mode: Some(socket_mode), ..self@ }),
    {
        let mut daemon = self;
        daemon.socket_mode = Some(socket_mode);
        daemon
    }

    pub fn socket(&self) -> (socket: &Vec<u8>)
        ensures
            socket@ == self@.socket,
    {
        &self.socket
    }

    pub fn backend(&self) -> (backend: SystemBackend)
        ensures
            backend == self@.backend,
    {
        self.backend
    }

    pub fn socket_mode(&self) -> (socket_mode: Option<SocketMode>)
        ensures
            socket_mode == self@.socket_mode,
    {
        self.socket_mode
    }
}

/// The daemon's command line: exactly one argument, the socket path.
#[derive(Debug, Clone, PartialEq, Eq)]
pub struct SystemCommandLine {
    arguments: Vec<CommandLineArgument>,
}

impl View for SystemCommandLine {
    type V = Seq<CommandLineArgument>;

    closed spec fn view(&self) -> Seq<CommandLineArgument> {
        self.arguments@
    }
}

impl SystemCommandLine {
    pub fn from_arguments(arguments: Vec<CommandLineArgument>) -> (command_line: Self)
        ensures
            command_line@ == arguments@,
    {
        Self { arguments }
    }

    /// The daemon that the command line asks for: no argument is `MissingSocket`, a
    /// second argument is refused by its lossy text, and the one argument is the socket.
    pub fn daemon(&self, socket_mode: Option<SocketMode>) -> (daemon: Result<SystemDaemon, Error>)
        ensures
            self@.len() == 0 ==> daemon == Err::<SystemDaemon, Error>(Error::MissingSocket),
            self@.len() >= 2 ==> daemon == Err::<SystemDaemon, Error>(
                Error::UnexpectedArgument { got: self@[1].lossy },
            ),
            self@.len() == 1 ==> (daemon matches Ok(d) && d@ == (SystemDaemonView {
                socket: self@[0].encoded@,
                backend: SystemBackend::Niri,
                socket_mode,
            })),
    {
        if self.arguments.len() == 0 {
            return Err(Error::MissingSocket);
        }
        if self.arguments.len() >= 2 {
            return Err(Error::UnexpectedArgument { got: self.arguments[1].lossy.clone() });
        }
        Ok(SystemDaemon::from_socket(copy_bytes(&self.arguments[0].encoded), socket_mode))
    }
}

// ---------------------------------------------------------------------------------------
// Supervisor and request handling
// ---------------------------------------------------------------------------------------

/// The daemon's health as a status reply reports it.
#[derive(Debug, Clone, Copy, PartialEq, Eq, Structural)]
pub enum SystemHealth {
    Running,
}

/// The daemon's readiness as a status reply reports it.
#[derive(Debug, Clone, Copy, PartialEq, Eq, Structural)]
pub enum SystemReadiness {
    Ready,
}

/// Why a recognized request was not served.
#[derive(Debug, Clone, Copy, PartialEq, Eq, Structural)]
pub enum SystemUnimplementedReason {
    NotBuiltYet,
}

/// A status query: which backend the client asks about.
#[derive(Debug, Clone, Copy, PartialEq, Eq, Structural)]
pub struct SystemStatusQuery {
    pub backend: SystemBackend,
}

/// What the handler reads of one decoded request: the kind of operation it is (of the
/// contract's operation-kind type `K`), and its status query where it is one.
#[derive(Debug, Clone, Copy, PartialEq, Eq)]
pub struct SystemRequestSummary<K> {
    pub operation: K,
    pub status_query: Option<SystemStatusQuery>,
}

/// A status reply.
#[derive(Debug, Clone, Copy, PartialEq, Eq, Structural)]
pub struct SystemStatus {
    pub backend: SystemBackend,
    pub health: SystemHealth,
    pub readiness: SystemReadiness,
}

/// The typed reply to a recognized request that is not built yet.
#[derive(Debug, Clone, Copy, PartialEq, Eq)]
pub struct SystemRequestUnimplemented<K> {
    pub operation: K,
    pub reason: SystemUnimplementedReason,
}

/// The daemon's reply to one request.
#[derive(Debug, Clone, Copy, PartialEq, Eq)]
pub enum SystemEvent<K> {
    SystemStatus(SystemStatus),
    SystemRequestUnimplemented(SystemRequestUnimplemented<K>),
}

/// A snapshot of the supervisor's state.
#[derive(Debug, Clone, Copy, PartialEq, Eq)]
pub struct SystemState<K> {
    pub backend: SystemBackend,
    pub served_request_count: u64,
    pub last_operation: Option<K>,
}

/// The state that the daemon's supervisor keeps: its backend, how many requests it
/// served, and the last operation served.
#[derive(Debug)]
pub struct SystemSupervisor<K> {
    backend: SystemBackend,
    served_request_count: u64,
    last_operation: Option<K>,
}

impl<K> View for SystemSupervisor<K> {
    type V = SystemState<K>;

    closed spec fn view(&self) -> SystemState<K> {
        SystemState {
            backend: self.backend,
            served_request_count: self.served_request_count,
            last_operation: self.last_operation,
        }
    }
}

/// The message that reads the supervisor's state.
#[derive(Debug, Clone, Copy, PartialEq, Eq, Structural)]
pub struct ReadSystemState {
    pub minimum_served_request_count: u64,
}

impl ReadSystemState {
    pub fn expecting_at_least(minimum_served_request_count: u64) -> (message: Self)
        ensures
            message.minimum_served_request_count == minimum_served_request_count,
    {
        Self { minimum_served_request_count }
    }
}

/// The message that records one served request.
#[derive(Debug, Clone, Copy, PartialEq, Eq)]
pub struct RecordServedSystemRequest<K> {
    pub operation: K,
}

/// The supervisor's state once one more request of kind `operation` is served: the count
/// rises by one (held at `u64::MAX`) and the operation becomes the last one.
pub open spec fn served_one_more<K>(state: SystemState<K>, operation: K) -> SystemState<K> {
    SystemState {
        backend: state.backend,
        served_request_count: if state.served_request_count == u64::MAX {
            u64::MAX
        } else {
            (state.served_request_count + 1) as u64
        },
        last_operation: Some(operation),
    }
}

impl<K: Copy> SystemSupervisor<K> {
    pub fn new(backend: SystemBackend) -> (supervisor: Self)
        ensures
            supervisor@ == (SystemState::<K> {
                backend,
                served_request_count: 0,
                last_operation: None,
            }),
    {
        Self { backend, served_request_count: 0, last_operation: None }
    }

    fn state(&self) -> (state: SystemState<K>)
        ensures
            state == self@,
    {
        SystemState {
            backend: self.backend,
            served_request_count: self.served_request_count,
            last_operation: self.last_operation,
        }
    }

    /// Handles `ReadSystemState`: the state as it stands; reading changes nothing.
    pub fn read_state(&self, message: ReadSystemState) -> (state: SystemState<K>)
        ensures
            state == self@,
    {
        let _satisfied = self.served_request_count >= message.minimum_served_request_count;
        self.state()
    }

    /// Handles `RecordServedSystemRequest`.
    pub fn record_served_request(&mut self, message: RecordServedSystemRequest<K>) -> (state:
        SystemState<K>)
        ensures
            final(self)@ == served_one_more(old(self)@, message.operation),
            state == final(self)@,
    {
        self.last_operation = Some(message.operation);
        self.served_request_count = self.served_request_count.saturating_add(1);
        self.state()
    }
}

/// The reply that the daemon owes a request: a status query is answered with its own
/// backend, running and ready; every other recognized request is answered as not built
/// yet, naming its operation.
pub open spec fn spec_event_for_request<K>(request: SystemRequestSummary<K>) -> SystemEvent<K> {
    match request.status_query {
        Some(query) => SystemEvent::SystemStatus(
            SystemStatus {
                backend: query.backend,
                health: SystemHealth::Running,
                readiness: SystemReadiness::Ready,
            },
        ),
        None => SystemEvent::SystemRequestUnimplemented(
            SystemRequestUnimplemented {
                operation: request.operation,
                reason: SystemUnimplementedReason::NotBuiltYet,
            },
        ),
    }
}

/// Answers decoded requests against the supervisor.
#[derive(Debug, Clone, Copy, PartialEq, Eq, Structural)]
pub struct SystemRequestHandler;

impl SystemRequestHandler {
    pub fn new() -> (handler: Self) {
        SystemRequestHandler
    }

    pub fn health<K>(state: &SystemState<K>) -> (health: SystemHealth)
        ensures
            health == SystemHealth::Running,
    {
        match state.backend {
            SystemBackend::Niri => SystemHealth::Running,
        }
    }

    pub fn readiness<K>(state: &SystemState<K>) -> (readiness: SystemReadiness)
        ensures
            readiness == SystemReadiness::Ready,
    {
        match state.backend {
            SystemBackend::Niri => SystemReadiness::Ready,
        }
    }

    /// Records the request with the supervisor, then answers it.
    pub fn event_for_request<K: Copy>(
        &self,
        system: &mut SystemSupervisor<K>,
        request: SystemRequestSummary<K>,
    ) -> (event: SystemEvent<K>)
        ensures
            final(system)@ == served_one_more(old(system)@, request.operation),
            event == spec_event_for_request(request),
    {
        let _state = system.record_served_request(RecordServedSystemRequest { operation: request.operation });
        match request.status_query {
            Some(query) => self.status_event(system, query),
            None => SystemEvent::SystemRequestUnimplemented(
                SystemRequestUnimplemented {
                    operation: request.operation,
                    reason: SystemUnimplementedReason::NotBuiltYet,
                },
            ),
        }
    }

    fn status_event<K: Copy>(&self, system: &SystemSupervisor<K>, query: SystemStatusQuery) -> (event:
        SystemEvent<K>)
        ensures
            event == SystemEvent::<K>::SystemStatus(
                SystemStatus {
                    backend: query.backend,
                    health: SystemHealth::Running,
                    readiness: SystemReadiness::Ready,
                },
            ),
    {
        let state = system.read_state(ReadSystemState::expecting_at_least(0));
        SystemEvent::SystemStatus(
            SystemStatus {
                backend: query.backend,
                health: Self::health(&state),
                readiness: Self::readiness(&state),
            },
        )
    }
}

} // verus!

verus! {

/// One message to the supervisor: a read of its state, or a record of a served request.
pub enum SupervisorMessage<K> {
    Read(ReadSystemState),
    Record(RecordServedSystemRequest<K>),
}

/// The supervisor's state after one message: a read changes nothing (`read_state` takes
/// the supervisor by shared reference), a record counts one more served request.
pub open spec fn state_after_message<K>(state: SystemState<K>, message: SupervisorMessage<K>) -> SystemState<K> {
    match message {
        SupervisorMessage::Read(_) => state,
        SupervisorMessage::Record(record) => served_one_more(state, record.operation),
    }
}

/// The supervisor's state after `messages` in order.
pub open spec fn state_after_messages<K>(state: SystemState<K>, messages: Seq<SupervisorMessage<K>>) -> SystemState<K>
    decreases messages.len(),
{
    if messages.len() == 0 {
        state
    } else {
        state_after_message(state_after_messages(state, messages.drop_last()), messages.last())
    }
}

/// How many of `messages` record a served request.
pub open spec fn records_in<K>(messages: Seq<SupervisorMessage<K>>) -> nat
    decreases messages.len(),
{
    if messages.len() == 0 {
        0
    } else {
        records_in(messages.drop_last()) + match messages.last() {
            SupervisorMessage::Read(_) => 0nat,
            SupervisorMessage::Record(_) => 1nat,
        }
    }
}

/// The operation of the last record among `messages`, if there is one.
pub open spec fn last_recorded<K>(messages: Seq<SupervisorMessage<K>>) -> Option<K>
    decreases messages.len(),
{
    if messages.len() == 0 {
        None
    } else {
        match messages.last() {
            SupervisorMessage::Record(record) => Some(record.operation),
            SupervisorMessage::Read(_) => last_recorded(messages.drop_last()),
        }
    }
}

/// Over any run of reads and records, the backend never changes and the served count
/// never falls; it rises by the number of records while it fits in a `u64`, and the last
/// operation is that of the last record (or stays as it was where there is none).
pub proof fn lemma_supervisor_over_run<K>(state: SystemState<K>, messages: Seq<SupervisorMessage<K>>)
    ensures
        state_after_messages(state, messages).backend == state.backend,
        state_after_messages(state, messages).served_request_count >= state.served_request_count,
        state.served_request_count + records_in(messages) <= u64::MAX ==> state_after_messages(
            state,
            messages,
        ).served_request_count == state.served_request_count + records_in(messages),
        state_after_messages(state, messages).last_operation == match last_recorded(messages) {
            Some(operation) => Some(operation),
            None => state.last_operation,
        },
    decreases messages.len(),
{
    if messages.len() > 0 {
        lemma_supervisor_over_run(state, messages.drop_last());
    }
}

/// A supervisor started for `backend` that has handled `messages` holds exactly: that
/// backend, the number of records as its count, and the last record's operation.
pub proof fn lemma_fresh_supervisor_over_run<K>(
    backend: SystemBackend,
    messages: Seq<SupervisorMessage<K>>,
)
    requires
        records_in(messages) <= u64::MAX,
    ensures
        state_after_messages(
            SystemState { backend, served_request_count: 0, last_operation: None },
            messages,
        ) == (SystemState {
            backend,
            served_request_count: records_in(messages) as u64,
            last_operation: last_recorded(messages),
        }),
{
    lemma_supervisor_over_run(
        SystemState { backend, served_request_count: 0, last_operation: None },
        messages,
    );
}

} // verus!
