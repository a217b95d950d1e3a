//! Failures of the library, each with its category and its message.

use vstd::prelude::*;

verus! {

/// The category of a failure.
#[derive(Clone, Copy, Debug, PartialEq, Eq, Structural)]
pub enum ErrorKind {
    NotFound,
    PermissionDenied,
    BrokenPipe,
    AlreadyExists,
    WouldBlock,
    InvalidInput,
    InvalidData,
    TimedOut,
    WriteZero,
    ResourceBusy,
    UnexpectedEof,
    Other,
}

/// A failure of the library.
#[derive(Clone, Copy, Debug, PartialEq, Eq)]
pub enum Error {
    /// Every reader slot of the ring is taken.
    ReaderCapacityExhausted,
    /// No live ring is registered under the requested port.
    PortNotFound,
    /// The peer speaks another version of the control protocol.
    IncompatibleProtocol,
    /// The shared header declares another ABI version.
    UnsupportedVersion(u64),
    /// The shared-memory layout is malformed.
    InvalidLayout(&'static str),
    /// The shared cursors contradict each other.
    CorruptState,
    /// A length exceeds the ring capacity or the reservation.
    InvalidLength,
    /// The caller passed an unusable argument.
    InvalidInput(&'static str),
    /// The platform broke one of its own guarantees.
    PlatformInvariant(&'static str),
    /// The peer broke the control protocol.
    Protocol(&'static str),
    /// The peer is gone.
    PeerDisconnected,
    /// The reservation is valid but not available yet.
    WouldBlock,
    /// A mapping transfer carried something other than one usable mapping.
    InvalidTransfer(&'static str),
    /// A logical ring name is malformed.
    InvalidName,
    /// Another process did not finish initializing a ring in time.
    InitializationTimedOut,
    /// A failure of the operating system, with its category and its code.
    Os { kind: ErrorKind, code: i32 },
    /// A bare category, without a message of the library's own.
    Bare(ErrorKind),
}

/// The decimal digit of `d`.
pub open spec fn digit(d: nat) -> char
    recommends
        d < 10,
{
    if d == 0 {
        '0'
    } else if d == 1 {
        '1'
    } else if d == 2 {
        '2'
    } else if d == 3 {
        '3'
    } else if d == 4 {
        '4'
    } else if d == 5 {
        '5'
    } else if d == 6 {
        '6'
    } else if d == 7 {
        '7'
    } else if d == 8 {
        '8'
    } else {
        '9'
    }
}

/// `n` in decimal, without leading zeros.
pub open spec fn decimal(n: nat) -> Seq<char>
    decreases n,
{
    if n < 10 {
        seq![digit(n)]
    } else {
        decimal(n / 10).push(digit(n % 10))
    }
}

impl ErrorKind {
    /// What the category alone says.
    pub open spec fn spec_message(self) -> Seq<char> {
        match self {
            ErrorKind::NotFound => "entity not found"@,
            ErrorKind::PermissionDenied => "permission denied"@,
            ErrorKind::BrokenPipe => "broken pipe"@,
            ErrorKind::AlreadyExists => "entity already exists"@,
            ErrorKind::WouldBlock => "operation would block"@,
            ErrorKind::InvalidInput => "invalid input parameter"@,
            ErrorKind::InvalidData => "invalid data"@,
            ErrorKind::TimedOut => "timed out"@,
            ErrorKind::WriteZero => "write zero"@,
            ErrorKind::ResourceBusy => "resource busy"@,
            ErrorKind::UnexpectedEof => "unexpected end of file"@,
            ErrorKind::Other => "other error"@,
        }
    }

    /// Returns the text that stands for the category alone.
    pub fn message(self) -> (text: String)
        ensures
            text@ == self.spec_message(),
    {
        let text = match self {
            ErrorKind::NotFound => "entity not found",
            ErrorKind::PermissionDenied => "permission denied",
            ErrorKind::BrokenPipe => "broken pipe",
            ErrorKind::AlreadyExists => "entity already exists",
            ErrorKind::WouldBlock => "operation would block",
            ErrorKind::InvalidInput => "invalid input parameter",
            ErrorKind::InvalidData => "invalid data",
            ErrorKind::TimedOut => "timed out",
            ErrorKind::WriteZero => "write zero",
            ErrorKind::ResourceBusy => "resource busy",
            ErrorKind::UnexpectedEof => "unexpected end of file",
            ErrorKind::Other => "other error",
        };
        text.to_owned()
    }
}

impl Error {
    /// The category of each failure.
    pub open spec fn spec_kind(self) -> ErrorKind {
        match self {
            Error::ReaderCapacityExhausted => ErrorKind::ResourceBusy,
            Error::PortNotFound => ErrorKind::NotFound,
            Error::IncompatibleProtocol => ErrorKind::Other,
            Error::UnsupportedVersion(_) => ErrorKind::Other,
            Error::InvalidLayout(_) => ErrorKind::InvalidData,
            Error::CorruptState => ErrorKind::Other,
            Error::InvalidLength => ErrorKind::InvalidInput,
            Error::InvalidInput(_) => ErrorKind::InvalidInput,
            Error::PlatformInvariant(_) => ErrorKind::Other,
            Error::Protocol(_) => ErrorKind::InvalidData,
            Error::PeerDisconnected => ErrorKind::BrokenPipe,
            Error::WouldBlock => ErrorKind::WouldBlock,
            Error::InvalidTransfer(_) => ErrorKind::InvalidData,
            Error::InvalidName => ErrorKind::InvalidInput,
            Error::InitializationTimedOut => ErrorKind::TimedOut,
            Error::Os { kind, .. } => kind,
            Error::Bare(kind) => kind,
        }
    }

    /// The message of each failure that the library words itself; the system words its own.
    pub open spec fn spec_message(self) -> Option<Seq<char>> {
        match self {
            Error::ReaderCapacityExhausted => Some("the ring's reader capacity is exhausted"@),
            Error::PortNotFound => Some("the requested ring port is not registered"@),
            Error::IncompatibleProtocol => Some(
                "server uses an unsupported control protocol version"@,
            ),
            Error::UnsupportedVersion(version) => Some(
                "unsupported IPC ring ABI version "@ + decimal(version as nat),
            ),
            Error::InvalidLayout(reason) => Some("invalid IPC ring layout: "@ + reason@),
            Error::CorruptState => Some("shared ring state is corrupt"@),
            Error::InvalidLength => Some("length exceeds the ring capacity or reservation"@),
            Error::InvalidInput(reason) => Some("invalid input: "@ + reason@),
            Error::PlatformInvariant(reason) => Some(
                "platform mapping invariant failed: "@ + reason@,
            ),
            Error::Protocol(reason) => Some("invalid control protocol: "@ + reason@),
            Error::PeerDisconnected => Some("ring peer disconnected"@),
            Error::WouldBlock => Some("requested reservation is unavailable"@),
            Error::InvalidTransfer(reason) => Some(reason@),
            Error::InvalidName => Some("invalid ring name"@),
            Error::InitializationTimedOut => Some("ring initialization timed out"@),
            Error::Os { .. } => None,
            Error::Bare(kind) => Some(kind.spec_message()),
        }
    }

    /// Returns the category of this failure.
    pub fn kind(&self) -> (kind: ErrorKind)
        ensures
            kind == self.spec_kind(),
    {
        match *self {
            Error::ReaderCapacityExhausted => ErrorKind::ResourceBusy,
            Error::PortNotFound => ErrorKind::NotFound,
            Error::IncompatibleProtocol => ErrorKind::Other,
            Error::UnsupportedVersion(_) => ErrorKind::Other,
            Error::InvalidLayout(_) => ErrorKind::InvalidData,
            Error::CorruptState => ErrorKind::Other,
            Error::InvalidLength => ErrorKind::InvalidInput,
            Error::InvalidInput(_) => ErrorKind::InvalidInput,
            Error::PlatformInvariant(_) => ErrorKind::Other,
            Error::Protocol(_) => ErrorKind::InvalidData,
            Error::PeerDisconnected => ErrorKind::BrokenPipe,
            Error::WouldBlock => ErrorKind::WouldBlock,
            Error::InvalidTransfer(_) => ErrorKind::InvalidData,
            Error::InvalidName => ErrorKind::InvalidInput,
            Error::InitializationTimedOut => ErrorKind::TimedOut,
            Error::Os { kind, .. } => kind,
            Error::Bare(kind) => kind,
        }
    }

    /// Returns the message of this failure: the library's own, or the system's for its code.
    pub fn message(&self) -> (text: String)
        ensures
            self.spec_message() matches Some(words) ==> text@ == words,
            self matches Error::Os { code, .. } ==> system_words(*code, text),
    {
        match *self {
            Error::ReaderCapacityExhausted => "the ring's reader capacity is exhausted".to_owned(),
            Error::PortNotFound => "the requested ring port is not registered".to_owned(),
            Error::IncompatibleProtocol =>
                "server uses an unsupported control protocol version".to_owned(),
            Error::UnsupportedVersion(version) => joined(
                "unsupported IPC ring ABI version ",
                decimal_text(version).as_str(),
            ),
            Error::InvalidLayout(reason) => joined("invalid IPC ring layout: ", reason),
            Error::CorruptState => "shared ring state is corrupt".to_owned(),
            Error::InvalidLength => "length exceeds the ring capacity or reservation".to_owned(),
            Error::InvalidInput(reason) => joined("invalid input: ", reason),
            Error::PlatformInvariant(reason) => joined(
                "platform mapping invariant failed: ",
                reason,
            ),
            Error::Protocol(reason) => joined("invalid control protocol: ", reason),
            Error::PeerDisconnected => "ring peer disconnected".to_owned(),
            Error::WouldBlock => "requested reservation is unavailable".to_owned(),
            Error::InvalidTransfer(reason) => reason.to_owned(),
            Error::InvalidName => "invalid ring name".to_owned(),
            Error::InitializationTimedOut => "ring initialization timed out".to_owned(),
            Error::Os { code, .. } => {
                let failure = std::io::Error::from_raw_os_error(code);
                system_text(&failure)
            },
            Error::Bare(kind) => kind.message(),
        }
    }
}

/// `std::io::Error`: a failure of the system. It is carried, and nothing is claimed of its
/// inside.
#[verifier::external_type_specification]
#[verifier::external_body]
pub struct ExIoError(std::io::Error);

/// `std::io::Error::from_raw_os_error`: the failure with this code. Nothing is claimed of it.
pub assume_specification[ std::io::Error::from_raw_os_error ](code: i32) -> std::io::Error
;

/// `std::io::Error::to_string`: how the system words a failure. The words differ between
/// machines, so nothing is claimed of them.
#[verifier::external_body]
fn system_text(failure: &std::io::Error) -> (text: String) {
    failure.to_string()
}

/// Whether `text` is how the system worded the failure with this code.
pub closed spec fn system_words(code: i32, text: String) -> bool {
    exists|failure: std::io::Error|
        call_ensures(std::io::Error::from_raw_os_error, (code,), failure) && #[trigger] call_ensures(
            system_text,
            (&failure,),
            text,
        )
}

/// Returns `first` followed by `second`.
pub(crate) fn joined(first: &str, second: &str) -> (text: String)
    ensures
        text@ == first@ + second@,
{
    let mut text = first.to_owned();
    text.append(second);
    text
}

fn digit_text(d: u64) -> (text: &'static str)
    requires
        d < 10,
    ensures
        text@ == seq![digit(d as nat)],
{
    proof {
        reveal_strlit("0");
        reveal_strlit("1");
        reveal_strlit("2");
        reveal_strlit("3");
        reveal_strlit("4");
        reveal_strlit("5");
        reveal_strlit("6");
        reveal_strlit("7");
        reveal_strlit("8");
        reveal_strlit("9");
    }
    let text = match d {
        0 => "0",
        1 => "1",
        2 => "2",
        3 => "3",
        4 => "4",
        5 => "5",
        6 => "6",
        7 => "7",
        8 => "8",
        _ => "9",
    };
    assert(text@ =~= seq![digit(d as nat)]);
    text
}

fn decimal_text(n: u64) -> (text: String)
    ensures
        text@ == decimal(n as nat),
    decreases n,
{
    if n < 10 {
        digit_text(n).to_owned()
    } else {
        let mut text = decimal_text(n / 10);
        text.append(digit_text(n % 10));
        assert(text@ =~= decimal(n as nat));
        text
    }
}

pub fn reader_capacity_exhausted() -> (error: Error)
    ensures
        error == Error::ReaderCapacityExhausted,
{
    Error::ReaderCapacityExhausted
}

pub fn port_not_found() -> (error: Error)
    ensures
        error == Error::PortNotFound,
{
    Error::PortNotFound
}

pub fn incompatible_protocol() -> (error: Error)
    ensures
        error == Error::IncompatibleProtocol,
{
    Error::IncompatibleProtocol
}

pub fn unsupported_version(version: u64) -> (error: Error)
    ensures
        error == Error::UnsupportedVersion(version),
{
    Error::UnsupportedVersion(version)
}

pub fn invalid_layout(reason: &'static str) -> (error: Error)
    ensures
        error == Error::InvalidLayout(reason),
{
    Error::InvalidLayout(reason)
}

pub fn corrupt_state() -> (error: Error)
    ensures
        error == Error::CorruptState,
{
    Error::CorruptState
}

pub fn invalid_length() -> (error: Error)
    ensures
        error == Error::InvalidLength,
{
    Error::InvalidLength
}

pub fn invalid_input(reason: &'static str) -> (error: Error)
    ensures
        error == Error::InvalidInput(reason),
{
    Error::InvalidInput(reason)
}

pub fn platform_invariant(reason: &'static str) -> (error: Error)
    ensures
        error == Error::PlatformInvariant(reason),
{
    Error::PlatformInvariant(reason)
}

pub fn protocol(reason: &'static str) -> (error: Error)
    ensures
        error == Error::Protocol(reason),
{
    Error::Protocol(reason)
}

pub fn peer_disconnected() -> (error: Error)
    ensures
        error == Error::PeerDisconnected,
{
    Error::PeerDisconnected
}

pub fn would_block() -> (error: Error)
    ensures
        error == Error::WouldBlock,
{
    Error::WouldBlock
}

pub fn invalid_name() -> (error: Error)
    ensures
        error == Error::InvalidName,
{
    Error::InvalidName
}

pub fn initialization_timed_out() -> (error: Error)
    ensures
        error == Error::InitializationTimedOut,
{
    Error::InitializationTimedOut
}

/// The number that a text of decimal digits stands for.
pub open spec fn number(text: Seq<char>) -> nat
    decreases text.len(),
{
    if text.len() == 0 {
        0
    } else {
        10 * number(text.drop_last()) + (text.last() as int - '0' as int) as nat
    }
}

/// A number in decimal is made of digits, has no leading zero, and reads as that number again.
pub proof fn law_decimals_read_back(n: nat)
    ensures
        number(decimal(n)) == n,
        decimal(n).len() > 0,
        decimal(n)[0] == '0' ==> n == 0,
        n == 0 ==> decimal(n).len() == 1,
        forall|i: int| 0 <= i < decimal(n).len() ==> '0' <= #[trigger] decimal(n)[i] <= '9',
    decreases n,
{
    let text = decimal(n);
    if n < 10 {
        assert(text.drop_last() =~= Seq::<char>::empty());
        assert(number(text.drop_last()) == 0);
    } else {
        law_decimals_read_back(n / 10);
        assert(text.drop_last() =~= decimal(n / 10));
        assert(text[0] == decimal(n / 10)[0]);
        assert forall|i: int| 0 <= i < text.len() implies '0' <= #[trigger] text[i] <= '9' by {
            if i < text.len() - 1 {
                assert(text[i] == decimal(n / 10)[i]);
            }
        }
    }
}

/// A failure's category does not depend on the reason that it gives: each failure has the one of
/// its cause, and a failure of the system keeps the system's.
pub proof fn law_kinds_are_those_of_the_cause(reason: &'static str, version: u64, kind: ErrorKind, code: i32)
    ensures
        Error::InvalidInput(reason).spec_kind() == ErrorKind::InvalidInput,
        Error::InvalidLength.spec_kind() == ErrorKind::InvalidInput,
        Error::InvalidName.spec_kind() == ErrorKind::InvalidInput,
        Error::InvalidLayout(reason).spec_kind() == ErrorKind::InvalidData,
        Error::InvalidTransfer(reason).spec_kind() == ErrorKind::InvalidData,
        Error::Protocol(reason).spec_kind() == ErrorKind::InvalidData,
        Error::PlatformInvariant(reason).spec_kind() == ErrorKind::Other,
        Error::UnsupportedVersion(version).spec_kind() == ErrorKind::Other,
        Error::IncompatibleProtocol.spec_kind() == ErrorKind::Other,
        Error::CorruptState.spec_kind() == ErrorKind::Other,
        Error::WouldBlock.spec_kind() == ErrorKind::WouldBlock,
        Error::PeerDisconnected.spec_kind() == ErrorKind::BrokenPipe,
        Error::PortNotFound.spec_kind() == ErrorKind::NotFound,
        Error::ReaderCapacityExhausted.spec_kind() == ErrorKind::ResourceBusy,
        Error::InitializationTimedOut.spec_kind() == ErrorKind::TimedOut,
        (Error::Os { kind, code }).spec_kind() == kind,
        Error::Bare(kind).spec_kind() == kind,
{
}

/// A message gives the whole reason behind the words that say what failed, whatever the reason is,
/// and an unsupported version in decimal.
pub proof fn law_messages_give_the_whole_reason(reason: &'static str, version: u64)
    ensures
        Error::InvalidInput(reason).spec_message() == Some("invalid input: "@ + reason@),
        Error::InvalidLayout(reason).spec_message() == Some(
            "invalid IPC ring layout: "@ + reason@,
        ),
        Error::PlatformInvariant(reason).spec_message() == Some(
            "platform mapping invariant failed: "@ + reason@,
        ),
        Error::Protocol(reason).spec_message() == Some("invalid control protocol: "@ + reason@),
        Error::InvalidTransfer(reason).spec_message() == Some(reason@),
        Error::UnsupportedVersion(version).spec_message() matches Some(text) && {
            let words = "unsupported IPC ring ABI version "@;
            &&& text.take(words.len() as int) == words
            &&& number(text.skip(words.len() as int)) == version
        },
{
    law_decimals_read_back(version as nat);
    let words = "unsupported IPC ring ABI version "@;
    let text = words + decimal(version as nat);
    assert(text.take(words.len() as int) =~= words);
    assert(text.skip(words.len() as int) =~= decimal(version as nat));
}

/// Each failure that gives no reason has words of its own, and so has each bare category.
pub proof fn law_failures_have_their_words(kind: ErrorKind)
    ensures
        Error::ReaderCapacityExhausted.spec_message() == Some(
            "the ring's reader capacity is exhausted"@,
        ),
        Error::PortNotFound.spec_message() == Some("the requested ring port is not registered"@),
        Error::IncompatibleProtocol.spec_message() == Some(
            "server uses an unsupported control protocol version"@,
        ),
        Error::CorruptState.spec_message() == Some("shared ring state is corrupt"@),
        Error::InvalidLength.spec_message() == Some(
            "length exceeds the ring capacity or reservation"@,
        ),
        Error::PeerDisconnected.spec_message() == Some("ring peer disconnected"@),
        Error::WouldBlock.spec_message() == Some("requested reservation is unavailable"@),
        Error::InvalidName.spec_message() == Some("invalid ring name"@),
        Error::InitializationTimedOut.spec_message() == Some("ring initialization timed out"@),
        Error::Bare(kind).spec_message() == Some(kind.spec_message()),
        ErrorKind::NotFound.spec_message() == "entity not found"@,
        ErrorKind::PermissionDenied.spec_message() == "permission denied"@,
        ErrorKind::BrokenPipe.spec_message() == "broken pipe"@,
        ErrorKind::AlreadyExists.spec_message() == "entity already exists"@,
        ErrorKind::WouldBlock.spec_message() == "operation would block"@,
        ErrorKind::InvalidInput.spec_message() == "invalid input parameter"@,
        ErrorKind::InvalidData.spec_message() == "invalid data"@,
        ErrorKind::TimedOut.spec_message() == "timed out"@,
        ErrorKind::WriteZero.spec_message() == "write zero"@,
        ErrorKind::ResourceBusy.spec_message() == "resource busy"@,
        ErrorKind::UnexpectedEof.spec_message() == "unexpected end of file"@,
        ErrorKind::Other.spec_message() == "other error"@,
{
}

} // verus!
