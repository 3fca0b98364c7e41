//! The startup sequence of the driver, as a state machine.
//!
//! The work each stage performs — enumerating serial endpoints, opening the
//! selected one, sleeping out the device's boot latency, and sending the
//! handshake — is the application's, since it is all I/O; the stages and
//! every transition between them are defined and verified here. Any failure
//! while discovering, opening or handshaking lands in the terminal
//! `InitFailed` state, from which no operation is possible.

use vstd::prelude::*;

use crate::port::Command;
use crate::port::error::PortError;

verus! {

/// The stages of the startup sequence, in the order they are passed through.
#[derive(Clone, Copy, Debug, PartialEq, Eq, Structural)]
pub enum InitState {
    /// Nothing has happened yet.
    Uninitialized,
    /// Enumerating the available serial endpoints.
    Discovering,
    /// Opening the selected endpoint at the fixed baud rate.
    Opening,
    /// Waiting out the device's firmware boot latency.
    Booting,
    /// Sending the `Ready` handshake and awaiting its response.
    Handshaking,
    /// The handle is ready and accepts operations until process exit.
    Ready,
    /// Startup failed; no operations are possible and the caller must abort.
    InitFailed,
}

/// The events that drive the startup sequence from stage to stage.
#[derive(Clone, Copy, Debug, PartialEq, Eq, Structural)]
pub enum InitEvent {
    /// Startup began.
    Started,
    /// Enumeration found at least one endpoint; the first one is selected.
    EndpointFound,
    /// Enumeration found no endpoint, or enumeration itself failed.
    NoEndpoint,
    /// The selected endpoint was opened.
    Opened,
    /// The selected endpoint could not be opened.
    OpenFailed,
    /// The fixed boot delay elapsed.
    BootDelayElapsed,
    /// The handshake came back successful.
    HandshakeSucceeded,
    /// The handshake failed: an I/O fault or a device-reported failure.
    HandshakeFailed,
}

/// Whether an event is one that can arise at the given stage. The two
/// terminal states, `Ready` and `InitFailed`, accept no event.
pub open spec fn event_fits(state: InitState, event: InitEvent) -> bool {
    match state {
        InitState::Uninitialized => event is Started,
        InitState::Discovering => event is EndpointFound || event is NoEndpoint,
        InitState::Opening => event is Opened || event is OpenFailed,
        InitState::Booting => event is BootDelayElapsed,
        InitState::Handshaking => event is HandshakeSucceeded || event is HandshakeFailed,
        InitState::Ready => false,
        InitState::InitFailed => false,
    }
}

/// The transition each stage takes on each of its events: success moves to
/// the next stage in order, and any failure while discovering, opening or
/// handshaking moves to the terminal `InitFailed`.
pub open spec fn init_step_spec(state: InitState, event: InitEvent) -> InitState
    recommends
        event_fits(state, event),
{
    match (state, event) {
        (InitState::Uninitialized, InitEvent::Started) => InitState::Discovering,
        (InitState::Discovering, InitEvent::EndpointFound) => InitState::Opening,
        (InitState::Discovering, InitEvent::NoEndpoint) => InitState::InitFailed,
        (InitState::Opening, InitEvent::Opened) => InitState::Booting,
        (InitState::Opening, InitEvent::OpenFailed) => InitState::InitFailed,
        (InitState::Booting, InitEvent::BootDelayElapsed) => InitState::Handshaking,
        (InitState::Handshaking, InitEvent::HandshakeSucceeded) => InitState::Ready,
        (InitState::Handshaking, InitEvent::HandshakeFailed) => InitState::InitFailed,
        _ => InitState::InitFailed,
    }
}

/// Executable form of [`init_step_spec`]; the application's startup code
/// performs each stage's work and hands the resulting event back.
pub fn init_step(state: InitState, event: InitEvent) -> (next: InitState)
    requires
        event_fits(state, event),
    ensures
        next == init_step_spec(state, event),
{
    match (state, event) {
        (InitState::Uninitialized, InitEvent::Started) => InitState::Discovering,
        (InitState::Discovering, InitEvent::EndpointFound) => InitState::Opening,
        (InitState::Discovering, InitEvent::NoEndpoint) => InitState::InitFailed,
        (InitState::Opening, InitEvent::Opened) => InitState::Booting,
        (InitState::Opening, InitEvent::OpenFailed) => InitState::InitFailed,
        (InitState::Booting, InitEvent::BootDelayElapsed) => InitState::Handshaking,
        (InitState::Handshaking, InitEvent::HandshakeSucceeded) => InitState::Ready,
        (InitState::Handshaking, InitEvent::HandshakeFailed) => InitState::InitFailed,
        _ => InitState::InitFailed,
    }
}

/// Whether a state is terminal: either the handle is ready, or startup
/// failed for good.
pub open spec fn is_terminal_state(state: InitState) -> bool {
    state is Ready || state is InitFailed
}

/// The terminal error that startup reports when no serial endpoint can be
/// found or the selected one cannot be opened, tagged with the handshake
/// command that startup was about to send.
pub fn transport_open_error() -> (e: PortError)
    ensures
        e == (PortError::SerialPort { command: Command::Ready }),
{
    PortError::SerialPort { command: Command::Ready }
}

/// Every failure event lands in `InitFailed`, and only the handshake's
/// success reaches `Ready`: the startup sequence never reports a ready
/// handle after any stage failed.
pub proof fn lemma_failure_is_terminal(state: InitState, event: InitEvent)
    requires
        event_fits(state, event),
    ensures
        (event is NoEndpoint || event is OpenFailed || event is HandshakeFailed)
            ==> init_step_spec(state, event) == InitState::InitFailed,
        init_step_spec(state, event) == InitState::Ready ==> (state == InitState::Handshaking
            && event == InitEvent::HandshakeSucceeded),
{
}

} // verus!
