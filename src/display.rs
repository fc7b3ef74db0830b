use vstd::prelude::*;

use crate::display_info::{DisplayInfo, DisplayRef};
use crate::err::DdcError;

verus! {

/// How to find a display.
#[derive(Debug)]
pub enum DisplayIdentifier {
    DisplayNumber(i32),
    I2cBus(i32),
    /// At least one of manufacturer, model, serial must be present.
    SerialNumber { manufacturer: Option<String>, model: Option<String>, serial: Option<String> },
    UsbDevice { bus: i32, device: i32 },
    UsbHid(i32),
}

impl DisplayIdentifier {
    pub open spec fn spec_is_valid(&self) -> bool {
        match self {
            DisplayIdentifier::SerialNumber { manufacturer, model, serial } => manufacturer.is_some()
                || model.is_some() || serial.is_some(),
            _ => true,
        }
    }

    /// Whether the identifier names something to look for: a serial-number
    /// identifier needs at least one of its fields.
    #[verifier::when_used_as_spec(spec_is_valid)]
    pub fn is_valid(&self) -> (r: bool)
        ensures
            r == self.spec_is_valid(),
    {
        match self {
            DisplayIdentifier::SerialNumber { manufacturer, model, serial } => manufacturer.is_some()
                || model.is_some() || serial.is_some(),
            _ => true,
        }
    }
}

/// Where a display stands between its identifier and a closed connection.
/// `did` is a native identifier and `dh` a native display handle, each to be
/// released exactly once.
#[derive(Debug)]
pub enum Stage {
    /// Only a description of the display exists; a native identifier is
    /// being created.
    Identified,
    /// A native identifier exists and is being resolved.
    IdentifierCreated { did: usize },
    /// The identifier was resolved, or failed to be; it is being released.
    ReleasingIdentifier { did: usize, resolved: Result<DisplayRef, DdcError> },
    /// A connection to the referenced display is being opened.
    Opening { dref: DisplayRef },
    /// The connection is open.
    Open { dref: DisplayRef, dh: usize },
    /// The connection is being closed.
    Closing { dref: DisplayRef, dh: usize },
    /// No connection is open; the reference can be opened again.
    Closed { dref: DisplayRef },
    /// The display could not be found; nothing is held.
    Failed,
}

/// What the caller is to do next.
#[derive(Debug)]
pub enum Action {
    /// Create a native identifier from this description.
    CreateIdentifier(DisplayIdentifier),
    /// Resolve the identifier to a display reference.
    ResolveIdentifier { did: usize },
    /// Free the identifier; the outcome of the free is not reported back.
    FreeIdentifier { did: usize },
    /// Open a connection, optionally asking that the display not be asleep.
    OpenDisplay { dref: DisplayRef, wait: bool },
    /// Close the connection; the outcome of the close is not reported back.
    CloseDisplay { dh: usize },
    /// Hand this error to the caller of the operation.
    Report(DdcError),
    /// The operation is done.
    Ready,
    /// The event does not belong to the current stage; nothing changed.
    Ignore,
}

/// What happened on the caller's side.
#[derive(Debug)]
pub enum Event {
    IdentifierCreated(Result<usize, DdcError>),
    IdentifierResolved(Result<DisplayRef, DdcError>),
    IdentifierFreed,
    Opened(Result<usize, DdcError>),
    OpenRequested { wait: bool },
    CloseRequested,
    Closed,
}

/// The transition of a display's lifecycle: the next stage and the action
/// for the caller. An event that does not belong to the stage changes
/// nothing.
pub open spec fn transition(s: Stage, e: Event) -> (Stage, Action) {
    match (s, e) {
        (Stage::Identified, Event::IdentifierCreated(Ok(did))) => (
            Stage::IdentifierCreated { did },
            Action::ResolveIdentifier { did },
        ),
        (Stage::Identified, Event::IdentifierCreated(Err(err))) => (Stage::Failed, Action::Report(err)),
        (Stage::IdentifierCreated { did }, Event::IdentifierResolved(resolved)) => (
            Stage::ReleasingIdentifier { did, resolved },
            Action::FreeIdentifier { did },
        ),
        (Stage::ReleasingIdentifier { did, resolved: Ok(dref) }, Event::IdentifierFreed) => (
            Stage::Opening { dref },
            Action::OpenDisplay { dref, wait: false },
        ),
        (Stage::ReleasingIdentifier { did, resolved: Err(err) }, Event::IdentifierFreed) => (
            Stage::Failed,
            Action::Report(err),
        ),
        (Stage::Opening { dref }, Event::Opened(Ok(dh))) => (Stage::Open { dref, dh }, Action::Ready),
        (Stage::Opening { dref }, Event::Opened(Err(err))) => (Stage::Closed { dref }, Action::Report(err)),
        (Stage::Open { dref, dh }, Event::CloseRequested) => (
            Stage::Closing { dref, dh },
            Action::CloseDisplay { dh },
        ),
        (Stage::Closing { dref, dh }, Event::Closed) => (Stage::Closed { dref }, Action::Ready),
        (Stage::Closed { dref }, Event::OpenRequested { wait }) => (
            Stage::Opening { dref },
            Action::OpenDisplay { dref, wait },
        ),
        (s, _) => (s, Action::Ignore),
    }
}

/// The native identifier that a stage holds.
pub open spec fn identifier_held(s: Stage) -> Option<usize> {
    match s {
        Stage::IdentifierCreated { did } => Some(did),
        Stage::ReleasingIdentifier { did, .. } => Some(did),
        _ => None,
    }
}

/// The native display handle that a stage holds.
pub open spec fn handle_held(s: Stage) -> Option<usize> {
    match s {
        Stage::Open { dh, .. } => Some(dh),
        Stage::Closing { dh, .. } => Some(dh),
        _ => None,
    }
}

/// The display reference that a stage holds.
pub open spec fn reference_held(s: Stage) -> Option<DisplayRef> {
    match s {
        Stage::Opening { dref } => Some(dref),
        Stage::Open { dref, .. } => Some(dref),
        Stage::Closing { dref, .. } => Some(dref),
        Stage::Closed { dref } => Some(dref),
        _ => None,
    }
}

/// One display, from its identifier or reference to an open connection and
/// back. The caller performs the actions and reports what came of them.
#[derive(Debug)]
pub struct Display {
    stage: Stage,
}

impl Display {
    pub closed spec fn spec_stage(&self) -> Stage {
        self.stage
    }

    /// Starts from a description of the display: the first action creates
    /// the native identifier. A serial-number identifier must name at least
    /// one of its fields.
    pub fn from_identifier(id: DisplayIdentifier) -> (r: (Display, Action))
        requires
            id.spec_is_valid(),
        ensures
            r.0.spec_stage() == Stage::Identified,
            r.1 == Action::CreateIdentifier(id),
    {
        (Display { stage: Stage::Identified }, Action::CreateIdentifier(id))
    }

    /// Starts from a display reference: the first action opens it.
    pub fn from_ref(dref: DisplayRef) -> (r: (Display, Action))
        ensures
            r.0.spec_stage() == (Stage::Opening { dref }),
            r.1 == (Action::OpenDisplay { dref, wait: false }),
    {
        (Display { stage: Stage::Opening { dref } }, Action::OpenDisplay { dref, wait: false })
    }

    /// Starts from a display found by enumeration: the first action opens
    /// its reference.
    pub fn from_display_info(info: &DisplayInfo) -> (r: (Display, Action))
        ensures
            r.0.spec_stage() == (Stage::Opening { dref: info.spec_dref() }),
            r.1 == (Action::OpenDisplay { dref: info.spec_dref(), wait: false }),
    {
        Display::from_ref(info.dref())
    }

    /// Takes in what came of the last action and gives the next one.
    pub fn step(self, event: Event) -> (r: (Display, Action))
        ensures
            (r.0.spec_stage(), r.1) == transition(self.spec_stage(), event),
    {
        let (stage, action) = match self.stage {
            Stage::Identified => match event {
                Event::IdentifierCreated(Ok(did)) => (
                    Stage::IdentifierCreated { did },
                    Action::ResolveIdentifier { did },
                ),
                Event::IdentifierCreated(Err(err)) => (Stage::Failed, Action::Report(err)),
                _ => (Stage::Identified, Action::Ignore),
            },
            Stage::IdentifierCreated { did } => match event {
                Event::IdentifierResolved(resolved) => (
                    Stage::ReleasingIdentifier { did, resolved },
                    Action::FreeIdentifier { did },
                ),
                _ => (Stage::IdentifierCreated { did }, Action::Ignore),
            },
            Stage::ReleasingIdentifier { did, resolved } => match event {
                Event::IdentifierFreed => match resolved {
                    Ok(dref) => (Stage::Opening { dref }, Action::OpenDisplay { dref, wait: false }),
                    Err(err) => (Stage::Failed, Action::Report(err)),
                },
                _ => (Stage::ReleasingIdentifier { did, resolved }, Action::Ignore),
            },
            Stage::Opening { dref } => match event {
                Event::Opened(Ok(dh)) => (Stage::Open { dref, dh }, Action::Ready),
                Event::Opened(Err(err)) => (Stage::Closed { dref }, Action::Report(err)),
                _ => (Stage::Opening { dref }, Action::Ignore),
            },
            Stage::Open { dref, dh } => match event {
                Event::CloseRequested => (Stage::Closing { dref, dh }, Action::CloseDisplay { dh }),
                _ => (Stage::Open { dref, dh }, Action::Ignore),
            },
            Stage::Closing { dref, dh } => match event {
                Event::Closed => (Stage::Closed { dref }, Action::Ready),
                _ => (Stage::Closing { dref, dh }, Action::Ignore),
            },
            Stage::Closed { dref } => match event {
                Event::OpenRequested { wait } => (
                    Stage::Opening { dref },
                    Action::OpenDisplay { dref, wait },
                ),
                _ => (Stage::Closed { dref }, Action::Ignore),
            },
            Stage::Failed => (Stage::Failed, Action::Ignore),
        };
        (Display { stage }, action)
    }

    /// The open connection's native handle, if the connection is open.
    pub fn handle(&self) -> (r: Option<usize>)
        ensures
            r == match self.spec_stage() {
                Stage::Open { dh, .. } => Some(dh),
                _ => None,
            },
    {
        match &self.stage {
            Stage::Open { dh, .. } => Some(*dh),
            _ => None,
        }
    }

    /// The reference of the display, once it has been resolved.
    pub fn get_display_ref(&self) -> (r: Option<DisplayRef>)
        ensures
            r == reference_held(self.spec_stage()),
    {
        match &self.stage {
            Stage::Opening { dref } => Some(*dref),
            Stage::Open { dref, .. } => Some(*dref),
            Stage::Closing { dref, .. } => Some(*dref),
            Stage::Closed { dref } => Some(*dref),
            _ => None,
        }
    }

    /// The current stage.
    pub fn stage(&self) -> (r: &Stage)
        ensures
            *r == self.spec_stage(),
    {
        &self.stage
    }

    /// Whether the connection is open.
    pub fn is_open(&self) -> (r: bool)
        ensures
            r == (self.spec_stage() is Open),
    {
        match &self.stage {
            Stage::Open { .. } => true,
            _ => false,
        }
    }
}

/// Resolving an identifier ends in exactly one of two ways, and frees the
/// identifier either way: with one display reference, which is then
/// opened, or with the error, which is reported. Nothing else comes of it.
pub proof fn lemma_resolution_outcome(did: usize, resolved: Result<DisplayRef, DdcError>)
    ensures
        ({
            let (s1, a1) = transition(Stage::IdentifierCreated { did }, Event::IdentifierResolved(resolved));
            let (s2, a2) = transition(s1, Event::IdentifierFreed);
            &&& a1 == Action::FreeIdentifier { did }
            &&& identifier_held(s2).is_none()
            &&& match resolved {
                Ok(dref) => s2 == (Stage::Opening { dref }) && a2 == (Action::OpenDisplay { dref, wait: false }),
                Err(err) => s2 == Stage::Failed && a2 == Action::Report(err),
            }
        }),
{
}

/// A native identifier is freed exactly once: the free is asked for only
/// of an identifier that the stage holds, no event asks for it again before
/// the free is reported, and the identifier is let go only when it is.
pub proof fn lemma_identifier_freed_once(s: Stage, e: Event, e2: Event)
    ensures
        ({
            let (s1, a1) = transition(s, e);
            &&& a1 is FreeIdentifier ==> identifier_held(s1) == Some(a1->FreeIdentifier_did) && identifier_held(s) == Some(a1->FreeIdentifier_did)
            &&& a1 is FreeIdentifier ==> !(transition(s1, e2).1 is FreeIdentifier)
            &&& identifier_held(s) is Some && identifier_held(s1) is None ==> (s is ReleasingIdentifier && e is IdentifierFreed)
        }),
{
}

/// A display handle is closed exactly once: the close is asked for only of
/// the handle that the stage holds, no event asks for it again before the
/// close is reported, and the handle is let go only then.
pub proof fn lemma_handle_closed_once(s: Stage, e: Event, e2: Event)
    ensures
        ({
            let (s1, a1) = transition(s, e);
            &&& a1 is CloseDisplay ==> handle_held(s1) == Some(a1->CloseDisplay_dh) && handle_held(s) == Some(a1->CloseDisplay_dh)
            &&& a1 is CloseDisplay ==> !(transition(s1, e2).1 is CloseDisplay)
            &&& handle_held(s) is Some && handle_held(s1) is None ==> (s is Closing && e is Closed)
        }),
{
}

/// Control goes back to the caller only when no native identifier is held,
/// and an error is reported only when no display handle is held either.
pub proof fn lemma_caller_holds_no_identifier(s: Stage, e: Event)
    ensures
        ({
            let (s1, a1) = transition(s, e);
            &&& (a1 is Ready || a1 is Report) ==> identifier_held(s1).is_none()
            &&& a1 is Report ==> handle_held(s1).is_none()
        }),
{
}

/// Closing an open display leaves its reference usable: it can be opened
/// again, and that open, where the display is still present, gives an open
/// connection to the same reference.
pub proof fn lemma_reopen_after_close(dref: DisplayRef, dh: usize, wait: bool, dh2: usize)
    ensures
        ({
            let (s1, a1) = transition(Stage::Open { dref, dh }, Event::CloseRequested);
            let (s2, a2) = transition(s1, Event::Closed);
            let (s3, a3) = transition(s2, Event::OpenRequested { wait });
            let (s4, a4) = transition(s3, Event::Opened(Ok(dh2)));
            &&& a1 == Action::CloseDisplay { dh }
            &&& s2 == (Stage::Closed { dref }) && a2 == Action::Ready
            &&& a3 == (Action::OpenDisplay { dref, wait })
            &&& s4 == (Stage::Open { dref, dh: dh2 }) && a4 == Action::Ready
        }),
{
}

} // verus!
