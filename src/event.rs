use vstd::prelude::*;
use vstd::utf8::{decode_utf8, valid_utf8};

verus! {

/// The application-level events that the protocol engine emits.
#[derive(Clone, Copy, Debug, PartialEq, Eq, Structural)]
pub enum AppEvent {
    Down,
    Offer,
    Granted,
    Retracted,
    Extended,
    Expired,
    Cancelled,
    Log,
}

/// The engine's numbering of its events.
pub open spec fn event_of_discriminant(d: int) -> Option<AppEvent> {
    if d == 0 {
        Some(AppEvent::Down)
    } else if d == 1 {
        Some(AppEvent::Offer)
    } else if d == 2 {
        Some(AppEvent::Granted)
    } else if d == 3 {
        Some(AppEvent::Retracted)
    } else if d == 4 {
        Some(AppEvent::Extended)
    } else if d == 5 {
        Some(AppEvent::Expired)
    } else if d == 6 {
        Some(AppEvent::Cancelled)
    } else if d == 7 {
        Some(AppEvent::Log)
    } else {
        None
    }
}

/// The number of discriminants the engine defines.
pub const EVENT_KINDS: u32 = 8;

/// Maps a raw discriminant to its event; `None` outside the engine's range.
pub fn event_from_discriminant(d: u32) -> (r: Option<AppEvent>)
    ensures
        r == event_of_discriminant(d as int),
        r is Some <==> d < EVENT_KINDS,
{
    match d {
        0 => Some(AppEvent::Down),
        1 => Some(AppEvent::Offer),
        2 => Some(AppEvent::Granted),
        3 => Some(AppEvent::Retracted),
        4 => Some(AppEvent::Extended),
        5 => Some(AppEvent::Expired),
        6 => Some(AppEvent::Cancelled),
        7 => Some(AppEvent::Log),
        _ => None,
    }
}

pub open spec fn spec_discriminant(e: AppEvent) -> u32 {
    match e {
        AppEvent::Down => 0,
        AppEvent::Offer => 1,
        AppEvent::Granted => 2,
        AppEvent::Retracted => 3,
        AppEvent::Extended => 4,
        AppEvent::Expired => 5,
        AppEvent::Cancelled => 6,
        AppEvent::Log => 7,
    }
}

impl AppEvent {
    /// The engine's discriminant for this event.
    pub fn discriminant(self) -> (r: u32)
        ensures
            r == spec_discriminant(self),
            r < EVENT_KINDS,
            event_of_discriminant(r as int) == Some(self),
    {
        match self {
            AppEvent::Down => 0,
            AppEvent::Offer => 1,
            AppEvent::Granted => 2,
            AppEvent::Retracted => 3,
            AppEvent::Extended => 4,
            AppEvent::Expired => 5,
            AppEvent::Cancelled => 6,
            AppEvent::Log => 7,
        }
    }

    /// The event's name, as it appears in transition notices.
    pub fn name(self) -> (r: &'static str)
        ensures
            r@ == event_name(self),
    {
        match self {
            AppEvent::Down => "Down",
            AppEvent::Offer => "Offer",
            AppEvent::Granted => "Granted",
            AppEvent::Retracted => "Retracted",
            AppEvent::Extended => "Extended",
            AppEvent::Expired => "Expired",
            AppEvent::Cancelled => "Cancelled",
            AppEvent::Log => "Log",
        }
    }
}

pub open spec fn event_name(e: AppEvent) -> Seq<char> {
    match e {
        AppEvent::Down => "Down"@,
        AppEvent::Offer => "Offer"@,
        AppEvent::Granted => "Granted"@,
        AppEvent::Retracted => "Retracted"@,
        AppEvent::Extended => "Extended"@,
        AppEvent::Expired => "Expired"@,
        AppEvent::Cancelled => "Cancelled"@,
        AppEvent::Log => "Log"@,
    }
}

/// An event as popped from the engine: its discriminant and, for a log
/// event, the bytes of its message (without the terminating NUL).
#[derive(Clone, Debug)]
pub struct RawEvent {
    pub discriminant: u32,
    pub payload: Vec<u8>,
}

/// A classified event: what the dispatch loop hands to its handler.
#[derive(Clone, Debug)]
pub struct Classified {
    pub event: AppEvent,
    pub message: Option<String>,
}

/// The mathematical value of a classified event.
pub struct ClassifiedView {
    pub event: AppEvent,
    pub message: Option<Seq<char>>,
}

impl View for Classified {
    type V = ClassifiedView;

    open spec fn view(&self) -> ClassifiedView {
        ClassifiedView {
            event: self.event,
            message: match self.message {
                Some(s) => Some(s@),
                None => None,
            },
        }
    }
}

/// The message of a log event: its bytes decoded as UTF-8, or absent when
/// they are not valid UTF-8.
pub open spec fn log_message(payload: Seq<u8>) -> Option<Seq<char>> {
    if valid_utf8(payload) {
        Some(decode_utf8(payload))
    } else {
        None
    }
}

/// What a raw event classifies to, or `None` for a discriminant outside
/// the engine's range.
pub open spec fn classification(discriminant: u32, payload: Seq<u8>) -> Option<ClassifiedView> {
    match event_of_discriminant(discriminant as int) {
        Some(e) => Some(
            ClassifiedView {
                event: e,
                message: if e == AppEvent::Log {
                    log_message(payload)
                } else {
                    None
                },
            },
        ),
        None => None,
    }
}

/// Over the engine's range of discriminants classification is total and
/// one to one: each discriminant gives exactly one event, whose own
/// discriminant it is. Only the log event ever carries a message, and only
/// when its payload is valid UTF-8.
pub proof fn lemma_classification_total(d: u32, payload: Seq<u8>)
    ensures
        classification(d, payload) is Some <==> d < EVENT_KINDS,
        classification(d, payload) matches Some(c) ==> {
            &&& spec_discriminant(c.event) == d
            &&& (c.message is Some <==> (c.event == AppEvent::Log && valid_utf8(payload)))
        },
{
}

/// A discriminant that the engine does not define: the engine and this
/// runtime disagree on the event numbering.
#[derive(Clone, Copy, Debug, PartialEq, Eq, Structural)]
pub struct UnknownEvent {
    pub discriminant: u32,
}

/// Relies on `String::from_utf8`: it succeeds exactly when the bytes are
/// valid UTF-8, and the string then holds the characters they encode.
#[verifier::external_body]
fn utf8_string(bytes: Vec<u8>) -> (r: Option<String>)
    ensures
        r is Some <==> valid_utf8(bytes@),
        r matches Some(s) ==> s@ == decode_utf8(bytes@),
{
    String::from_utf8(bytes).ok()
}

/// Classifies a raw engine event. A log payload that is not valid UTF-8
/// gives an absent message, never an error; only an unknown discriminant
/// is an error.
pub fn classify(raw: RawEvent) -> (r: Result<Classified, UnknownEvent>)
    ensures
        match r {
            Ok(c) => classification(raw.discriminant, raw.payload@) == Some(c@),
            Err(u) => classification(raw.discriminant, raw.payload@) is None
                && u.discriminant == raw.discriminant,
        },
        r is Ok <==> raw.discriminant < EVENT_KINDS,
{
    match event_from_discriminant(raw.discriminant) {
        Some(event) => {
            let message = match event {
                AppEvent::Log => utf8_string(raw.payload),
                _ => None,
            };
            Ok(Classified { event, message })
        },
        None => Err(UnknownEvent { discriminant: raw.discriminant }),
    }
}

} // verus!
