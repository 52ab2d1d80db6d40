//! Events pushed into the UI runtime, and their wire form: one tagged JSON
//! object `{"kind": <name>, "value": <payload>}` per event.

use vstd::prelude::*;
use vstd::string::*;
use crate::json::{append_json_string, append_u32_dec, spec_dec, spec_json_string};
use crate::music_player::{MusicPlayerState, MusicPlayerStateView, spec_music_state_json};

verus! {

/// Payload of an error event.
pub struct ErrorData {
    pub message: String,
    pub code: u32,
}

/// Mathematical value of an [`ErrorData`].
pub struct ErrorDataView {
    pub message: Seq<char>,
    pub code: u32,
}

impl View for ErrorData {
    type V = ErrorDataView;

    open spec fn view(&self) -> ErrorDataView {
        ErrorDataView { message: self.message@, code: self.code }
    }
}

/// An event for the UI, tagged by kind.
#[allow(non_camel_case_types)]
pub enum Event {
    /// The music player snapshot changed.
    MusicUpdate(MusicPlayerState),
    /// Something failed and the UI should hear about it.
    ERROR(ErrorData),
}

/// Mathematical value of an [`Event`].
#[allow(non_camel_case_types)]
pub enum EventView {
    MusicUpdate(MusicPlayerStateView),
    ERROR(ErrorDataView),
}

impl View for Event {
    type V = EventView;

    open spec fn view(&self) -> EventView {
        match self {
            Event::MusicUpdate(s) => EventView::MusicUpdate(s@),
            Event::ERROR(d) => EventView::ERROR(d@),
        }
    }
}

/// The error payload's wire form.
pub open spec fn spec_error_json(d: ErrorDataView) -> Seq<char> {
    "{\"message\":"@ + spec_json_string(d.message) + ",\"code\":"@ + spec_dec(d.code as int)
        + "}"@
}

/// The event's wire form: kind tag, then the payload under `value`.
pub open spec fn spec_event_json(e: EventView) -> Seq<char> {
    match e {
        EventView::MusicUpdate(s) => "{\"kind\":\"MusicUpdate\",\"value\":"@
            + spec_music_state_json(s) + "}"@,
        EventView::ERROR(d) => "{\"kind\":\"ERROR\",\"value\":"@ + spec_error_json(d) + "}"@,
    }
}

/// Serialize an event for the wire.
pub fn event_json(e: &Event) -> (out: String)
    ensures
        out@ == spec_event_json(e@),
{
    match e {
        Event::MusicUpdate(s) => {
            let mut out = String::from_str("{\"kind\":\"MusicUpdate\",\"value\":");
            let body = s.to_json();
            out.append(body.as_str());
            out.append("}");
            proof {
                assert(out@ =~= spec_event_json(e@));
            }
            out
        },
        Event::ERROR(d) => {
            let mut out = String::from_str("{\"kind\":\"ERROR\",\"value\":");
            out.append("{\"message\":");
            append_json_string(&mut out, d.message.as_str());
            out.append(",\"code\":");
            append_u32_dec(&mut out, d.code);
            out.append("}");
            out.append("}");
            proof {
                assert(out@ =~= spec_event_json(e@));
            }
            out
        },
    }
}

/// Anything that can push an event toward the UI.  The bridge implements
/// it by routing the event through the registry and the command channel.
pub trait EventRaiser {
    fn raise_event(&mut self, event: &Event);
}

} // verus!
