use vstd::prelude::*;
use vstd::string::StrSliceExecFns;
use vstd::utf8::{encode_scalar, encode_utf8};

use crate::state::{state_text, StateCell};
use crate::text::{decode_text, parse_word, text_of, trim_text, trimmed_of, word_of};

verus! {

/// An inbound event of the peripheral, as far as the toggle needs it.
///
/// The request handles and the request details used only for logging stay
/// with the caller.
#[derive(Debug, Clone, PartialEq, Eq)]
pub enum Event {
    /// The radio was powered on or off.
    PowerChanged { is_powered: bool },
    /// A remote party subscribed to notifications, or stopped.
    SubscriptionChanged { subscribed: bool },
    /// A remote party reads the toggle.
    ReadRequested { offset: u64 },
    /// A remote party writes the given bytes to the toggle.
    WriteRequested { offset: u64, payload: Vec<u8> },
    /// Any other event.
    Other,
}

/// The mathematical form of an [`Event`].
pub ghost enum EventView {
    PowerChanged(bool),
    SubscriptionChanged(bool),
    ReadRequested(u64),
    WriteRequested(u64, Seq<u8>),
    Other,
}

impl View for Event {
    type V = EventView;

    open spec fn view(&self) -> EventView {
        match self {
            Event::PowerChanged { is_powered } => EventView::PowerChanged(*is_powered),
            Event::SubscriptionChanged { subscribed } => EventView::SubscriptionChanged(
                *subscribed,
            ),
            Event::ReadRequested { offset } => EventView::ReadRequested(*offset),
            Event::WriteRequested { offset, payload } => EventView::WriteRequested(
                *offset,
                payload@,
            ),
            Event::Other => EventView::Other,
        }
    }
}

/// The one response owed to a request; both kinds report success.
#[derive(Debug, Clone, PartialEq, Eq)]
pub enum Response {
    /// The answer to a read, carrying the toggle's textual value.
    Read { value: Vec<u8> },
    /// The acknowledgement of a write.
    Write,
}

/// The mathematical form of a [`Response`].
pub ghost enum ResponseView {
    Read(Seq<u8>),
    Write,
}

impl View for Response {
    type V = ResponseView;

    open spec fn view(&self) -> ResponseView {
        match self {
            Response::Read { value } => ResponseView::Read(value@),
            Response::Write => ResponseView::Write,
        }
    }
}

/// What is worth reporting about the handling of one event.
#[derive(Clone, Copy, Debug, PartialEq, Eq)]
pub enum Note {
    /// The radio's power changed to the given value.
    PowerChanged(bool),
    /// A subscription was switched on (`true`) or off.
    SubscriptionChanged(bool),
    /// A read was answered with the given state.
    ReadAnswered(bool),
    /// A write set the state to the given value.
    StateChanged(bool),
    /// A write carried text that names no state; nothing changed.
    Unrecognized,
    /// A write carried bytes that are not UTF-8 text; nothing changed.
    NotText,
    /// The event is of a kind that needs no reaction.
    Unhandled,
}

/// The reaction to one event: the response owed to the request, if it is
/// one, the value to push to subscribers, if any, and what to report.
#[derive(Debug, Clone, PartialEq, Eq)]
pub struct Reaction {
    pub response: Option<Response>,
    pub notify: Option<Vec<u8>>,
    pub note: Note,
}

/// The mathematical form of a [`Reaction`].
pub ghost struct ReactionView {
    pub response: Option<ResponseView>,
    pub notify: Option<Seq<u8>>,
    pub note: Note,
}

impl View for Reaction {
    type V = ReactionView;

    open spec fn view(&self) -> ReactionView {
        ReactionView {
            response: match self.response {
                Some(r) => Some(r@),
                None => None,
            },
            notify: match self.notify {
                Some(b) => Some(b@),
                None => None,
            },
            note: self.note,
        }
    }
}

/// The bytes that carry the textual form of a state.
pub open spec fn state_bytes(on: bool) -> Seq<u8> {
    encode_utf8(state_text(on))
}

/// The state that a write payload sets, if any: its text, trimmed, must be
/// exactly `on` or `off`.
pub open spec fn write_target(payload: Seq<u8>) -> Option<bool> {
    match text_of(payload) {
        Some(t) => word_of(trimmed_of(t)),
        None => None,
    }
}

/// The reaction to a write of the given payload in the given state.
pub open spec fn write_reaction(on: bool, payload: Seq<u8>) -> (bool, ReactionView) {
    match text_of(payload) {
        None => (on, ReactionView { response: Some(ResponseView::Write), notify: None, note: Note::NotText }),
        Some(t) => match word_of(trimmed_of(t)) {
            Some(v) => (v, ReactionView {
                response: Some(ResponseView::Write),
                notify: Some(state_bytes(v)),
                note: Note::StateChanged(v),
            }),
            None => (on, ReactionView {
                response: Some(ResponseView::Write),
                notify: Some(payload),
                note: Note::Unrecognized,
            }),
        },
    }
}

/// The next state and the reaction when the given event meets the given
/// state.
pub open spec fn react(on: bool, e: EventView) -> (bool, ReactionView) {
    match e {
        EventView::PowerChanged(p) => (on, ReactionView { response: None, notify: None, note: Note::PowerChanged(p) }),
        EventView::SubscriptionChanged(s) => (on, ReactionView { response: None, notify: None, note: Note::SubscriptionChanged(s) }),
        EventView::ReadRequested(_) => (on, ReactionView {
            response: Some(ResponseView::Read(state_bytes(on))),
            notify: None,
            note: Note::ReadAnswered(on),
        }),
        EventView::WriteRequested(_, b) => write_reaction(on, b),
        EventView::Other => (on, ReactionView { response: None, notify: None, note: Note::Unhandled }),
    }
}

/// The state after the given events, handled in order from the given state.
pub open spec fn state_after(on: bool, events: Seq<EventView>) -> bool
    decreases events.len(),
{
    if events.len() == 0 {
        on
    } else {
        react(state_after(on, events.drop_last()), events.last()).0
    }
}

/// The bytes of the textual form of the state.
fn state_payload(cell: &StateCell) -> (r: Vec<u8>)
    ensures
        r@ == state_bytes(cell@),
{
    cell.text().as_bytes_vec()
}

/// Handles a write of the given payload: a payload whose text, trimmed, is
/// exactly `on` or `off` sets the state and is pushed to subscribers as
/// that word; other text is pushed as it came and changes nothing; bytes
/// that are not text change nothing. The write is acknowledged in every
/// case.
fn handle_write(cell: &mut StateCell, payload: &Vec<u8>) -> (r: Reaction)
    ensures
        (final(cell)@, r@) == write_reaction(old(cell)@, payload@),
{
    match decode_text(payload) {
        None => Reaction { response: Some(Response::Write), notify: None, note: Note::NotText },
        Some(msg) => {
            let word = trim_text(msg.as_str());
            match parse_word(word) {
                Some(v) => {
                    cell.write(v);
                    let bytes = state_payload(cell);
                    Reaction {
                        response: Some(Response::Write),
                        notify: Some(bytes),
                        note: Note::StateChanged(v),
                    }
                },
                None => {
                    let bytes = payload.clone();
                    assert(bytes@ =~= payload@);
                    Reaction {
                        response: Some(Response::Write),
                        notify: Some(bytes),
                        note: Note::Unrecognized,
                    }
                },
            }
        },
    }
}

/// Handles one inbound event against the state cell.
///
/// A read is answered with `on` or `off` as the state stands; a write is
/// handled as [`handle_write`] says; power and subscription changes and
/// other events are only reported. Each read and each write gets exactly
/// one response, and nothing else gets one.
pub fn handle_event(cell: &mut StateCell, event: &Event) -> (r: Reaction)
    ensures
        (final(cell)@, r@) == react(old(cell)@, event@),
{
    match event {
        Event::PowerChanged { is_powered } => Reaction {
            response: None,
            notify: None,
            note: Note::PowerChanged(*is_powered),
        },
        Event::SubscriptionChanged { subscribed } => Reaction {
            response: None,
            notify: None,
            note: Note::SubscriptionChanged(*subscribed),
        },
        Event::ReadRequested { offset: _ } => {
            let on = cell.read();
            let value = state_payload(cell);
            Reaction {
                response: Some(Response::Read { value }),
                notify: None,
                note: Note::ReadAnswered(on),
            }
        },
        Event::WriteRequested { offset: _, payload } => handle_write(cell, payload),
        Event::Other => Reaction { response: None, notify: None, note: Note::Unhandled },
    }
}

/// After a run of writes whose payloads each name a state (their text,
/// trimmed, is exactly `on` or `off`), the state is the one that the last
/// write names, whatever it was before.
pub proof fn lemma_last_write_wins(on: bool, events: Seq<EventView>)
    requires
        events.len() > 0,
        forall|i: int|
            0 <= i < events.len() ==> (#[trigger] events[i] matches EventView::WriteRequested(
                _,
                b,
            ) && write_target(b).is_some()),
    ensures
        events.last() matches EventView::WriteRequested(_, b) && write_target(b) == Some(
            state_after(on, events),
        ),
{
    let last = events.last();
    assert(events[events.len() - 1] == last);
}

/// A character below 0x80 is encoded as the one byte of its value.
proof fn lemma_ascii_scalar(c: u32)
    requires
        c <= 0x7f,
    ensures
        encode_scalar(c) == seq![c as u8],
{
    assert((c & 0x7f) as u8 == c as u8) by (bit_vector)
        requires
            c <= 0x7f,
    ;
}

/// A read gets exactly one response, a success that carries `on` when the
/// state is on and `off` when it is off, and leaves the state as it was.
pub proof fn lemma_read_reports_state(on: bool, offset: u64)
    ensures
        react(on, EventView::ReadRequested(offset)).0 == on,
        react(on, EventView::ReadRequested(offset)).1.response == Some(
            ResponseView::Read(state_bytes(on)),
        ),
        state_bytes(true) == seq![0x6fu8, 0x6eu8],
        state_bytes(false) == seq![0x6fu8, 0x66u8, 0x66u8],
{
    let on_text = seq!['o', 'n'];
    let off_text = seq!['o', 'f', 'f'];
    assert(on_text.drop_first() =~= seq!['n']);
    assert(seq!['n'].drop_first() =~= Seq::<char>::empty());
    assert(off_text.drop_first() =~= seq!['f', 'f']);
    assert(seq!['f', 'f'].drop_first() =~= seq!['f']);
    assert(seq!['f'].drop_first() =~= Seq::<char>::empty());
    lemma_ascii_scalar('o' as u32);
    lemma_ascii_scalar('n' as u32);
    lemma_ascii_scalar('f' as u32);
    reveal_with_fuel(encode_utf8, 4);
    assert(encode_utf8(seq!['n']) =~= seq![0x6eu8]);
    assert(encode_utf8(on_text) =~= seq![0x6fu8, 0x6eu8]);
    assert(encode_utf8(seq!['f']) =~= seq![0x66u8]);
    assert(encode_utf8(seq!['f', 'f']) =~= seq![0x66u8, 0x66u8]);
    assert(encode_utf8(off_text) =~= seq![0x6fu8, 0x66u8, 0x66u8]);
}

/// Every write gets exactly one response, a success, whatever its payload.
pub proof fn lemma_write_acknowledged(on: bool, offset: u64, payload: Seq<u8>)
    ensures
        react(on, EventView::WriteRequested(offset, payload)).1.response == Some(
            ResponseView::Write,
        ),
{
}

/// A write whose payload is not UTF-8 text leaves the state as it was, is
/// reported as such, pushes nothing, and is still acknowledged.
pub proof fn lemma_non_text_write(on: bool, offset: u64, payload: Seq<u8>)
    requires
        text_of(payload) is None,
    ensures
        react(on, EventView::WriteRequested(offset, payload)) == (on, ReactionView {
            response: Some(ResponseView::Write),
            notify: None,
            note: Note::NotText,
        }),
{
}

/// Only requests get a response: power changes, subscription changes and
/// other events get none.
pub proof fn lemma_only_requests_answered(on: bool, e: EventView)
    ensures
        react(on, e).1.response is Some <==> (e is ReadRequested || e is WriteRequested),
{
}

/// The state changes only through a write whose payload names a state.
pub proof fn lemma_state_changes_only_by_write(on: bool, e: EventView)
    ensures
        react(on, e).0 == match e {
            EventView::WriteRequested(_, b) => match write_target(b) {
                Some(v) => v,
                None => on,
            },
            _ => on,
        },
{
}

} // verus!
