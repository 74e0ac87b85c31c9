//! The room session: what the events of a room do to the local state, and how
//! the connection to the room is opened, lost and opened again.

use vstd::prelude::*;
use crate::backoff::{bumped, delay_spec, Backoff};
use crate::drawing::{lengths_agree, Color, Drawing, DrawingView};
use crate::share::{ShareLoop, ShareView};

verus! {

/// What an event carries.
pub enum Payload {
    /// A finished stroke of another participant.
    Drawing(Drawing),
    /// The number of participants in the room.
    UsersInTheRoom(u32),
    UserJoinedTheRoom,
    UserLeftTheRoom,
    /// A payload that this version does not know.
    Unrecognized,
}

/// Whether four sequences make a drawing: they have one length, of three
/// points at least.
pub open spec fn makes_drawing(xs: Seq<i32>, ys: Seq<i32>, pressures: Seq<i32>, widths: Seq<u32>) -> bool {
    lengths_agree(xs.len(), ys.len(), pressures.len(), widths.len()) && xs.len() >= 3
}

impl Payload {
    /// The payload of a stroke as it arrives. Sequences that make no
    /// drawing break the rules of the room: their payload is passed over as
    /// one that this version does not know.
    pub fn from_parts(
        xs: Vec<i32>,
        ys: Vec<i32>,
        pressures: Vec<i32>,
        widths: Vec<u32>,
        color: Color,
    ) -> (r: Payload)
        ensures
            makes_drawing(xs@, ys@, pressures@, widths@) ==> (r matches Payload::Drawing(d) && d@
                == (DrawingView { xs: xs@, ys: ys@, pressures: pressures@, widths: widths@, color })
                && d@.wf()),
            !makes_drawing(xs@, ys@, pressures@, widths@) ==> r is Unrecognized,
    {
        match Drawing::new(xs, ys, pressures, widths, color) {
            Ok(drawing) => Payload::Drawing(drawing),
            Err(_) => Payload::Unrecognized,
        }
    }
}

/// One event of a room, with its envelope.
pub struct Event {
    pub created_at: u64,
    pub by_user_id: String,
    pub in_room_id: String,
    pub payload: Payload,
}

/// Where the connection to the room stands.
#[derive(Clone, Copy, Debug, PartialEq, Eq, Structural)]
pub enum ConnState {
    Disconnected,
    Connecting,
    Streaming,
}

/// What happened on the connection.
pub enum LinkInput {
    /// The session is asked to connect.
    Open,
    /// The attempt to open the stream failed.
    ConnectFailed,
    /// The stream is open.
    Connected,
    /// The stream delivered an event.
    Received(Event),
    /// The stream reported an error.
    Failed,
    /// The stream ended.
    Closed,
}

/// What the caller has to do next.
pub enum LinkAction {
    /// Nothing.
    Idle,
    /// Open the stream of the session's room, under the session's user id.
    OpenStream,
    /// Wait for the given delay, then open the stream again.
    RetryAfter(u64),
    /// Render the stroke.
    Paint(Drawing),
    /// Repaint the presence counter, which changed from `before` to `after`.
    Presence { before: u32, after: u32 },
}

/// A message to send: one local stroke, for one room, under one user id.
pub struct Outgoing {
    pub event: Event,
    pub room_ids: Vec<String>,
    pub user_id: String,
}

/// The presence counter after one more participant. It wraps around.
pub open spec fn joined(count: u32) -> u32 {
    if count == u32::MAX {
        0
    } else {
        (count + 1) as u32
    }
}

/// The presence counter after one participant fewer. It wraps around.
pub open spec fn left(count: u32) -> u32 {
    if count == 0 {
        u32::MAX
    } else {
        (count - 1) as u32
    }
}

/// The presence counter after an event.
pub open spec fn presence_after(count: u32, payload: Payload) -> u32 {
    match payload {
        Payload::UsersInTheRoom(c) => c,
        Payload::UserJoinedTheRoom => joined(count),
        Payload::UserLeftTheRoom => left(count),
        _ => count,
    }
}

/// What the session holds.
pub struct RoomView {
    pub room_id: Seq<char>,
    pub user_id: Seq<char>,
    pub presence: u32,
    pub state: ConnState,
    pub base: u64,
    pub cap: u64,
    pub attempt: u32,
}

/// The session after an input.
pub open spec fn room_next(v: RoomView, input: LinkInput) -> RoomView {
    match (v.state, input) {
        (ConnState::Disconnected, LinkInput::Open) => RoomView {
            state: ConnState::Connecting,
            ..v
        },
        (ConnState::Connecting, LinkInput::ConnectFailed) => RoomView {
            attempt: bumped(v.attempt),
            ..v
        },
        (ConnState::Connecting, LinkInput::Connected) => RoomView {
            state: ConnState::Streaming,
            attempt: 0,
            ..v
        },
        (ConnState::Streaming, LinkInput::Received(event)) => RoomView {
            presence: presence_after(v.presence, event.payload),
            ..v
        },
        (ConnState::Streaming, LinkInput::Failed) => RoomView {
            state: ConnState::Disconnected,
            ..v
        },
        (ConnState::Streaming, LinkInput::Closed) => RoomView {
            state: ConnState::Disconnected,
            ..v
        },
        _ => v,
    }
}

/// Whether `action` is what the session asks for after an input.
pub open spec fn action_for(v: RoomView, input: LinkInput, action: LinkAction) -> bool {
    match (v.state, input) {
        (ConnState::Disconnected, LinkInput::Open) => action is OpenStream,
        (ConnState::Connecting, LinkInput::ConnectFailed) => action == LinkAction::RetryAfter(
            delay_spec(v.base as nat, v.cap as nat, v.attempt as nat) as u64,
        ),
        (ConnState::Streaming, LinkInput::Received(event)) => match event.payload {
            Payload::Drawing(drawing) => action matches LinkAction::Paint(painted) && painted@
                == drawing@,
            Payload::UsersInTheRoom(c) => action == (LinkAction::Presence {
                before: v.presence,
                after: c,
            }),
            Payload::UserJoinedTheRoom => action == (LinkAction::Presence {
                before: v.presence,
                after: joined(v.presence),
            }),
            Payload::UserLeftTheRoom => action == (LinkAction::Presence {
                before: v.presence,
                after: left(v.presence),
            }),
            Payload::Unrecognized => action is Idle,
        },
        _ => action is Idle,
    }
}

/// Whether the input marks the canvas as in need of sharing: a stroke that
/// arrives while the stream is open.
pub open spec fn marks_sharing(v: RoomView, input: LinkInput) -> bool {
    v.state == ConnState::Streaming && (input matches LinkInput::Received(event)
        && event.payload is Drawing)
}

/// One participant's session in one room.
pub struct RoomSession {
    room_id: String,
    user_id: String,
    presence: u32,
    state: ConnState,
    backoff: Backoff,
}

impl RoomSession {
    pub closed spec fn view(&self) -> RoomView {
        RoomView {
            room_id: self.room_id@,
            user_id: self.user_id@,
            presence: self.presence,
            state: self.state,
            base: self.backoff.base(),
            cap: self.backoff.cap(),
            attempt: self.backoff.attempt(),
        }
    }

    /// A session for the given room and user: not connected, nobody counted,
    /// and the first retry after `base`, the later ones after `cap` at most.
    pub fn new(room_id: String, user_id: String, base: u64, cap: u64) -> (s: RoomSession)
        ensures
            s@ == (RoomView {
                room_id: room_id@,
                user_id: user_id@,
                presence: 0,
                state: ConnState::Disconnected,
                base,
                cap,
                attempt: 0,
            }),
    {
        RoomSession {
            room_id,
            user_id,
            presence: 0,
            state: ConnState::Disconnected,
            backoff: Backoff::new(base, cap),
        }
    }

    /// The number of participants that the session counts.
    pub fn presence(&self) -> (n: u32)
        ensures
            n == self@.presence,
    {
        self.presence
    }

    /// Where the connection stands.
    pub fn state(&self) -> (s: ConnState)
        ensures
            s == self@.state,
    {
        self.state
    }

    pub fn room_id(&self) -> (r: &String)
        ensures
            r@ == self@.room_id,
    {
        &self.room_id
    }

    pub fn user_id(&self) -> (r: &String)
        ensures
            r@ == self@.user_id,
    {
        &self.user_id
    }

    /// Applies the payload of a received event to the presence counter and
    /// says what to repaint.
    fn receive(&mut self, payload: Payload, share: &mut ShareLoop) -> (action: LinkAction)
        ensures
            final(self)@ == (RoomView {
                presence: presence_after(old(self)@.presence, payload),
                ..old(self)@
            }),
            match payload {
                Payload::Drawing(drawing) => action matches LinkAction::Paint(painted) && painted@
                    == drawing@,
                Payload::UsersInTheRoom(c) => action == (LinkAction::Presence {
                    before: old(self)@.presence,
                    after: c,
                }),
                Payload::UserJoinedTheRoom => action == (LinkAction::Presence {
                    before: old(self)@.presence,
                    after: joined(old(self)@.presence),
                }),
                Payload::UserLeftTheRoom => action == (LinkAction::Presence {
                    before: old(self)@.presence,
                    after: left(old(self)@.presence),
                }),
                Payload::Unrecognized => action is Idle,
            },
            final(share)@ == (if payload is Drawing {
                ShareView { needs_sharing: true, ..old(share)@ }
            } else {
                old(share)@
            }),
    {
        let before = self.presence;
        match payload {
            Payload::Drawing(drawing) => {
                share.mark();
                LinkAction::Paint(drawing)
            },
            Payload::UsersInTheRoom(c) => {
                self.presence = c;
                LinkAction::Presence { before, after: c }
            },
            Payload::UserJoinedTheRoom => {
                let after: u32 = if before == u32::MAX {
                    0
                } else {
                    before + 1
                };
                self.presence = after;
                LinkAction::Presence { before, after }
            },
            Payload::UserLeftTheRoom => {
                let after: u32 = if before == 0 {
                    u32::MAX
                } else {
                    before - 1
                };
                self.presence = after;
                LinkAction::Presence { before, after }
            },
            Payload::Unrecognized => LinkAction::Idle,
        }
    }

    /// Takes one input from the connection and says what to do next.
    ///
    /// A disconnected session that is asked to connect starts connecting. A
    /// failed attempt is retried after a delay that doubles with every
    /// failure, up to the cap; a success resets the delay. While the stream
    /// is open, events are applied in the order in which they come: a stroke
    /// is painted and marks the canvas as in need of sharing, the presence
    /// events change the counter, an unknown payload is passed over. An error
    /// or the end of the stream disconnects the session. An input that does
    /// not belong to the state is passed over.
    pub fn step(&mut self, input: LinkInput, share: &mut ShareLoop) -> (action: LinkAction)
        ensures
            final(self)@ == room_next(old(self)@, input),
            action_for(old(self)@, input, action),
            final(share)@ == (if marks_sharing(old(self)@, input) {
                ShareView { needs_sharing: true, ..old(share)@ }
            } else {
                old(share)@
            }),
    {
        match self.state {
            ConnState::Disconnected => match input {
                LinkInput::Open => {
                    self.state = ConnState::Connecting;
                    LinkAction::OpenStream
                },
                _ => LinkAction::Idle,
            },
            ConnState::Connecting => match input {
                LinkInput::ConnectFailed => {
                    let delay = self.backoff.next_delay();
                    LinkAction::RetryAfter(delay)
                },
                LinkInput::Connected => {
                    self.backoff.reset();
                    self.state = ConnState::Streaming;
                    LinkAction::Idle
                },
                _ => LinkAction::Idle,
            },
            ConnState::Streaming => match input {
                LinkInput::Received(event) => self.receive(event.payload, share),
                LinkInput::Failed => {
                    self.state = ConnState::Disconnected;
                    LinkAction::Idle
                },
                LinkInput::Closed => {
                    self.state = ConnState::Disconnected;
                    LinkAction::Idle
                },
                _ => LinkAction::Idle,
            },
        }
    }

    /// Wraps a local stroke for sending: an event with an empty envelope,
    /// which the relay fills in, addressed to the session's room and sent
    /// under the session's user id.
    pub fn outgoing(&self, drawing: Drawing) -> (r: Outgoing)
        ensures
            r.event.created_at == 0,
            r.event.by_user_id@ == Seq::<char>::empty(),
            r.event.in_room_id@ == Seq::<char>::empty(),
            r.event.payload matches Payload::Drawing(sent) && sent@ == drawing@,
            r.room_ids@.len() == 1,
            r.room_ids@[0]@ == self@.room_id,
            r.user_id@ == self@.user_id,
    {
        let mut room_ids: Vec<String> = Vec::new();
        room_ids.push(self.room_id.clone());
        Outgoing {
            event: Event {
                created_at: 0,
                by_user_id: String::new(),
                in_room_id: String::new(),
                payload: Payload::Drawing(drawing),
            },
            room_ids,
            user_id: self.user_id.clone(),
        }
    }
}

/// A participant who joins and leaves again leaves the counter as it was, and
/// so does one who leaves and joins again.
pub proof fn lemma_join_then_leave(count: u32)
    ensures
        left(joined(count)) == count,
        joined(left(count)) == count,
        presence_after(
            presence_after(count, Payload::UserJoinedTheRoom),
            Payload::UserLeftTheRoom,
        ) == count,
{
}

/// A count from the room replaces whatever was counted before.
pub proof fn lemma_count_overwrites(count: u32, c: u32)
    ensures
        presence_after(count, Payload::UsersInTheRoom(c)) == c,
{
}

} // verus!
