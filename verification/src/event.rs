//! Normalized events.
//!
//! An event is an identity, a source platform tag, a creation timestamp (unix
//! seconds), a tagged payload (message, notice, request, or meta signal), and
//! the identity of the bot account that produced or observed it.  Events are
//! immutable after construction; the gateway stamps the platform tag at
//! publish time, so every subscriber sees a consistent origin.
use crate::message::{Message, MessageView};
use crate::{User, UserView};
use vstd::prelude::*;

verus! {

/// A normalized occurrence, published once and broadcast to all consumers.
#[derive(Clone, Debug)]
pub struct Event {
    pub id: String,
    pub platform: String,
    /// Creation time as unix seconds.
    pub time: i64,
    pub content: EventContent,
    pub bot_user: User,
}

/// The tagged payload of an event.
#[derive(Clone, Debug)]
pub enum EventContent {
    Message(Message),
    Notice(Notice),
    Request(Request),
    Meta(Meta),
}

/// A platform notice payload.
#[derive(Clone, Debug)]
pub struct Notice {}

/// A platform request payload.
#[derive(Clone, Debug)]
pub struct Request {
    pub flag: String,
}

/// A meta signal payload.
#[derive(Clone, Debug)]
pub struct Meta {
    pub extended: Vec<(String, String)>,
}

/// Mathematical view of an [`Event`].
pub struct EventView {
    pub id: Seq<char>,
    pub platform: Seq<char>,
    pub time: i64,
    pub content: EventContentView,
    pub bot_user: UserView,
}

pub enum EventContentView {
    Message(MessageView),
    Notice,
    Request(Seq<char>),
    Meta(Seq<(Seq<char>, Seq<char>)>),
}

impl View for EventContent {
    type V = EventContentView;

    open spec fn view(&self) -> EventContentView {
        match self {
            EventContent::Message(m) => EventContentView::Message(m@),
            EventContent::Notice(_) => EventContentView::Notice,
            EventContent::Request(r) => EventContentView::Request(r.flag@),
            EventContent::Meta(m) => EventContentView::Meta(crate::pair_views(m.extended@)),
        }
    }
}

impl View for Event {
    type V = EventView;

    open spec fn view(&self) -> EventView {
        EventView {
            id: self.id@,
            platform: self.platform@,
            time: self.time,
            content: self.content@,
            bot_user: self.bot_user@,
        }
    }
}

/// Relies on chrono::Utc::now: the current wall-clock time, reduced to unix
/// seconds.  The value depends on the moment of the call, so nothing is
/// assumed about it.
#[verifier::external_body]
fn now_unix_seconds() -> i64 {
    chrono::Utc::now().timestamp()
}

impl Event {
    /// Starts an event under the given identity, stamped with the current
    /// wall-clock time, with an empty platform tag and a placeholder bot
    /// identity until the gateway settles them.
    pub fn new(id: &str) -> (b: EventBuilder)
        ensures
            b.id@ == id@,
            b.platform@ == Seq::<char>::empty(),
            b.bot_user.id@ == "-1"@,
    {
        EventBuilder {
            id: id.to_owned(),
            platform: String::new(),
            time: now_unix_seconds(),
            bot_user: User::new("-1"),
        }
    }

    /// The same event under another platform tag.
    pub fn platform(self, platform: &str) -> (e: Event)
        ensures
            e@ == (EventView { platform: platform@, ..self@ }),
    {
        Event { platform: platform.to_owned(), ..self }
    }

    /// The same event with another creation time.
    pub fn time(self, time: i64) -> (e: Event)
        ensures
            e@ == (EventView { time, ..self@ }),
    {
        Event { time, ..self }
    }

    /// The same event attributed to another bot account.
    pub fn bot_user(self, user: User) -> (e: Event)
        ensures
            e@ == (EventView { bot_user: user@, ..self@ }),
    {
        Event { bot_user: user, ..self }
    }
}

/// An event under construction: everything but the payload.
pub struct EventBuilder {
    pub id: String,
    pub platform: String,
    pub time: i64,
    pub bot_user: User,
}

impl EventBuilder {
    pub fn platform(self, platform: &str) -> (b: EventBuilder)
        ensures
            b.id == self.id,
            b.time == self.time,
            b.bot_user == self.bot_user,
            b.platform@ == platform@,
    {
        EventBuilder { platform: platform.to_owned(), ..self }
    }

    pub fn time(self, time: i64) -> (b: EventBuilder)
        ensures
            b.id == self.id,
            b.platform == self.platform,
            b.bot_user == self.bot_user,
            b.time == time,
    {
        EventBuilder { time, ..self }
    }

    pub fn bot_user(self, user: User) -> (b: EventBuilder)
        ensures
            b.id == self.id,
            b.platform == self.platform,
            b.time == self.time,
            b.bot_user == user,
    {
        EventBuilder { bot_user: user, ..self }
    }

    /// Finishes the event with a message payload.
    pub fn message(self, message: Message) -> (e: Event)
        ensures
            e@ == (EventView {
                id: self.id@,
                platform: self.platform@,
                time: self.time,
                content: EventContentView::Message(message@),
                bot_user: self.bot_user@,
            }),
    {
        Event {
            id: self.id,
            platform: self.platform,
            time: self.time,
            content: EventContent::Message(message),
            bot_user: self.bot_user,
        }
    }

    /// Finishes the event with a notice payload.
    pub fn notice(self, notice: Notice) -> (e: Event)
        ensures
            e@ == (EventView {
                id: self.id@,
                platform: self.platform@,
                time: self.time,
                content: EventContentView::Notice,
                bot_user: self.bot_user@,
            }),
    {
        Event {
            id: self.id,
            platform: self.platform,
            time: self.time,
            content: EventContent::Notice(notice),
            bot_user: self.bot_user,
        }
    }

    /// Finishes the event with a request payload.
    pub fn request(self, request: Request) -> (e: Event)
        ensures
            e@ == (EventView {
                id: self.id@,
                platform: self.platform@,
                time: self.time,
                content: EventContentView::Request(request.flag@),
                bot_user: self.bot_user@,
            }),
    {
        Event {
            id: self.id,
            platform: self.platform,
            time: self.time,
            content: EventContent::Request(request),
            bot_user: self.bot_user,
        }
    }

    /// Finishes the event with a meta payload.
    pub fn meta(self, meta: Meta) -> (e: Event)
        ensures
            e@ == (EventView {
                id: self.id@,
                platform: self.platform@,
                time: self.time,
                content: EventContentView::Meta(crate::pair_views(meta.extended@)),
                bot_user: self.bot_user@,
            }),
    {
        Event {
            id: self.id,
            platform: self.platform,
            time: self.time,
            content: EventContent::Meta(meta),
            bot_user: self.bot_user,
        }
    }
}

} // verus!
