//! Messages and their segments.
//!
//! A message is an ordered sequence of segments (text, media reference,
//! mention, location, reply reference, forward reference, or an opaque custom
//! segment) plus a sender identity and a source discriminator (private or
//! group).  Segments are opaque to the gateway beyond their serialization
//! shape.
use crate::{Group, GroupView, User, UserView};
use vstd::prelude::*;

verus! {

/// A normalized chat message.
#[derive(Clone, Debug)]
pub struct Message {
    pub id: String,
    pub source: MessageSource,
    pub sender: User,
    pub content: Vec<MessageSegment>,
}

/// Where a message came from: a private chat or a group.
#[derive(Clone, Debug)]
pub enum MessageSource {
    Private(User),
    Group(Group),
}

/// One ordered element of a message body.
///
/// A location carries its coordinates as signed micro-degrees (one millionth
/// of a degree), latitude first, so that the gateway never handles
/// floating-point values.
#[derive(Clone, Debug)]
pub enum MessageSegment {
    Text(String),
    Emoji(String),
    Image(Media),
    Record(Media),
    Video(Media),
    At(User),
    Location(i64, i64),
    Reply(String),
    Forward(String),
    Custom(String),
}

/// A reference to a media payload.
#[derive(Clone, Debug)]
pub enum Media {
    File(String),
    URL(String),
    Base64(String),
}

/// Mathematical view of a [`Message`].
pub struct MessageView {
    pub id: Seq<char>,
    pub source: MessageSourceView,
    pub sender: UserView,
    pub content: Seq<MessageSegmentView>,
}

pub enum MessageSourceView {
    Private(UserView),
    Group(GroupView),
}

pub enum MessageSegmentView {
    Text(Seq<char>),
    Emoji(Seq<char>),
    Image(MediaView),
    Record(MediaView),
    Video(MediaView),
    At(UserView),
    Location(i64, i64),
    Reply(Seq<char>),
    Forward(Seq<char>),
    Custom(Seq<char>),
}

pub enum MediaView {
    File(Seq<char>),
    URL(Seq<char>),
    Base64(Seq<char>),
}

impl View for Media {
    type V = MediaView;

    open spec fn view(&self) -> MediaView {
        match self {
            Media::File(s) => MediaView::File(s@),
            Media::URL(s) => MediaView::URL(s@),
            Media::Base64(s) => MediaView::Base64(s@),
        }
    }
}

impl View for MessageSegment {
    type V = MessageSegmentView;

    open spec fn view(&self) -> MessageSegmentView {
        match self {
            MessageSegment::Text(s) => MessageSegmentView::Text(s@),
            MessageSegment::Emoji(s) => MessageSegmentView::Emoji(s@),
            MessageSegment::Image(m) => MessageSegmentView::Image(m@),
            MessageSegment::Record(m) => MessageSegmentView::Record(m@),
            MessageSegment::Video(m) => MessageSegmentView::Video(m@),
            MessageSegment::At(u) => MessageSegmentView::At(u@),
            MessageSegment::Location(lat, lon) => MessageSegmentView::Location(*lat, *lon),
            MessageSegment::Reply(s) => MessageSegmentView::Reply(s@),
            MessageSegment::Forward(s) => MessageSegmentView::Forward(s@),
            MessageSegment::Custom(s) => MessageSegmentView::Custom(s@),
        }
    }
}

impl View for MessageSource {
    type V = MessageSourceView;

    open spec fn view(&self) -> MessageSourceView {
        match self {
            MessageSource::Private(u) => MessageSourceView::Private(u@),
            MessageSource::Group(g) => MessageSourceView::Group(g@),
        }
    }
}

/// The views of a sequence of segments, in order.
pub open spec fn seg_views(s: Seq<MessageSegment>) -> Seq<MessageSegmentView> {
    s.map_values(|x: MessageSegment| x@)
}

impl View for Message {
    type V = MessageView;

    open spec fn view(&self) -> MessageView {
        MessageView {
            id: self.id@,
            source: self.source@,
            sender: self.sender@,
            content: seg_views(self.content@),
        }
    }
}

impl Media {
    pub fn new_file(file: &str) -> (m: Media)
        ensures
            m@ == MediaView::File(file@),
    {
        Media::File(file.to_owned())
    }

    pub fn new_url(url: &str) -> (m: Media)
        ensures
            m@ == MediaView::URL(url@),
    {
        Media::URL(url.to_owned())
    }

    pub fn new_base64(base64: &str) -> (m: Media)
        ensures
            m@ == MediaView::Base64(base64@),
    {
        Media::Base64(base64.to_owned())
    }
}

/// A message under construction: an identity and the segments collected so
/// far, before its source and sender are settled.
pub struct MessageBuilder {
    pub id: String,
    pub content: Vec<MessageSegment>,
}

proof fn lemma_seg_views_push(s: Seq<MessageSegment>, x: MessageSegment)
    ensures
        seg_views(s.push(x)) == seg_views(s).push(x@),
{
    assert(seg_views(s.push(x)) =~= seg_views(s).push(x@));
}

impl Message {
    /// Starts a message under the given identity, with no segments yet.
    pub fn build(id: &str) -> (b: MessageBuilder)
        ensures
            b.id@ == id@,
            seg_views(b.content@) == Seq::<MessageSegmentView>::empty(),
    {
        let b = MessageBuilder { id: id.to_owned(), content: Vec::new() };
        proof {
            assert(seg_views(b.content@) =~= Seq::<MessageSegmentView>::empty());
        }
        b
    }

    /// Re-sources this message as a private message from `user`, who is also
    /// recorded as its sender.
    pub fn private(self, user: User) -> (m: Message)
        ensures
            m@ == (MessageView {
                source: MessageSourceView::Private(user@),
                sender: user@,
                ..self@
            }),
    {
        let sender = user.duplicate();
        Message {
            id: self.id,
            source: MessageSource::Private(user),
            sender,
            content: self.content,
        }
    }

    /// Re-sources this message as a group message in `group` sent by `sender`.
    pub fn group(self, group: Group, sender: User) -> (m: Message)
        ensures
            m@ == (MessageView {
                source: MessageSourceView::Group(group@),
                sender: sender@,
                ..self@
            }),
    {
        Message { id: self.id, source: MessageSource::Group(group), sender, content: self.content }
    }

    pub fn text(self, text: &str) -> (m: Message)
        ensures
            m@ == (MessageView {
                content: self@.content.push(MessageSegmentView::Text(text@)),
                ..self@
            }),
    {
        let mut m = self;
        let ghost pre = m.content@;
        let seg = MessageSegment::Text(text.to_owned());
        proof {
            lemma_seg_views_push(pre, seg);
        }
        m.content.push(seg);
        m
    }

    pub fn emoji(self, emoji: &str) -> (m: Message)
        ensures
            m@ == (MessageView {
                content: self@.content.push(MessageSegmentView::Emoji(emoji@)),
                ..self@
            }),
    {
        let mut m = self;
        let ghost pre = m.content@;
        let seg = MessageSegment::Emoji(emoji.to_owned());
        proof {
            lemma_seg_views_push(pre, seg);
        }
        m.content.push(seg);
        m
    }

    pub fn image(self, image: Media) -> (m: Message)
        ensures
            m@ == (MessageView {
                content: self@.content.push(MessageSegmentView::Image(image@)),
                ..self@
            }),
    {
        let mut m = self;
        let ghost pre = m.content@;
        let seg = MessageSegment::Image(image);
        proof {
            lemma_seg_views_push(pre, seg);
        }
        m.content.push(seg);
        m
    }

    pub fn record(self, record: Media) -> (m: Message)
        ensures
            m@ == (MessageView {
                content: self@.content.push(MessageSegmentView::Record(record@)),
                ..self@
            }),
    {
        let mut m = self;
        let ghost pre = m.content@;
        let seg = MessageSegment::Record(record);
        proof {
            lemma_seg_views_push(pre, seg);
        }
        m.content.push(seg);
        m
    }

    pub fn video(self, video: Media) -> (m: Message)
        ensures
            m@ == (MessageView {
                content: self@.content.push(MessageSegmentView::Video(video@)),
                ..self@
            }),
    {
        let mut m = self;
        let ghost pre = m.content@;
        let seg = MessageSegment::Video(video);
        proof {
            lemma_seg_views_push(pre, seg);
        }
        m.content.push(seg);
        m
    }

    pub fn at(self, user: User) -> (m: Message)
        ensures
            m@ == (MessageView {
                content: self@.content.push(MessageSegmentView::At(user@)),
                ..self@
            }),
    {
        let mut m = self;
        let ghost pre = m.content@;
        let seg = MessageSegment::At(user);
        proof {
            lemma_seg_views_push(pre, seg);
        }
        m.content.push(seg);
        m
    }

    /// Appends a location given in signed micro-degrees, latitude first.
    pub fn location(self, lat_micro: i64, lon_micro: i64) -> (m: Message)
        ensures
            m@ == (MessageView {
                content: self@.content.push(MessageSegmentView::Location(lat_micro, lon_micro)),
                ..self@
            }),
    {
        let mut m = self;
        let ghost pre = m.content@;
        let seg = MessageSegment::Location(lat_micro, lon_micro);
        proof {
            lemma_seg_views_push(pre, seg);
        }
        m.content.push(seg);
        m
    }

    pub fn reply(self, id: &str) -> (m: Message)
        ensures
            m@ == (MessageView {
                content: self@.content.push(MessageSegmentView::Reply(id@)),
                ..self@
            }),
    {
        let mut m = self;
        let ghost pre = m.content@;
        let seg = MessageSegment::Reply(id.to_owned());
        proof {
            lemma_seg_views_push(pre, seg);
        }
        m.content.push(seg);
        m
    }

    pub fn forward(self, id: &str) -> (m: Message)
        ensures
            m@ == (MessageView {
                content: self@.content.push(MessageSegmentView::Forward(id@)),
                ..self@
            }),
    {
        let mut m = self;
        let ghost pre = m.content@;
        let seg = MessageSegment::Forward(id.to_owned());
        proof {
            lemma_seg_views_push(pre, seg);
        }
        m.content.push(seg);
        m
    }

    pub fn custom(self, s: &str) -> (m: Message)
        ensures
            m@ == (MessageView {
                content: self@.content.push(MessageSegmentView::Custom(s@)),
                ..self@
            }),
    {
        let mut m = self;
        let ghost pre = m.content@;
        let seg = MessageSegment::Custom(s.to_owned());
        proof {
            lemma_seg_views_push(pre, seg);
        }
        m.content.push(seg);
        m
    }
}

impl MessageBuilder {
    /// Mathematical view of the collected segments.
    pub open spec fn content_view(&self) -> Seq<MessageSegmentView> {
        seg_views(self.content@)
    }

    /// Finishes the message as a private message from `user`, who is also
    /// recorded as its sender.
    pub fn private(self, user: User) -> (m: Message)
        ensures
            m@.id == self.id@,
            m@.content == self.content_view(),
            m@.source == MessageSourceView::Private(user@),
            m@.sender == user@,
    {
        let sender = user.duplicate();
        Message {
            id: self.id,
            source: MessageSource::Private(user),
            sender,
            content: self.content,
        }
    }

    /// Finishes the message as a group message in `group` sent by `sender`.
    pub fn group(self, group: Group, sender: User) -> (m: Message)
        ensures
            m@.id == self.id@,
            m@.content == self.content_view(),
            m@.source == MessageSourceView::Group(group@),
            m@.sender == sender@,
    {
        Message { id: self.id, source: MessageSource::Group(group), sender, content: self.content }
    }

    pub fn text(self, text: &str) -> (b: MessageBuilder)
        ensures
            b.id@ == self.id@,
            b.content_view() == self.content_view().push(MessageSegmentView::Text(text@)),
    {
        let mut b = self;
        let ghost pre = b.content@;
        let seg = MessageSegment::Text(text.to_owned());
        proof {
            lemma_seg_views_push(pre, seg);
        }
        b.content.push(seg);
        b
    }

    pub fn emoji(self, emoji: &str) -> (b: MessageBuilder)
        ensures
            b.id@ == self.id@,
            b.content_view() == self.content_view().push(MessageSegmentView::Emoji(emoji@)),
    {
        let mut b = self;
        let ghost pre = b.content@;
        let seg = MessageSegment::Emoji(emoji.to_owned());
        proof {
            lemma_seg_views_push(pre, seg);
        }
        b.content.push(seg);
        b
    }

    pub fn image(self, image: Media) -> (b: MessageBuilder)
        ensures
            b.id@ == self.id@,
            b.content_view() == self.content_view().push(MessageSegmentView::Image(image@)),
    {
        let mut b = self;
        let ghost pre = b.content@;
        let seg = MessageSegment::Image(image);
        proof {
            lemma_seg_views_push(pre, seg);
        }
        b.content.push(seg);
        b
    }

    pub fn record(self, record: Media) -> (b: MessageBuilder)
        ensures
            b.id@ == self.id@,
            b.content_view() == self.content_view().push(MessageSegmentView::Record(record@)),
    {
        let mut b = self;
        let ghost pre = b.content@;
        let seg = MessageSegment::Record(record);
        proof {
            lemma_seg_views_push(pre, seg);
        }
        b.content.push(seg);
        b
    }

    pub fn video(self, video: Media) -> (b: MessageBuilder)
        ensures
            b.id@ == self.id@,
            b.content_view() == self.content_view().push(MessageSegmentView::Video(video@)),
    {
        let mut b = self;
        let ghost pre = b.content@;
        let seg = MessageSegment::Video(video);
        proof {
            lemma_seg_views_push(pre, seg);
        }
        b.content.push(seg);
        b
    }

    pub fn at(self, user: User) -> (b: MessageBuilder)
        ensures
            b.id@ == self.id@,
            b.content_view() == self.content_view().push(MessageSegmentView::At(user@)),
    {
        let mut b = self;
        let ghost pre = b.content@;
        let seg = MessageSegment::At(user);
        proof {
            lemma_seg_views_push(pre, seg);
        }
        b.content.push(seg);
        b
    }

    /// Appends a location given in signed micro-degrees, latitude first.
    pub fn location(self, lat_micro: i64, lon_micro: i64) -> (b: MessageBuilder)
        ensures
            b.id@ == self.id@,
            b.content_view() == self.content_view().push(
                MessageSegmentView::Location(lat_micro, lon_micro),
            ),
    {
        let mut b = self;
        let ghost pre = b.content@;
        let seg = MessageSegment::Location(lat_micro, lon_micro);
        proof {
            lemma_seg_views_push(pre, seg);
        }
        b.content.push(seg);
        b
    }

    pub fn reply(self, id: &str) -> (b: MessageBuilder)
        ensures
            b.id@ == self.id@,
            b.content_view() == self.content_view().push(MessageSegmentView::Reply(id@)),
    {
        let mut b = self;
        let ghost pre = b.content@;
        let seg = MessageSegment::Reply(id.to_owned());
        proof {
            lemma_seg_views_push(pre, seg);
        }
        b.content.push(seg);
        b
    }

    pub fn forward(self, id: &str) -> (b: MessageBuilder)
        ensures
            b.id@ == self.id@,
            b.content_view() == self.content_view().push(MessageSegmentView::Forward(id@)),
    {
        let mut b = self;
        let ghost pre = b.content@;
        let seg = MessageSegment::Forward(id.to_owned());
        proof {
            lemma_seg_views_push(pre, seg);
        }
        b.content.push(seg);
        b
    }

    pub fn custom(self, s: &str) -> (b: MessageBuilder)
        ensures
            b.id@ == self.id@,
            b.content_view() == self.content_view().push(MessageSegmentView::Custom(s@)),
    {
        let mut b = self;
        let ghost pre = b.content@;
        let seg = MessageSegment::Custom(s.to_owned());
        proof {
            lemma_seg_views_push(pre, seg);
        }
        b.content.push(seg);
        b
    }
}

} // verus!
