//! What the engine hands to the notification sink: a line of text and a
//! structured payload. Rendering and delivery are the sink's concern.

use vstd::prelude::*;
use crate::config::EventName;
use crate::text::opt_text;

verus! {

/// The accent colour of every payload.
pub const EMBED_COLOR: u32 = 0x6441A4;

/// A titled block of text inside a payload.
#[derive(Debug)]
pub struct EmbedField {
    pub name: String,
    pub value: String,
    pub inline: bool,
}

/// Mathematical value of an [`EmbedField`].
pub struct EmbedFieldView {
    pub name: Seq<char>,
    pub value: Seq<char>,
    pub inline: bool,
}

impl View for EmbedField {
    type V = EmbedFieldView;

    open spec fn view(&self) -> EmbedFieldView {
        EmbedFieldView { name: self.name@, value: self.value@, inline: self.inline }
    }
}

/// The structured payload of a notification.
#[derive(Debug)]
pub struct Embed {
    /// The headline: the title of the stream or of its recording.
    pub author: String,
    pub color: u32,
    /// The caption, which is also the link target where there is one.
    pub title: Option<String>,
    pub url: Option<String>,
    pub description: Option<String>,
    pub footer: Option<String>,
    pub fields: Vec<EmbedField>,
}

/// Mathematical value of an [`Embed`].
pub struct EmbedView {
    pub author: Seq<char>,
    pub color: u32,
    pub title: Option<Seq<char>>,
    pub url: Option<Seq<char>>,
    pub description: Option<Seq<char>>,
    pub footer: Option<Seq<char>>,
    pub fields: Seq<EmbedFieldView>,
}

impl View for Embed {
    type V = EmbedView;

    open spec fn view(&self) -> EmbedView {
        EmbedView {
            author: self.author@,
            color: self.color,
            title: opt_text(self.title),
            url: opt_text(self.url),
            description: opt_text(self.description),
            footer: opt_text(self.footer),
            fields: self.fields@.map_values(|f: EmbedField| f@),
        }
    }
}

/// One notification for the sink.
#[derive(Debug)]
pub struct Notification {
    /// The event type it reports.
    pub event: EventName,
    /// The plain line of text, led by the mention of the event's role if one is set.
    pub content: String,
    pub embed: Embed,
    /// Where to fetch the picture to attach, if there is one.
    pub thumbnail_url: Option<String>,
}

/// Mathematical value of a [`Notification`].
pub struct NotificationView {
    pub event: EventName,
    pub content: Seq<char>,
    pub embed: EmbedView,
    pub thumbnail_url: Option<Seq<char>>,
}

impl View for Notification {
    type V = NotificationView;

    open spec fn view(&self) -> NotificationView {
        NotificationView {
            event: self.event,
            content: self.content@,
            embed: self.embed@,
            thumbnail_url: opt_text(self.thumbnail_url),
        }
    }
}

/// Mathematical value of an optional notification.
pub open spec fn opt_notification(o: Option<Notification>) -> Option<NotificationView> {
    match o {
        Some(n) => Some(n@),
        None => None,
    }
}

} // verus!
