//! Emoji reactions to administrator announcements.

use vstd::prelude::*;

verus! {

/// Custom emoji fields for `AnnouncementReaction`.
#[derive(Debug, Clone, PartialEq)]
pub struct AnnouncementReactionCustomEmoji {
    url: String,
    static_url: String,
}

impl View for AnnouncementReactionCustomEmoji {
    type V = (Seq<char>, Seq<char>);

    closed spec fn view(&self) -> Self::V {
        (self.url@, self.static_url@)
    }
}

impl DeepView for AnnouncementReactionCustomEmoji {
    type V = (Seq<char>, Seq<char>);

    open spec fn deep_view(&self) -> Self::V {
        self.view()
    }
}

impl AnnouncementReactionCustomEmoji {
    /// Build from the two emoji URLs.
    pub fn new(url: String, static_url: String) -> (r: AnnouncementReactionCustomEmoji)
        ensures
            r@ == (url@, static_url@),
    {
        AnnouncementReactionCustomEmoji { url, static_url }
    }

    /// A link to the custom emoji.
    pub fn url(&self) -> (r: &str)
        ensures
            r@ == self@.0,
    {
        self.url.as_str()
    }

    /// A link to a non-animated version of the custom emoji.
    pub fn static_url(&self) -> (r: &str)
        ensures
            r@ == self@.1,
    {
        self.static_url.as_str()
    }
}

/// Spec-level picture of an announcement reaction.
pub struct AnnouncementReactionV {
    pub name: Seq<char>,
    pub count: u64,
    pub me: bool,
    pub emoji: Option<(Seq<char>, Seq<char>)>,
}

/// An emoji reaction to an announcement.
#[derive(Debug, Clone, PartialEq)]
pub struct AnnouncementReaction {
    name: String,
    count: u64,
    me: bool,
    emoji: Option<AnnouncementReactionCustomEmoji>,
}

impl View for AnnouncementReaction {
    type V = AnnouncementReactionV;

    closed spec fn view(&self) -> AnnouncementReactionV {
        AnnouncementReactionV {
            name: self.name@,
            count: self.count,
            me: self.me,
            emoji: self.emoji.deep_view(),
        }
    }
}

impl AnnouncementReaction {
    /// Build a reaction from its parts.
    pub fn new(name: String, count: u64, me: bool, emoji: Option<AnnouncementReactionCustomEmoji>) -> (r:
        AnnouncementReaction)
        ensures
            r@.name == name@,
            r@.count == count,
            r@.me == me,
            r@.emoji == emoji.deep_view(),
    {
        AnnouncementReaction { name, count, me, emoji }
    }

    /// The emoji used for the reaction: a unicode emoji, or the
    /// shortcode of a custom one.
    pub fn name(&self) -> (r: &str)
        ensures
            r@ == self@.name,
    {
        self.name.as_str()
    }

    /// How many users added this reaction.
    pub fn count(&self) -> (r: u64)
        ensures
            r == self@.count,
    {
        self.count
    }

    /// Whether the authorized user added this reaction.
    pub fn me(&self) -> (r: bool)
        ensures
            r == self@.me,
    {
        self.me
    }

    /// Custom emoji attributes, when the reaction uses a custom emoji.
    pub fn emoji(&self) -> (r: Option<&AnnouncementReactionCustomEmoji>)
        ensures
            r.deep_view() == self@.emoji,
    {
        self.emoji.as_ref()
    }
}

} // verus!
