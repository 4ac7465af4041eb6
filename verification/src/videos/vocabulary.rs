//! The value vocabularies of the API's list and search parameters.
//!
//! Each vocabulary is a closed set of words. `as_str` gives the word that
//! stands for a value in a query. A place has no word of its own: it is
//! written as its two coordinates.

use vstd::prelude::*;
use vstd::string::StringExecFns;

verus! {

/// Restricts a search to a kind of channel.
#[derive(Debug, Clone, Copy, PartialEq, Eq)]
pub enum ChannelType {
    Any,
    Show,
}

impl ChannelType {
    pub open spec fn word(self) -> Seq<char> {
        match self {
            ChannelType::Any => "any"@,
            ChannelType::Show => "show"@,
        }
    }

    pub fn as_str(&self) -> (r: &'static str)
        ensures
            r@ == self.word(),
    {
        match self {
            ChannelType::Any => "any",
            ChannelType::Show => "show",
        }
    }
}

/// Restricts a search to broadcasts in one stage of their life.
#[derive(Debug, Clone, Copy, PartialEq, Eq)]
pub enum EventType {
    Completed,
    Live,
    Upcoming,
}

impl EventType {
    pub open spec fn word(self) -> Seq<char> {
        match self {
            EventType::Completed => "completed"@,
            EventType::Live => "live"@,
            EventType::Upcoming => "upcoming"@,
        }
    }

    pub fn as_str(&self) -> (r: &'static str)
        ensures
            r@ == self.word(),
    {
        match self {
            EventType::Completed => "completed",
            EventType::Live => "live",
            EventType::Upcoming => "upcoming",
        }
    }
}

/// The order in which results are listed.
#[derive(Debug, Clone, Copy, PartialEq, Eq)]
pub enum Order {
    Date,
    Rating,
    Relevance,
    Title,
    VideoCount,
    ViewCount,
}

impl Order {
    pub open spec fn word(self) -> Seq<char> {
        match self {
            Order::Date => "date"@,
            Order::Rating => "rating"@,
            Order::Relevance => "relevance"@,
            Order::Title => "title"@,
            Order::VideoCount => "videoCount"@,
            Order::ViewCount => "viewCount"@,
        }
    }

    pub fn as_str(&self) -> (r: &'static str)
        ensures
            r@ == self.word(),
    {
        match self {
            Order::Date => "date",
            Order::Rating => "rating",
            Order::Relevance => "relevance",
            Order::Title => "title",
            Order::VideoCount => "videoCount",
            Order::ViewCount => "viewCount",
        }
    }
}

/// How strictly restricted content is filtered out.
#[derive(Debug, Clone, Copy, PartialEq, Eq)]
pub enum SafeSearch {
    Moderate,
    Strict,
}

impl SafeSearch {
    pub open spec fn word(self) -> Seq<char> {
        match self {
            SafeSearch::Moderate => "moderate"@,
            SafeSearch::Strict => "strict"@,
        }
    }

    pub fn as_str(&self) -> (r: &'static str)
        ensures
            r@ == self.word(),
    {
        match self {
            SafeSearch::Moderate => "moderate",
            SafeSearch::Strict => "strict",
        }
    }
}

/// The kind of resource that a search returns.
#[derive(Debug, Clone, Copy, PartialEq, Eq)]
pub enum ItemType {
    Channel,
    Playlist,
    Video,
}

impl ItemType {
    pub open spec fn word(self) -> Seq<char> {
        match self {
            ItemType::Channel => "channel"@,
            ItemType::Playlist => "playlist"@,
            ItemType::Video => "video"@,
        }
    }

    pub fn as_str(&self) -> (r: &'static str)
        ensures
            r@ == self.word(),
    {
        match self {
            ItemType::Channel => "channel",
            ItemType::Playlist => "playlist",
            ItemType::Video => "video",
        }
    }
}

/// Whether a video must have captions.
#[derive(Debug, Clone, Copy, PartialEq, Eq)]
pub enum VideoCaption {
    ClosedCaption,
    NoCaption,
}

impl VideoCaption {
    pub open spec fn word(self) -> Seq<char> {
        match self {
            VideoCaption::ClosedCaption => "closedCaption"@,
            VideoCaption::NoCaption => "none"@,
        }
    }

    pub fn as_str(&self) -> (r: &'static str)
        ensures
            r@ == self.word(),
    {
        match self {
            VideoCaption::ClosedCaption => "closedCaption",
            VideoCaption::NoCaption => "none",
        }
    }
}

/// The resolution class of a video.
#[derive(Debug, Clone, Copy, PartialEq, Eq)]
pub enum VideoDefinition {
    High,
    Standard,
}

impl VideoDefinition {
    pub open spec fn word(self) -> Seq<char> {
        match self {
            VideoDefinition::High => "high"@,
            VideoDefinition::Standard => "standard"@,
        }
    }

    pub fn as_str(&self) -> (r: &'static str)
        ensures
            r@ == self.word(),
    {
        match self {
            VideoDefinition::High => "high",
            VideoDefinition::Standard => "standard",
        }
    }
}

/// Whether a video is stereoscopic or flat.
#[derive(Debug, Clone, Copy, PartialEq, Eq)]
pub enum VideoDimension {
    Three,
    Two,
}

impl VideoDimension {
    pub open spec fn word(self) -> Seq<char> {
        match self {
            VideoDimension::Three => "3d"@,
            VideoDimension::Two => "2d"@,
        }
    }

    pub fn as_str(&self) -> (r: &'static str)
        ensures
            r@ == self.word(),
    {
        match self {
            VideoDimension::Three => "3d",
            VideoDimension::Two => "2d",
        }
    }
}

/// The length class of a video.
#[derive(Debug, Clone, Copy, PartialEq, Eq)]
pub enum VideoDuration {
    Long,
    Medium,
    Short,
}

impl VideoDuration {
    pub open spec fn word(self) -> Seq<char> {
        match self {
            VideoDuration::Long => "long"@,
            VideoDuration::Medium => "medium"@,
            VideoDuration::Short => "short"@,
        }
    }

    pub fn as_str(&self) -> (r: &'static str)
        ensures
            r@ == self.word(),
    {
        match self {
            VideoDuration::Long => "long",
            VideoDuration::Medium => "medium",
            VideoDuration::Short => "short",
        }
    }
}

/// The licence under which a video is published.
#[derive(Debug, Clone, Copy, PartialEq, Eq)]
pub enum VideoLicense {
    CreativeCommon,
    Youtube,
}

impl VideoLicense {
    pub open spec fn word(self) -> Seq<char> {
        match self {
            VideoLicense::CreativeCommon => "creativeCommon"@,
            VideoLicense::Youtube => "youtube"@,
        }
    }

    pub fn as_str(&self) -> (r: &'static str)
        ensures
            r@ == self.word(),
    {
        match self {
            VideoLicense::CreativeCommon => "creativeCommon",
            VideoLicense::Youtube => "youtube",
        }
    }
}

/// The kind of programme that a video is.
#[derive(Debug, Clone, Copy, PartialEq, Eq)]
pub enum VideoType {
    Episode,
    Movie,
}

impl VideoType {
    pub open spec fn word(self) -> Seq<char> {
        match self {
            VideoType::Episode => "episode"@,
            VideoType::Movie => "movie"@,
        }
    }

    pub fn as_str(&self) -> (r: &'static str)
        ensures
            r@ == self.word(),
    {
        match self {
            VideoType::Episode => "episode",
            VideoType::Movie => "movie",
        }
    }
}

/// The word for a place on the globe: its longitude and its latitude, each
/// as it is written, with a comma between them.
pub fn location_word(longitude: &str, latitude: &str) -> (r: String)
    ensures
        r@ == longitude@ + ","@ + latitude@,
{
    let mut word = longitude.to_owned();
    word.append(",");
    word.append(latitude);
    word
}

} // verus!
