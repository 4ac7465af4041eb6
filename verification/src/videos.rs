//! The video lookup: its query, its deferred request and its typed answer.

pub mod error;
pub mod json;
pub mod query;
pub mod request;
pub mod response;
pub mod schema;
pub mod time;
pub mod vocabulary;

pub use error::{Diagnostic, DiagnosticView, Error, ErrorView};
pub use json::{Json, JsonView};
pub use query::{VideosData, VideosDataView};
pub use request::{Action, ActionView, Event, EventView, Phase, Videos, VideosView};
pub use response::{
    ContentDetails, PageInfo, Response, Snippet, Thumbnail, Thumbnails, VideoResult,
};
pub use schema::{Problem, SchemaError, SchemaFault};
pub use time::Timestamp;
pub use vocabulary::{
    location_word, ChannelType, EventType, ItemType, Order, SafeSearch, VideoCaption,
    VideoDefinition, VideoDimension, VideoDuration, VideoLicense, VideoType,
};
