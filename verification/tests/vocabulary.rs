use yt_api::videos::{
    location_word, ChannelType, EventType, ItemType, Order, SafeSearch, VideoCaption, VideoDefinition,
    VideoDimension, VideoDuration, VideoLicense, VideoType,
};

#[test]
fn channel_type_words() {
    assert_eq!(ChannelType::Any.as_str(), "any");
    assert_eq!(ChannelType::Show.as_str(), "show");
}

#[test]
fn event_type_words() {
    assert_eq!(EventType::Completed.as_str(), "completed");
    assert_eq!(EventType::Live.as_str(), "live");
    assert_eq!(EventType::Upcoming.as_str(), "upcoming");
}

#[test]
fn order_words() {
    assert_eq!(Order::Date.as_str(), "date");
    assert_eq!(Order::Rating.as_str(), "rating");
    assert_eq!(Order::Relevance.as_str(), "relevance");
    assert_eq!(Order::Title.as_str(), "title");
    assert_eq!(Order::VideoCount.as_str(), "videoCount");
    assert_eq!(Order::ViewCount.as_str(), "viewCount");
}

#[test]
fn safe_search_words() {
    assert_eq!(SafeSearch::Moderate.as_str(), "moderate");
    assert_eq!(SafeSearch::Strict.as_str(), "strict");
}

#[test]
fn item_type_words() {
    assert_eq!(ItemType::Channel.as_str(), "channel");
    assert_eq!(ItemType::Playlist.as_str(), "playlist");
    assert_eq!(ItemType::Video.as_str(), "video");
}

#[test]
fn video_caption_words() {
    assert_eq!(VideoCaption::ClosedCaption.as_str(), "closedCaption");
    assert_eq!(VideoCaption::NoCaption.as_str(), "none");
}

#[test]
fn video_definition_words() {
    assert_eq!(VideoDefinition::High.as_str(), "high");
    assert_eq!(VideoDefinition::Standard.as_str(), "standard");
}

#[test]
fn video_dimension_words() {
    assert_eq!(VideoDimension::Three.as_str(), "3d");
    assert_eq!(VideoDimension::Two.as_str(), "2d");
}

#[test]
fn video_duration_words() {
    assert_eq!(VideoDuration::Long.as_str(), "long");
    assert_eq!(VideoDuration::Medium.as_str(), "medium");
    assert_eq!(VideoDuration::Short.as_str(), "short");
}

#[test]
fn video_license_words() {
    assert_eq!(VideoLicense::CreativeCommon.as_str(), "creativeCommon");
    assert_eq!(VideoLicense::Youtube.as_str(), "youtube");
}

#[test]
fn video_type_words() {
    assert_eq!(VideoType::Episode.as_str(), "episode");
    assert_eq!(VideoType::Movie.as_str(), "movie");
}

#[test]
fn location_is_longitude_comma_latitude() {
    assert_eq!(location_word(&1.5f32.to_string(), &2.5f32.to_string()), "1.5,2.5");
    assert_eq!(location_word("1.5", "2.5"), "1.5,2.5");
}

#[test]
fn location_keeps_the_coordinates_as_written() {
    assert_eq!(location_word(&(-122.25f32).to_string(), &0f32.to_string()), "-122.25,0");
    assert_eq!(location_word("", ""), ",");
}
