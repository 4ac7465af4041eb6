//! The answer to a video lookup, and how it is read from a JSON document.
//!
//! Every type here is a plain value. Its `decoded` function says what a
//! document denotes: the value that its members spell out, or the first
//! fault, the members taken in the order of the type's fields. `from_json`
//! computes it.

use super::error::{Diagnostic, DiagnosticView, Error, ErrorView};
use super::json::{json_text, Json, JsonView};
use super::schema::{
    and_then, holds_text, holds_timestamp, holds_unsigned, not_an_object, optional_object,
    optional_object_of, optional_text, optional_text_of, optional_timestamp,
    optional_timestamp_of, optional_unsigned, optional_unsigned_of, outcome, present,
    required_array, required_array_of, required_integer, required_integer_of, required_object,
    required_object_of, required_text, required_text_of, SchemaError, SchemaFault,
};
use super::time::Timestamp;
use serde_json::Error as JsonError;
use vstd::prelude::*;

verus! {

/// One rendition of a video's thumbnail image.
#[derive(Debug, Clone, PartialEq, Eq)]
pub struct Thumbnail {
    pub url: String,
    pub width: Option<u64>,
    pub height: Option<u64>,
}

/// The mathematical value of [`Thumbnail`].
pub ghost struct ThumbnailView {
    pub url: Seq<char>,
    pub width: Option<u64>,
    pub height: Option<u64>,
}

impl View for Thumbnail {
    type V = ThumbnailView;

    open spec fn view(&self) -> ThumbnailView {
        ThumbnailView { url: self.url@, width: self.width, height: self.height }
    }
}

impl DeepView for Thumbnail {
    type V = ThumbnailView;

    open spec fn deep_view(&self) -> ThumbnailView {
        self@
    }
}

/// The renditions of a thumbnail, by the name of their resolution.
#[derive(Debug, Clone, PartialEq, Eq)]
pub struct Thumbnails {
    pub default: Option<Thumbnail>,
    pub medium: Option<Thumbnail>,
    pub high: Option<Thumbnail>,
    pub standard: Option<Thumbnail>,
    pub maxres: Option<Thumbnail>,
}

/// The mathematical value of [`Thumbnails`].
pub ghost struct ThumbnailsView {
    pub default: Option<ThumbnailView>,
    pub medium: Option<ThumbnailView>,
    pub high: Option<ThumbnailView>,
    pub standard: Option<ThumbnailView>,
    pub maxres: Option<ThumbnailView>,
}

impl View for Thumbnails {
    type V = ThumbnailsView;

    open spec fn view(&self) -> ThumbnailsView {
        ThumbnailsView {
            default: self.default.deep_view(),
            medium: self.medium.deep_view(),
            high: self.high.deep_view(),
            standard: self.standard.deep_view(),
            maxres: self.maxres.deep_view(),
        }
    }
}

impl DeepView for Thumbnails {
    type V = ThumbnailsView;

    open spec fn deep_view(&self) -> ThumbnailsView {
        self@
    }
}

/// What a video says of itself to a reader.
#[derive(Debug, Clone, PartialEq, Eq)]
pub struct Snippet {
    pub published_at: Option<Timestamp>,
    pub channel_id: Option<String>,
    pub title: Option<String>,
    pub description: Option<String>,
    pub thumbnails: Option<Thumbnails>,
    pub channel_title: Option<String>,
    pub category_id: Option<String>,
    pub live_broadcast_content: Option<String>,
}

/// The mathematical value of [`Snippet`].
pub ghost struct SnippetView {
    pub published_at: Option<Timestamp>,
    pub channel_id: Option<Seq<char>>,
    pub title: Option<Seq<char>>,
    pub description: Option<Seq<char>>,
    pub thumbnails: Option<ThumbnailsView>,
    pub channel_title: Option<Seq<char>>,
    pub category_id: Option<Seq<char>>,
    pub live_broadcast_content: Option<Seq<char>>,
}

impl View for Snippet {
    type V = SnippetView;

    open spec fn view(&self) -> SnippetView {
        SnippetView {
            published_at: self.published_at,
            channel_id: self.channel_id.deep_view(),
            title: self.title.deep_view(),
            description: self.description.deep_view(),
            thumbnails: self.thumbnails.deep_view(),
            channel_title: self.channel_title.deep_view(),
            category_id: self.category_id.deep_view(),
            live_broadcast_content: self.live_broadcast_content.deep_view(),
        }
    }
}

impl DeepView for Snippet {
    type V = SnippetView;

    open spec fn deep_view(&self) -> SnippetView {
        self@
    }
}

/// The technical description of a video. The duration is kept as the text
/// that the API sends.
#[derive(Debug, Clone, PartialEq, Eq)]
pub struct ContentDetails {
    pub duration: Option<String>,
    pub dimension: Option<String>,
    pub definition: Option<String>,
}

/// The mathematical value of [`ContentDetails`].
pub ghost struct ContentDetailsView {
    pub duration: Option<Seq<char>>,
    pub dimension: Option<Seq<char>>,
    pub definition: Option<Seq<char>>,
}

impl View for ContentDetails {
    type V = ContentDetailsView;

    open spec fn view(&self) -> ContentDetailsView {
        ContentDetailsView {
            duration: self.duration.deep_view(),
            dimension: self.dimension.deep_view(),
            definition: self.definition.deep_view(),
        }
    }
}

impl DeepView for ContentDetails {
    type V = ContentDetailsView;

    open spec fn deep_view(&self) -> ContentDetailsView {
        self@
    }
}

/// One video of an answer.
#[derive(Debug, Clone, PartialEq, Eq)]
pub struct VideoResult {
    pub kind: String,
    pub etag: String,
    pub id: String,
    pub snippet: Snippet,
    pub content_details: ContentDetails,
}

/// The mathematical value of [`VideoResult`].
pub ghost struct VideoResultView {
    pub kind: Seq<char>,
    pub etag: Seq<char>,
    pub id: Seq<char>,
    pub snippet: SnippetView,
    pub content_details: ContentDetailsView,
}

impl View for VideoResult {
    type V = VideoResultView;

    open spec fn view(&self) -> VideoResultView {
        VideoResultView {
            kind: self.kind@,
            etag: self.etag@,
            id: self.id@,
            snippet: self.snippet@,
            content_details: self.content_details@,
        }
    }
}

impl DeepView for VideoResult {
    type V = VideoResultView;

    open spec fn deep_view(&self) -> VideoResultView {
        self@
    }
}

/// How many results there are in all, and how many come in one page. Both
/// are kept as sent.
#[derive(Debug, Clone, Copy, PartialEq, Eq)]
pub struct PageInfo {
    pub total_results: i64,
    pub results_per_page: i64,
}

impl DeepView for PageInfo {
    type V = PageInfo;

    open spec fn deep_view(&self) -> PageInfo {
        *self
    }
}

/// The answer to a lookup. The items keep the order of the document.
#[derive(Debug, Clone, PartialEq, Eq)]
pub struct Response {
    pub kind: String,
    pub etag: String,
    pub next_page_token: Option<String>,
    pub prev_page_token: Option<String>,
    pub page_info: PageInfo,
    pub items: Vec<VideoResult>,
}

/// The mathematical value of [`Response`].
pub ghost struct ResponseView {
    pub kind: Seq<char>,
    pub etag: Seq<char>,
    pub next_page_token: Option<Seq<char>>,
    pub prev_page_token: Option<Seq<char>>,
    pub page_info: PageInfo,
    pub items: Seq<VideoResultView>,
}

impl View for Response {
    type V = ResponseView;

    open spec fn view(&self) -> ResponseView {
        ResponseView {
            kind: self.kind@,
            etag: self.etag@,
            next_page_token: self.next_page_token.deep_view(),
            prev_page_token: self.prev_page_token.deep_view(),
            page_info: self.page_info,
            items: self.items.deep_view(),
        }
    }
}

impl DeepView for Response {
    type V = ResponseView;

    open spec fn deep_view(&self) -> ResponseView {
        self@
    }
}

impl Thumbnail {
    /// What a document denotes as a thumbnail: `url` is required, `width`
    /// and `height` are optional.
    pub open spec fn decoded(doc: JsonView) -> Result<ThumbnailView, SchemaFault> {
        let url = required_text_of(doc, "url"@);
        let width = optional_unsigned_of(doc, "width"@);
        let height = optional_unsigned_of(doc, "height"@);
        if !(doc is Object) {
            Err(not_an_object())
        } else if url is Err {
            Err(url->Err_0)
        } else if width is Err {
            Err(width->Err_0)
        } else if height is Err {
            Err(height->Err_0)
        } else {
            Ok(ThumbnailView { url: url->Ok_0, width: width->Ok_0, height: height->Ok_0 })
        }
    }

    /// Reads a thumbnail from a document.
    pub fn from_json(doc: &Json) -> (r: Result<Thumbnail, SchemaError>)
        ensures
            outcome(r) == Thumbnail::decoded(doc@),
    {
        if !doc.is_object() {
            return Err(SchemaError::not_an_object());
        }
        let url = match required_text(doc, "url") {
            Ok(value) => value,
            Err(fault) => return Err(fault),
        };
        let width = match optional_unsigned(doc, "width") {
            Ok(value) => value,
            Err(fault) => return Err(fault),
        };
        let height = match optional_unsigned(doc, "height") {
            Ok(value) => value,
            Err(fault) => return Err(fault),
        };
        Ok(Thumbnail { url, width, height })
    }

    /// An optional member of `doc` that holds a thumbnail.
    pub open spec fn optional_of(doc: JsonView, name: Seq<char>) -> Result<
        Option<ThumbnailView>,
        SchemaFault,
    > {
        match optional_object_of(doc, name) {
            Err(fault) => Err(fault),
            Ok(None) => Ok(None),
            Ok(Some(value)) => match Thumbnail::decoded(value) {
                Ok(thumbnail) => Ok(Some(thumbnail)),
                Err(fault) => Err(fault),
            },
        }
    }

    /// Reads an optional member of `doc` that holds a thumbnail.
    pub fn optional(doc: &Json, name: &str) -> (r: Result<Option<Thumbnail>, SchemaError>)
        ensures
            outcome(r) == Thumbnail::optional_of(doc@, name@),
    {
        match optional_object(doc, name) {
            Err(fault) => Err(fault),
            Ok(None) => Ok(None),
            Ok(Some(value)) => match Thumbnail::from_json(value) {
                Ok(thumbnail) => Ok(Some(thumbnail)),
                Err(fault) => Err(fault),
            },
        }
    }
}

impl Thumbnails {
    /// What a document denotes as a set of thumbnails: each of the five
    /// renditions is optional.
    pub open spec fn decoded(doc: JsonView) -> Result<ThumbnailsView, SchemaFault> {
        let default = Thumbnail::optional_of(doc, "default"@);
        let medium = Thumbnail::optional_of(doc, "medium"@);
        let high = Thumbnail::optional_of(doc, "high"@);
        let standard = Thumbnail::optional_of(doc, "standard"@);
        let maxres = Thumbnail::optional_of(doc, "maxres"@);
        if !(doc is Object) {
            Err(not_an_object())
        } else if default is Err {
            Err(default->Err_0)
        } else if medium is Err {
            Err(medium->Err_0)
        } else if high is Err {
            Err(high->Err_0)
        } else if standard is Err {
            Err(standard->Err_0)
        } else if maxres is Err {
            Err(maxres->Err_0)
        } else {
            Ok(
                ThumbnailsView {
                    default: default->Ok_0,
                    medium: medium->Ok_0,
                    high: high->Ok_0,
                    standard: standard->Ok_0,
                    maxres: maxres->Ok_0,
                },
            )
        }
    }

    /// Reads a set of thumbnails from a document.
    pub fn from_json(doc: &Json) -> (r: Result<Thumbnails, SchemaError>)
        ensures
            outcome(r) == Thumbnails::decoded(doc@),
    {
        if !doc.is_object() {
            return Err(SchemaError::not_an_object());
        }
        let default = match Thumbnail::optional(doc, "default") {
            Ok(value) => value,
            Err(fault) => return Err(fault),
        };
        let medium = match Thumbnail::optional(doc, "medium") {
            Ok(value) => value,
            Err(fault) => return Err(fault),
        };
        let high = match Thumbnail::optional(doc, "high") {
            Ok(value) => value,
            Err(fault) => return Err(fault),
        };
        let standard = match Thumbnail::optional(doc, "standard") {
            Ok(value) => value,
            Err(fault) => return Err(fault),
        };
        let maxres = match Thumbnail::optional(doc, "maxres") {
            Ok(value) => value,
            Err(fault) => return Err(fault),
        };
        Ok(Thumbnails { default, medium, high, standard, maxres })
    }

    /// An optional member of `doc` that holds a set of thumbnails.
    pub open spec fn optional_of(doc: JsonView, name: Seq<char>) -> Result<
        Option<ThumbnailsView>,
        SchemaFault,
    > {
        match optional_object_of(doc, name) {
            Err(fault) => Err(fault),
            Ok(None) => Ok(None),
            Ok(Some(value)) => match Thumbnails::decoded(value) {
                Ok(thumbnails) => Ok(Some(thumbnails)),
                Err(fault) => Err(fault),
            },
        }
    }

    /// Reads an optional member of `doc` that holds a set of thumbnails.
    pub fn optional(doc: &Json, name: &str) -> (r: Result<Option<Thumbnails>, SchemaError>)
        ensures
            outcome(r) == Thumbnails::optional_of(doc@, name@),
    {
        match optional_object(doc, name) {
            Err(fault) => Err(fault),
            Ok(None) => Ok(None),
            Ok(Some(value)) => match Thumbnails::from_json(value) {
                Ok(thumbnails) => Ok(Some(thumbnails)),
                Err(fault) => Err(fault),
            },
        }
    }
}

impl Snippet {
    /// What a document denotes as a snippet: every member is optional.
    pub open spec fn decoded(doc: JsonView) -> Result<SnippetView, SchemaFault> {
        let published_at = optional_timestamp_of(doc, "publishedAt"@);
        let channel_id = optional_text_of(doc, "channelId"@);
        let title = optional_text_of(doc, "title"@);
        let description = optional_text_of(doc, "description"@);
        let thumbnails = Thumbnails::optional_of(doc, "thumbnails"@);
        let channel_title = optional_text_of(doc, "channelTitle"@);
        let category_id = optional_text_of(doc, "categoryId"@);
        let live_broadcast_content = optional_text_of(doc, "liveBroadcastContent"@);
        if !(doc is Object) {
            Err(not_an_object())
        } else if published_at is Err {
            Err(published_at->Err_0)
        } else if channel_id is Err {
            Err(channel_id->Err_0)
        } else if title is Err {
            Err(title->Err_0)
        } else if description is Err {
            Err(description->Err_0)
        } else if thumbnails is Err {
            Err(thumbnails->Err_0)
        } else if channel_title is Err {
            Err(channel_title->Err_0)
        } else if category_id is Err {
            Err(category_id->Err_0)
        } else if live_broadcast_content is Err {
            Err(live_broadcast_content->Err_0)
        } else {
            Ok(
                SnippetView {
                    published_at: published_at->Ok_0,
                    channel_id: channel_id->Ok_0,
                    title: title->Ok_0,
                    description: description->Ok_0,
                    thumbnails: thumbnails->Ok_0,
                    channel_title: channel_title->Ok_0,
                    category_id: category_id->Ok_0,
                    live_broadcast_content: live_broadcast_content->Ok_0,
                },
            )
        }
    }

    /// Reads a snippet from a document.
    pub fn from_json(doc: &Json) -> (r: Result<Snippet, SchemaError>)
        ensures
            outcome(r) == Snippet::decoded(doc@),
    {
        if !doc.is_object() {
            return Err(SchemaError::not_an_object());
        }
        let published_at = match optional_timestamp(doc, "publishedAt") {
            Ok(value) => value,
            Err(fault) => return Err(fault),
        };
        let channel_id = match optional_text(doc, "channelId") {
            Ok(value) => value,
            Err(fault) => return Err(fault),
        };
        let title = match optional_text(doc, "title") {
            Ok(value) => value,
            Err(fault) => return Err(fault),
        };
        let description = match optional_text(doc, "description") {
            Ok(value) => value,
            Err(fault) => return Err(fault),
        };
        let thumbnails = match Thumbnails::optional(doc, "thumbnails") {
            Ok(value) => value,
            Err(fault) => return Err(fault),
        };
        let channel_title = match optional_text(doc, "channelTitle") {
            Ok(value) => value,
            Err(fault) => return Err(fault),
        };
        let category_id = match optional_text(doc, "categoryId") {
            Ok(value) => value,
            Err(fault) => return Err(fault),
        };
        let live_broadcast_content = match optional_text(doc, "liveBroadcastContent") {
            Ok(value) => value,
            Err(fault) => return Err(fault),
        };
        Ok(
            Snippet {
                published_at,
                channel_id,
                title,
                description,
                thumbnails,
                channel_title,
                category_id,
                live_broadcast_content,
            },
        )
    }
}

impl ContentDetails {
    /// What a document denotes as content details: every member is optional.
    pub open spec fn decoded(doc: JsonView) -> Result<ContentDetailsView, SchemaFault> {
        let duration = optional_text_of(doc, "duration"@);
        let dimension = optional_text_of(doc, "dimension"@);
        let definition = optional_text_of(doc, "definition"@);
        if !(doc is Object) {
            Err(not_an_object())
        } else if duration is Err {
            Err(duration->Err_0)
        } else if dimension is Err {
            Err(dimension->Err_0)
        } else if definition is Err {
            Err(definition->Err_0)
        } else {
            Ok(
                ContentDetailsView {
                    duration: duration->Ok_0,
                    dimension: dimension->Ok_0,
                    definition: definition->Ok_0,
                },
            )
        }
    }

    /// Reads content details from a document.
    pub fn from_json(doc: &Json) -> (r: Result<ContentDetails, SchemaError>)
        ensures
            outcome(r) == ContentDetails::decoded(doc@),
    {
        if !doc.is_object() {
            return Err(SchemaError::not_an_object());
        }
        let duration = match optional_text(doc, "duration") {
            Ok(value) => value,
            Err(fault) => return Err(fault),
        };
        let dimension = match optional_text(doc, "dimension") {
            Ok(value) => value,
            Err(fault) => return Err(fault),
        };
        let definition = match optional_text(doc, "definition") {
            Ok(value) => value,
            Err(fault) => return Err(fault),
        };
        Ok(ContentDetails { duration, dimension, definition })
    }
}

impl VideoResult {
    /// What a document denotes as a video: `kind`, `etag`, `id`, `snippet`
    /// and `contentDetails` are all required.
    pub open spec fn decoded(doc: JsonView) -> Result<VideoResultView, SchemaFault> {
        let kind = required_text_of(doc, "kind"@);
        let etag = required_text_of(doc, "etag"@);
        let id = required_text_of(doc, "id"@);
        let snippet = and_then(
            required_object_of(doc, "snippet"@),
            |o: JsonView| Snippet::decoded(o),
        );
        let content_details = and_then(
            required_object_of(doc, "contentDetails"@),
            |o: JsonView| ContentDetails::decoded(o),
        );
        if !(doc is Object) {
            Err(not_an_object())
        } else if kind is Err {
            Err(kind->Err_0)
        } else if etag is Err {
            Err(etag->Err_0)
        } else if id is Err {
            Err(id->Err_0)
        } else if snippet is Err {
            Err(snippet->Err_0)
        } else if content_details is Err {
            Err(content_details->Err_0)
        } else {
            Ok(
                VideoResultView {
                    kind: kind->Ok_0,
                    etag: etag->Ok_0,
                    id: id->Ok_0,
                    snippet: snippet->Ok_0,
                    content_details: content_details->Ok_0,
                },
            )
        }
    }

    /// Reads a video from a document.
    pub fn from_json(doc: &Json) -> (r: Result<VideoResult, SchemaError>)
        ensures
            outcome(r) == VideoResult::decoded(doc@),
    {
        if !doc.is_object() {
            return Err(SchemaError::not_an_object());
        }
        let kind = match required_text(doc, "kind") {
            Ok(value) => value,
            Err(fault) => return Err(fault),
        };
        let etag = match required_text(doc, "etag") {
            Ok(value) => value,
            Err(fault) => return Err(fault),
        };
        let id = match required_text(doc, "id") {
            Ok(value) => value,
            Err(fault) => return Err(fault),
        };
        let snippet = match required_object(doc, "snippet") {
            Ok(value) => match Snippet::from_json(value) {
                Ok(snippet) => snippet,
                Err(fault) => return Err(fault),
            },
            Err(fault) => return Err(fault),
        };
        let content_details = match required_object(doc, "contentDetails") {
            Ok(value) => match ContentDetails::from_json(value) {
                Ok(details) => details,
                Err(fault) => return Err(fault),
            },
            Err(fault) => return Err(fault),
        };
        Ok(VideoResult { kind, etag, id, snippet, content_details })
    }

    /// What a sequence of documents denotes as videos: each of them in its
    /// place, or the fault of the first that denotes none.
    pub open spec fn decoded_each(docs: Seq<JsonView>) -> Result<Seq<VideoResultView>, SchemaFault>
        decreases docs.len(),
    {
        if docs.len() == 0 {
            Ok(Seq::empty())
        } else {
            match VideoResult::decoded_each(docs.drop_last()) {
                Err(fault) => Err(fault),
                Ok(front) => match VideoResult::decoded(docs.last()) {
                    Err(fault) => Err(fault),
                    Ok(video) => Ok(front.push(video)),
                },
            }
        }
    }

    /// A fault among the first `n` documents is the fault of them all.
    pub proof fn lemma_fault_stays(docs: Seq<JsonView>, n: int)
        requires
            0 <= n <= docs.len(),
            VideoResult::decoded_each(docs.take(n)) is Err,
        ensures
            VideoResult::decoded_each(docs) == VideoResult::decoded_each(docs.take(n)),
        decreases docs.len() - n,
    {
        if n == docs.len() {
            assert(docs.take(n) =~= docs);
        } else {
            assert(docs.take(n + 1).drop_last() =~= docs.take(n));
            VideoResult::lemma_fault_stays(docs, n + 1);
        }
    }

    /// Reads a video from each of the documents, in their order, and stops
    /// at the first that denotes none.
    pub fn each_from_json(docs: &Vec<Json>) -> (r: Result<Vec<VideoResult>, SchemaError>)
        ensures
            outcome(r) == VideoResult::decoded_each(Json::Array(*docs)@->Array_0),
    {
        let ghost all = Json::Array(*docs)@->Array_0;
        proof {
            Json::Array(*docs).lemma_array_view();
            assert(all.take(0) =~= Seq::<JsonView>::empty());
        }
        let mut videos: Vec<VideoResult> = Vec::new();
        let mut i: usize = 0;
        assert(videos.deep_view() =~= Seq::<VideoResultView>::empty());
        while i < docs.len()
            invariant
                i <= docs.len(),
                all == Json::Array(*docs)@->Array_0,
                all.len() == docs.len(),
                forall|k: int| 0 <= k < docs.len() ==> all[k] == (#[trigger] docs[k])@,
                VideoResult::decoded_each(all.take(i as int)) == Ok::<
                    Seq<VideoResultView>,
                    SchemaFault,
                >(videos.deep_view()),
            decreases docs.len() - i,
        {
            proof {
                assert(all.take(i + 1).drop_last() =~= all.take(i as int));
                assert(all.take(i + 1).last() == all[i as int]);
            }
            match VideoResult::from_json(&docs[i]) {
                Err(fault) => {
                    proof {
                        assert(VideoResult::decoded_each(all.take(i + 1)) == Err::<
                            Seq<VideoResultView>,
                            SchemaFault,
                        >(fault@));
                        VideoResult::lemma_fault_stays(all, i + 1);
                    }
                    return Err(fault);
                },
                Ok(video) => {
                    let ghost before = videos.deep_view();
                    videos.push(video);
                    assert(videos.deep_view() =~= before.push(video@));
                },
            }
            i += 1;
        }
        proof {
            assert(all.take(i as int) =~= all);
        }
        Ok(videos)
    }
}

impl PageInfo {
    /// What a document denotes as page information: `totalResults` and
    /// `resultsPerPage` are both required.
    pub open spec fn decoded(doc: JsonView) -> Result<PageInfo, SchemaFault> {
        let total_results = required_integer_of(doc, "totalResults"@);
        let results_per_page = required_integer_of(doc, "resultsPerPage"@);
        if !(doc is Object) {
            Err(not_an_object())
        } else if total_results is Err {
            Err(total_results->Err_0)
        } else if results_per_page is Err {
            Err(results_per_page->Err_0)
        } else {
            Ok(
                PageInfo {
                    total_results: total_results->Ok_0,
                    results_per_page: results_per_page->Ok_0,
                },
            )
        }
    }

    /// Reads page information from a document.
    pub fn from_json(doc: &Json) -> (r: Result<PageInfo, SchemaError>)
        ensures
            outcome(r) == PageInfo::decoded(doc@),
    {
        if !doc.is_object() {
            return Err(SchemaError::not_an_object());
        }
        let total_results = match required_integer(doc, "totalResults") {
            Ok(value) => value,
            Err(fault) => return Err(fault),
        };
        let results_per_page = match required_integer(doc, "resultsPerPage") {
            Ok(value) => value,
            Err(fault) => return Err(fault),
        };
        Ok(PageInfo { total_results, results_per_page })
    }
}

impl Response {
    /// What a document denotes as an answer: `kind`, `etag`, `pageInfo` and
    /// `items` are required, the two page tokens are optional.
    pub open spec fn decoded(doc: JsonView) -> Result<ResponseView, SchemaFault> {
        let kind = required_text_of(doc, "kind"@);
        let etag = required_text_of(doc, "etag"@);
        let next_page_token = optional_text_of(doc, "nextPageToken"@);
        let prev_page_token = optional_text_of(doc, "prevPageToken"@);
        let page_info = and_then(
            required_object_of(doc, "pageInfo"@),
            |o: JsonView| PageInfo::decoded(o),
        );
        let items = and_then(
            required_array_of(doc, "items"@),
            |a: Seq<JsonView>| VideoResult::decoded_each(a),
        );
        if !(doc is Object) {
            Err(not_an_object())
        } else if kind is Err {
            Err(kind->Err_0)
        } else if etag is Err {
            Err(etag->Err_0)
        } else if next_page_token is Err {
            Err(next_page_token->Err_0)
        } else if prev_page_token is Err {
            Err(prev_page_token->Err_0)
        } else if page_info is Err {
            Err(page_info->Err_0)
        } else if items is Err {
            Err(items->Err_0)
        } else {
            Ok(
                ResponseView {
                    kind: kind->Ok_0,
                    etag: etag->Ok_0,
                    next_page_token: next_page_token->Ok_0,
                    prev_page_token: prev_page_token->Ok_0,
                    page_info: page_info->Ok_0,
                    items: items->Ok_0,
                },
            )
        }
    }

    /// What the outcome of parsing a body denotes as an answer, `None`
    /// standing for a body that is not a JSON document.
    pub open spec fn read(parsed: Option<JsonView>) -> Result<ResponseView, DiagnosticView> {
        match parsed {
            None => Err(DiagnosticView::Syntax),
            Some(doc) => match Response::decoded(doc) {
                Ok(response) => Ok(response),
                Err(fault) => Err(DiagnosticView::Schema(fault)),
            },
        }
    }

    /// What a body denotes as an answer.
    pub open spec fn answer(body: Seq<char>) -> Result<ResponseView, DiagnosticView> {
        Response::read(json_text(body))
    }

    /// The result of a lookup whose body denotes `read`: the answer, or the
    /// failure that carries the body and the diagnostic.
    pub open spec fn result_of(
        body: Seq<char>,
        read: Result<ResponseView, DiagnosticView>,
    ) -> Result<ResponseView, ErrorView> {
        match read {
            Ok(response) => Ok(response),
            Err(source) => Err(ErrorView::Deserialization { string: body, source }),
        }
    }

    /// Reads the answer from a body that has been parsed. Every failure
    /// carries the body as it came.
    pub fn from_parsed(body: String, parsed: Result<Json, JsonError>) -> (r: Result<
        Response,
        Error,
    >)
        ensures
            outcome(r) == Response::result_of(
                body@,
                Response::read(
                    match parsed {
                        Ok(doc) => Some(doc@),
                        Err(_) => None,
                    },
                ),
            ),
            parsed matches Err(cause) ==> r matches Err(
                Error::Deserialization { string: _, source: Diagnostic::Syntax(kept) },
            ) && kept == cause,
    {
        match parsed {
            Err(cause) => Err(
                Error::Deserialization { string: body, source: Diagnostic::Syntax(cause) },
            ),
            Ok(doc) => match Response::from_json(&doc) {
                Ok(response) => Ok(response),
                Err(fault) => Err(
                    Error::Deserialization { string: body, source: Diagnostic::Schema(fault) },
                ),
            },
        }
    }

    /// Reads the answer from a body.
    pub fn from_body(body: String) -> (r: Result<Response, Error>)
        ensures
            outcome(r) == Response::result_of(body@, Response::answer(body@)),
    {
        let parsed = Json::parse(body.as_str());
        Response::from_parsed(body, parsed)
    }

    /// Reads an answer from a document.
    pub fn from_json(doc: &Json) -> (r: Result<Response, SchemaError>)
        ensures
            outcome(r) == Response::decoded(doc@),
    {
        if !doc.is_object() {
            return Err(SchemaError::not_an_object());
        }
        let kind = match required_text(doc, "kind") {
            Ok(value) => value,
            Err(fault) => return Err(fault),
        };
        let etag = match required_text(doc, "etag") {
            Ok(value) => value,
            Err(fault) => return Err(fault),
        };
        let next_page_token = match optional_text(doc, "nextPageToken") {
            Ok(value) => value,
            Err(fault) => return Err(fault),
        };
        let prev_page_token = match optional_text(doc, "prevPageToken") {
            Ok(value) => value,
            Err(fault) => return Err(fault),
        };
        let page_info = match required_object(doc, "pageInfo") {
            Ok(value) => match PageInfo::from_json(value) {
                Ok(info) => info,
                Err(fault) => return Err(fault),
            },
            Err(fault) => return Err(fault),
        };
        let items = match required_array(doc, "items") {
            Ok(docs) => match VideoResult::each_from_json(docs) {
                Ok(videos) => videos,
                Err(fault) => return Err(fault),
            },
            Err(fault) => return Err(fault),
        };
        Ok(Response { kind, etag, next_page_token, prev_page_token, page_info, items })
    }
}

/// An optional thumbnail is what the member holds.
pub open spec fn holds_thumbnail(
    doc: JsonView,
    name: Seq<char>,
    value: Option<ThumbnailView>,
) -> bool {
    match value {
        Some(thumbnail) => doc.member(name) matches Some(held) && Thumbnail::decoded(held) == Ok::<
            ThumbnailView,
            SchemaFault,
        >(thumbnail),
        None => present(doc, name) is None,
    }
}

/// An optional set of thumbnails is what the member holds.
pub open spec fn holds_thumbnails(
    doc: JsonView,
    name: Seq<char>,
    value: Option<ThumbnailsView>,
) -> bool {
    match value {
        Some(thumbnails) => doc.member(name) matches Some(held) && Thumbnails::decoded(held)
            == Ok::<ThumbnailsView, SchemaFault>(thumbnails),
        None => present(doc, name) is None,
    }
}

/// A thumbnail read from a document holds what the document holds: the
/// text of `url`, and of `width` and `height` the number that is there or
/// nothing where there is none.
pub proof fn lemma_thumbnail_preserved(doc: JsonView, value: ThumbnailView)
    requires
        Thumbnail::decoded(doc) == Ok::<ThumbnailView, SchemaFault>(value),
    ensures
        doc.member("url"@) == Some(JsonView::Text(value.url)),
        holds_unsigned(doc, "width"@, value.width),
        holds_unsigned(doc, "height"@, value.height),
{
}

/// Thumbnails read from a document hold each rendition that the document
/// holds, and nothing for one that it lacks.
pub proof fn lemma_thumbnails_preserved(doc: JsonView, value: ThumbnailsView)
    requires
        Thumbnails::decoded(doc) == Ok::<ThumbnailsView, SchemaFault>(value),
    ensures
        holds_thumbnail(doc, "default"@, value.default),
        holds_thumbnail(doc, "medium"@, value.medium),
        holds_thumbnail(doc, "high"@, value.high),
        holds_thumbnail(doc, "standard"@, value.standard),
        holds_thumbnail(doc, "maxres"@, value.maxres),
{
}

/// A snippet read from a document holds every member that the document
/// holds, and nothing for one that it lacks.
pub proof fn lemma_snippet_preserved(doc: JsonView, value: SnippetView)
    requires
        Snippet::decoded(doc) == Ok::<SnippetView, SchemaFault>(value),
    ensures
        holds_timestamp(doc, "publishedAt"@, value.published_at),
        holds_text(doc, "channelId"@, value.channel_id),
        holds_text(doc, "title"@, value.title),
        holds_text(doc, "description"@, value.description),
        holds_thumbnails(doc, "thumbnails"@, value.thumbnails),
        holds_text(doc, "channelTitle"@, value.channel_title),
        holds_text(doc, "categoryId"@, value.category_id),
        holds_text(doc, "liveBroadcastContent"@, value.live_broadcast_content),
{
}

/// Content details read from a document hold every member that the
/// document holds, and nothing for one that it lacks.
pub proof fn lemma_content_details_preserved(doc: JsonView, value: ContentDetailsView)
    requires
        ContentDetails::decoded(doc) == Ok::<ContentDetailsView, SchemaFault>(value),
    ensures
        holds_text(doc, "duration"@, value.duration),
        holds_text(doc, "dimension"@, value.dimension),
        holds_text(doc, "definition"@, value.definition),
{
}

/// Page information read from a document holds the two numbers that the
/// document holds.
pub proof fn lemma_page_info_preserved(doc: JsonView, value: PageInfo)
    requires
        PageInfo::decoded(doc) == Ok::<PageInfo, SchemaFault>(value),
    ensures
        doc.member("totalResults"@) matches Some(JsonView::Number { signed: Some(n), unsigned: _ })
            && n == value.total_results,
        doc.member("resultsPerPage"@) matches Some(
            JsonView::Number { signed: Some(n), unsigned: _ },
        ) && n == value.results_per_page,
{
}

/// A video read from a document holds the three texts that the document
/// holds, and the snippet and the content details that its two objects
/// denote.
pub proof fn lemma_video_preserved(doc: JsonView, value: VideoResultView)
    requires
        VideoResult::decoded(doc) == Ok::<VideoResultView, SchemaFault>(value),
    ensures
        doc.member("kind"@) == Some(JsonView::Text(value.kind)),
        doc.member("etag"@) == Some(JsonView::Text(value.etag)),
        doc.member("id"@) == Some(JsonView::Text(value.id)),
        doc.member("snippet"@) matches Some(held) && Snippet::decoded(held) == Ok::<
            SnippetView,
            SchemaFault,
        >(value.snippet),
        doc.member("contentDetails"@) matches Some(held) && ContentDetails::decoded(held) == Ok::<
            ContentDetailsView,
            SchemaFault,
        >(value.content_details),
{
}

/// Videos read from a sequence of documents are as many as the documents,
/// and each is what the document in its place denotes.
pub proof fn lemma_videos_in_order(docs: Seq<JsonView>, values: Seq<VideoResultView>)
    requires
        VideoResult::decoded_each(docs) == Ok::<Seq<VideoResultView>, SchemaFault>(values),
    ensures
        values.len() == docs.len(),
        forall|i: int|
            0 <= i < docs.len() ==> VideoResult::decoded(#[trigger] docs[i]) == Ok::<
                VideoResultView,
                SchemaFault,
            >(values[i]),
    decreases docs.len(),
{
    if docs.len() > 0 {
        let front = VideoResult::decoded_each(docs.drop_last())->Ok_0;
        lemma_videos_in_order(docs.drop_last(), front);
        assert forall|i: int| 0 <= i < docs.len() implies VideoResult::decoded(#[trigger] docs[i])
            == Ok::<VideoResultView, SchemaFault>(values[i]) by {
            if i < docs.len() - 1 {
                assert(docs[i] == docs.drop_last()[i]);
            }
        }
    }
}

/// An answer read from a document holds every member that the document
/// holds, nothing for a page token that it lacks, and its videos in the
/// order of the document.
pub proof fn lemma_response_preserved(doc: JsonView, value: ResponseView)
    requires
        Response::decoded(doc) == Ok::<ResponseView, SchemaFault>(value),
    ensures
        doc.member("kind"@) == Some(JsonView::Text(value.kind)),
        doc.member("etag"@) == Some(JsonView::Text(value.etag)),
        holds_text(doc, "nextPageToken"@, value.next_page_token),
        holds_text(doc, "prevPageToken"@, value.prev_page_token),
        doc.member("pageInfo"@) matches Some(held) && PageInfo::decoded(held) == Ok::<
            PageInfo,
            SchemaFault,
        >(value.page_info),
        doc.member("items"@) matches Some(JsonView::Array(docs)) && docs.len() == value.items.len()
            && forall|i: int|
            0 <= i < docs.len() ==> VideoResult::decoded(#[trigger] docs[i]) == Ok::<
                VideoResultView,
                SchemaFault,
            >(value.items[i]),
{
    let docs = doc.member("items"@)->Some_0->Array_0;
    lemma_videos_in_order(docs, value.items);
}

/// The names of the members that an answer cannot lack.
pub open spec fn required_of_response(name: Seq<char>) -> bool {
    name == "kind"@ || name == "etag"@ || name == "pageInfo"@ || name == "items"@
}

/// The names of the members that a video cannot lack.
pub open spec fn required_of_video(name: Seq<char>) -> bool {
    name == "kind"@ || name == "etag"@ || name == "id"@ || name == "snippet"@ || name
        == "contentDetails"@
}

/// A document that lacks a required member of an answer denotes no answer.
pub proof fn lemma_response_needs(doc: JsonView, name: Seq<char>)
    requires
        required_of_response(name),
        doc.member(name) is None,
    ensures
        Response::decoded(doc) is Err,
{
}

/// A document that lacks a required member of a video denotes no video.
pub proof fn lemma_video_needs(doc: JsonView, name: Seq<char>)
    requires
        required_of_video(name),
        doc.member(name) is None,
    ensures
        VideoResult::decoded(doc) is Err,
{
}

/// Documents of which one denotes no video denote no sequence of videos.
pub proof fn lemma_videos_need_each(docs: Seq<JsonView>, i: int)
    requires
        0 <= i < docs.len(),
        VideoResult::decoded(docs[i]) is Err,
    ensures
        VideoResult::decoded_each(docs) is Err,
    decreases docs.len(),
{
    if i < docs.len() - 1 {
        lemma_videos_need_each(docs.drop_last(), i);
    }
}

/// A body whose document lacks a required member, at the top or in one of
/// its items, gives the failure to deserialize, which carries the body:
/// never an answer with the member left out.
pub proof fn lemma_incomplete_body_fails(body: Seq<char>, doc: JsonView, name: Seq<char>)
    requires
        json_text(body) == Some(doc),
        ({
            ||| required_of_response(name) && doc.member(name) is None
            ||| doc.member("items"@) matches Some(JsonView::Array(docs)) && exists|i: int|
                0 <= i < docs.len() && required_of_video(name) && (#[trigger] docs[i]).member(name)
                    is None
        }),
    ensures
        Response::result_of(body, Response::answer(body)) matches Err(
            ErrorView::Deserialization { string, source },
        ) && string == body && source is Schema,
{
    if !(required_of_response(name) && doc.member(name) is None) {
        let docs = doc.member("items"@)->Some_0->Array_0;
        let i = choose|i: int|
            0 <= i < docs.len() && required_of_video(name) && (#[trigger] docs[i]).member(name)
                is None;
        lemma_video_needs(docs[i], name);
        lemma_videos_need_each(docs, i);
    }
}

/// A body that is not a JSON document gives the failure to deserialize,
/// which carries the body as it came.
pub proof fn lemma_malformed_body_fails(body: Seq<char>)
    requires
        json_text(body) is None,
    ensures
        Response::result_of(body, Response::answer(body)) == Err::<ResponseView, ErrorView>(
            ErrorView::Deserialization { string: body, source: DiagnosticView::Syntax },
        ),
{
}

} // verus!
