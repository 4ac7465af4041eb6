//! The parameters of a lookup and the query string that carries them.
//!
//! The query string is written by `serde_urlencoded`. What it writes is the
//! `application/x-www-form-urlencoded` form of the parameters, which
//! [`encoded_pairs`] states.

use crate::ApiKey;
use serde_urlencoded::ser::Error as QueryError;
use vstd::prelude::*;
use vstd::utf8::encode_utf8;

verus! {

/// `serde_urlencoded::ser::Error`, carried as it comes.
#[verifier::external_type_specification]
#[verifier::external_body]
pub struct ExQueryError(QueryError);

/// The bytes that the encoding leaves as they are: the ASCII letters and
/// digits, and `*`, `-`, `.`, `_`.
pub open spec fn is_unreserved(byte: u8) -> bool {
    ||| byte == 0x2A
    ||| byte == 0x2D
    ||| byte == 0x2E
    ||| byte == 0x5F
    ||| 0x30 <= byte <= 0x39
    ||| 0x41 <= byte <= 0x5A
    ||| 0x61 <= byte <= 0x7A
}

/// The hexadecimal digit, in upper case, of a number below 16.
pub open spec fn hex_digit(n: u8) -> char {
    if n < 10 {
        (0x30 + n) as u8 as char
    } else {
        (0x37 + n) as u8 as char
    }
}

/// One byte, encoded: itself where it is unreserved, `+` for a space, and
/// else `%` and its two hexadecimal digits.
pub open spec fn encoded_byte(byte: u8) -> Seq<char> {
    if is_unreserved(byte) {
        seq![byte as char]
    } else if byte == 0x20 {
        seq!['+']
    } else {
        seq!['%', hex_digit(byte / 16), hex_digit(byte % 16)]
    }
}

/// A sequence of bytes, encoded byte by byte.
pub open spec fn encoded_bytes(bytes: Seq<u8>) -> Seq<char>
    decreases bytes.len(),
{
    if bytes.len() == 0 {
        Seq::empty()
    } else {
        encoded_bytes(bytes.drop_last()) + encoded_byte(bytes.last())
    }
}

/// A text, encoded: the encoding of its UTF-8 bytes.
pub open spec fn encoded_text(text: Seq<char>) -> Seq<char> {
    encoded_bytes(encode_utf8(text))
}

/// A name and its value, encoded, with `=` between them.
pub open spec fn encoded_pair(pair: (Seq<char>, Seq<char>)) -> Seq<char> {
    encoded_text(pair.0) + seq!['='] + encoded_text(pair.1)
}

/// A sequence of pairs, each encoded, with `&` between one and the next.
pub open spec fn encoded_pairs(pairs: Seq<(Seq<char>, Seq<char>)>) -> Seq<char>
    decreases pairs.len(),
{
    if pairs.len() == 0 {
        Seq::empty()
    } else if pairs.len() == 1 {
        encoded_pair(pairs[0])
    } else {
        encoded_pairs(pairs.drop_last()) + seq!['&'] + encoded_pair(pairs.last())
    }
}

/// `serde_urlencoded::to_string` on a sequence of pairs of texts, which it
/// always takes: it refuses other shapes of input, and no text. It writes
/// each name and value as `form_urlencoded::byte_serialize` encodes their
/// UTF-8 bytes, `=` between the two, `&` before every pair but the first.
#[verifier::external_body]
fn urlencode(pairs: &Vec<(String, String)>) -> (r: Result<String, QueryError>)
    ensures
        r is Ok,
        r matches Ok(query) ==> query@ == encoded_pairs(pairs.deep_view()),
{
    serde_urlencoded::to_string(pairs)
}

/// The parameters of a lookup: the key, the parts of each video that are
/// asked for, joined by commas, and the identifier of the video.
#[derive(Debug, Clone)]
pub struct VideosData {
    pub key: ApiKey,
    pub part: String,
    pub id: Option<String>,
}

/// The mathematical value of [`VideosData`].
pub ghost struct VideosDataView {
    pub key: Seq<char>,
    pub part: Seq<char>,
    pub id: Option<Seq<char>>,
}

impl View for VideosData {
    type V = VideosDataView;

    open spec fn view(&self) -> VideosDataView {
        VideosDataView { key: self.key@, part: self.part@, id: self.id.deep_view() }
    }
}

impl VideosDataView {
    /// The parameters as pairs of a name and a value, in the order in which
    /// the query carries them. An absent identifier has no pair.
    pub open spec fn pairs(self) -> Seq<(Seq<char>, Seq<char>)> {
        let fixed = seq![("key"@, self.key), ("part"@, self.part)];
        match self.id {
            Some(id) => fixed.push(("id"@, id)),
            None => fixed,
        }
    }

    /// The query string of the parameters.
    pub open spec fn query(self) -> Seq<char> {
        encoded_pairs(self.pairs())
    }
}

impl VideosData {
    /// The parts of a video that every lookup asks for.
    pub const PART: &'static str = "snippet,contentDetails";

    /// The parameters of a lookup with the given key: the fixed parts and
    /// no identifier.
    pub fn new(key: ApiKey) -> (r: VideosData)
        ensures
            r@ == (VideosDataView { key: key@, part: VideosData::PART@, id: None }),
    {
        VideosData { key, part: VideosData::PART.to_owned(), id: None }
    }

    /// The same parameters with the given identifier, which takes the place
    /// of an earlier one.
    pub fn with_id(self, id: &str) -> (r: VideosData)
        ensures
            r@ == (VideosDataView { id: Some(id@), ..self@ }),
    {
        VideosData { key: self.key, part: self.part, id: Some(id.to_owned()) }
    }

    /// The parameters as pairs of a name and a value.
    pub fn pairs(&self) -> (r: Vec<(String, String)>)
        ensures
            r.deep_view() == self@.pairs(),
    {
        let mut pairs: Vec<(String, String)> = Vec::new();
        pairs.push(("key".to_owned(), self.key.0.clone()));
        pairs.push(("part".to_owned(), self.part.clone()));
        match &self.id {
            Some(id) => {
                pairs.push(("id".to_owned(), id.clone()));
            },
            None => {},
        }
        assert(pairs.deep_view() =~= self@.pairs());
        pairs
    }

    /// Writes the query string of the parameters. Parameters are texts,
    /// which the encoder always writes, so the result is never an error.
    pub fn encode(&self) -> (r: Result<String, QueryError>)
        ensures
            r is Ok,
            r matches Ok(query) ==> query@ == self@.query(),
    {
        let pairs = self.pairs();
        urlencode(&pairs)
    }
}

/// A character that the encoding leaves as it is.
pub open spec fn is_plain(c: char) -> bool {
    '\0' <= c <= '\u{7f}' && is_unreserved(c as u8)
}

/// A character that the encoding can write: a plain one, `+`, `%`, or a
/// hexadecimal digit.
pub open spec fn is_written(c: char) -> bool {
    is_plain(c) || c == '+' || c == '%'
}

/// Encoding goes through a concatenation of bytes.
pub proof fn lemma_encoded_bytes_concat(a: Seq<u8>, b: Seq<u8>)
    ensures
        encoded_bytes(a + b) == encoded_bytes(a) + encoded_bytes(b),
    decreases b.len(),
{
    if b.len() == 0 {
        assert(a + b =~= a);
        assert(encoded_bytes(a) + encoded_bytes(b) =~= encoded_bytes(a));
    } else {
        assert((a + b).drop_last() =~= a + b.drop_last());
        lemma_encoded_bytes_concat(a, b.drop_last());
        assert(encoded_bytes(a + b) =~= encoded_bytes(a) + encoded_bytes(b));
    }
}

/// Unreserved bytes are written as the characters that they are.
pub proof fn lemma_unreserved_bytes(bytes: Seq<u8>)
    requires
        forall|i: int| 0 <= i < bytes.len() ==> is_unreserved(#[trigger] bytes[i]),
    ensures
        encoded_bytes(bytes) == Seq::new(bytes.len(), |i: int| bytes[i] as char),
    decreases bytes.len(),
{
    if bytes.len() > 0 {
        lemma_unreserved_bytes(bytes.drop_last());
    }
    assert(encoded_bytes(bytes) =~= Seq::new(bytes.len(), |i: int| bytes[i] as char));
}

/// A text of plain characters is its own encoding.
pub proof fn lemma_plain_text(text: Seq<char>)
    requires
        forall|i: int| 0 <= i < text.len() ==> is_plain(#[trigger] text[i]),
    ensures
        encoded_text(text) == text,
{
    assert(vstd::utf8::is_ascii_chars(text));
    vstd::utf8::is_ascii_chars_encode_utf8(text);
    lemma_unreserved_bytes(encode_utf8(text));
    assert(encoded_text(text) =~= text);
}

/// The encoding of bytes holds no character but those that it can write.
pub proof fn lemma_encoded_bytes_written(bytes: Seq<u8>)
    ensures
        forall|i: int|
            0 <= i < encoded_bytes(bytes).len() ==> is_written(#[trigger] encoded_bytes(bytes)[i]),
    decreases bytes.len(),
{
    if bytes.len() > 0 {
        lemma_encoded_bytes_written(bytes.drop_last());
        let last = bytes.last();
        let high = last / 16;
        let low = last % 16;
        assert(is_written(hex_digit(high)) && is_written(hex_digit(low)));
        let front = encoded_bytes(bytes.drop_last());
        assert forall|i: int| 0 <= i < encoded_bytes(bytes).len() implies is_written(
            #[trigger] encoded_bytes(bytes)[i],
        ) by {
            if i < front.len() {
                assert(encoded_bytes(bytes)[i] == front[i]);
            } else {
                assert(encoded_bytes(bytes)[i] == encoded_byte(last)[i - front.len()]);
            }
        }
    }
}

/// An encoded text holds neither of the separators of a query, `&` and `=`.
pub proof fn lemma_no_separator(text: Seq<char>)
    ensures
        forall|i: int|
            0 <= i < encoded_text(text).len() ==> {
                &&& (#[trigger] encoded_text(text)[i]) != '&'
                &&& encoded_text(text)[i] != '='
            },
{
    lemma_encoded_bytes_written(encode_utf8(text));
    assert forall|i: int| 0 <= i < encoded_text(text).len() implies {
        &&& (#[trigger] encoded_text(text)[i]) != '&'
        &&& encoded_text(text)[i] != '='
    } by {
        assert(is_written(encoded_bytes(encode_utf8(text))[i]));
    }
}

/// The fixed parts, encoded: the comma between them is written as `%2C`.
pub proof fn lemma_encoded_part()
    ensures
        encoded_text(VideosData::PART@) == "snippet%2CcontentDetails"@,
{
    reveal_strlit("snippet,contentDetails");
    reveal_strlit("snippet%2CcontentDetails");
    reveal_strlit("snippet");
    reveal_strlit("contentDetails");
    let part = VideosData::PART@;
    let first = "snippet"@;
    let second = "contentDetails"@;
    let comma = seq![','];
    assert(part =~= first + comma + second);
    assert(vstd::utf8::is_ascii_chars(part));
    assert(vstd::utf8::is_ascii_chars(first));
    assert(vstd::utf8::is_ascii_chars(second));
    assert(vstd::utf8::is_ascii_chars(comma));
    vstd::utf8::is_ascii_chars_encode_utf8(part);
    vstd::utf8::is_ascii_chars_encode_utf8(first);
    vstd::utf8::is_ascii_chars_encode_utf8(second);
    vstd::utf8::is_ascii_chars_encode_utf8(comma);
    assert(encode_utf8(part) =~= encode_utf8(first) + encode_utf8(comma) + encode_utf8(second));
    lemma_encoded_bytes_concat(encode_utf8(first) + encode_utf8(comma), encode_utf8(second));
    lemma_encoded_bytes_concat(encode_utf8(first), encode_utf8(comma));
    lemma_plain_text(first);
    lemma_plain_text(second);
    assert(encode_utf8(comma) =~= seq![0x2Cu8]);
    assert(encode_utf8(comma).drop_last() =~= Seq::<u8>::empty());
    assert(encoded_bytes(encode_utf8(comma).drop_last()) =~= Seq::<char>::empty());
    assert(encoded_bytes(encode_utf8(comma)) =~= seq!['%', '2', 'C']);
    assert(encoded_text(part) =~= "snippet%2CcontentDetails"@);
}

/// The query of the parameters, written out: the key, then the parts, then
/// the identifier where there is one, each under its name.
pub proof fn lemma_query_written_out(data: VideosDataView)
    ensures
        data.query() == "key="@ + encoded_text(data.key) + "&part="@ + encoded_text(data.part)
            + match data.id {
            Some(id) => "&id="@ + encoded_text(id),
            None => Seq::empty(),
        },
{
    reveal_strlit("key");
    reveal_strlit("part");
    reveal_strlit("id");
    reveal_strlit("key=");
    reveal_strlit("&part=");
    reveal_strlit("&id=");
    lemma_plain_text("key"@);
    lemma_plain_text("part"@);
    lemma_plain_text("id"@);
    let fixed = seq![("key"@, data.key), ("part"@, data.part)];
    assert(fixed.drop_last() =~= seq![("key"@, data.key)]);
    assert(encoded_pairs(fixed.drop_last()) == encoded_pair(("key"@, data.key)));
    assert("key="@ =~= "key"@ + seq!['=']);
    assert("&part="@ =~= seq!['&'] + "part"@ + seq!['=']);
    assert("&id="@ =~= seq!['&'] + "id"@ + seq!['=']);
    assert(encoded_pairs(fixed) =~= "key="@ + encoded_text(data.key) + "&part="@ + encoded_text(
        data.part,
    ));
    match data.id {
        Some(id) => {
            assert(fixed.push(("id"@, id)).drop_last() =~= fixed);
            assert(data.query() =~= encoded_pairs(fixed) + "&id="@ + encoded_text(id));
        },
        None => {
            assert(data.query() =~= encoded_pairs(fixed) + Seq::<char>::empty());
        },
    }
}

/// Parameters without an identifier have no pair called `id`.
pub proof fn lemma_no_id_no_pair(data: VideosDataView)
    requires
        data.id is None,
    ensures
        forall|i: int| 0 <= i < data.pairs().len() ==> (#[trigger] data.pairs()[i]).0 != "id"@,
        data.query() == "key="@ + encoded_text(data.key) + "&part="@ + encoded_text(data.part),
{
    reveal_strlit("key");
    reveal_strlit("part");
    reveal_strlit("id");
    lemma_query_written_out(data);
    assert(data.query() =~= "key="@ + encoded_text(data.key) + "&part="@ + encoded_text(
        data.part,
    ));
    assert(data.pairs() =~= seq![("key"@, data.key), ("part"@, data.part)]);
    assert("key"@.len() != "id"@.len() && "part"@.len() != "id"@.len());
}

/// Parameters with an identifier have exactly one pair called `id`: the
/// last one, which holds the identifier.
pub proof fn lemma_one_id_pair(data: VideosDataView)
    requires
        data.id is Some,
    ensures
        data.pairs().len() == 3,
        data.pairs()[2] == ("id"@, data.id->Some_0),
        forall|i: int| 0 <= i < 2 ==> (#[trigger] data.pairs()[i]).0 != "id"@,
        data.query() == "key="@ + encoded_text(data.key) + "&part="@ + encoded_text(data.part)
            + "&id="@ + encoded_text(data.id->Some_0),
{
    reveal_strlit("key");
    reveal_strlit("part");
    reveal_strlit("id");
    lemma_query_written_out(data);
    assert("key"@.len() != "id"@.len() && "part"@.len() != "id"@.len());
}

/// The pieces of a text that lie between the occurrences of a separator.
/// A text without the separator is one piece.
pub open spec fn pieces(text: Seq<char>, separator: char) -> Seq<Seq<char>>
    decreases text.len(),
{
    if text.len() == 0 {
        seq![Seq::empty()]
    } else {
        let front = pieces(text.drop_last(), separator);
        if text.last() == separator {
            front.push(Seq::empty())
        } else {
            front.drop_last().push(front.last().push(text.last()))
        }
    }
}

/// Whether a piece of a query is a pair with the given name.
pub open spec fn is_named(piece: Seq<char>, name: Seq<char>) -> bool {
    (name + seq!['=']).is_prefix_of(piece)
}

/// A text has at least one piece.
pub proof fn lemma_pieces_exist(text: Seq<char>, separator: char)
    ensures
        pieces(text, separator).len() >= 1,
    decreases text.len(),
{
    if text.len() > 0 {
        lemma_pieces_exist(text.drop_last(), separator);
    }
}

/// A tail without the separator lengthens the last piece.
pub proof fn lemma_pieces_lengthened(head: Seq<char>, tail: Seq<char>, separator: char)
    requires
        forall|i: int| 0 <= i < tail.len() ==> tail[i] != separator,
    ensures
        pieces(head + tail, separator) == pieces(head, separator).drop_last().push(
            pieces(head, separator).last() + tail,
        ),
    decreases tail.len(),
{
    lemma_pieces_exist(head, separator);
    let before = pieces(head, separator);
    if tail.len() == 0 {
        assert(head + tail =~= head);
        assert(before.last() + tail =~= before.last());
        assert(before.drop_last().push(before.last()) =~= before);
    } else {
        let shorter = tail.drop_last();
        lemma_pieces_lengthened(head, shorter, separator);
        assert((head + tail).drop_last() =~= head + shorter);
        let front = pieces(head + shorter, separator);
        assert(front.drop_last() =~= before.drop_last());
        assert(front.last().push(tail.last()) =~= before.last() + tail);
    }
}

/// After a separator, a tail without the separator is a piece of its own.
pub proof fn lemma_pieces_joined(head: Seq<char>, tail: Seq<char>, separator: char)
    requires
        forall|i: int| 0 <= i < tail.len() ==> tail[i] != separator,
    ensures
        pieces(head + seq![separator] + tail, separator) == pieces(head, separator).push(tail),
{
    let cut = head + seq![separator];
    assert(cut.drop_last() =~= head);
    lemma_pieces_lengthened(cut, tail, separator);
    let before = pieces(head, separator);
    assert(before.push(Seq::empty()).drop_last() =~= before);
    assert(Seq::<char>::empty() + tail =~= tail);
}

/// The pairs of the query of the parameters, as they stand between the
/// `&` of the query string: the key, the parts, and the identifier where
/// there is one. No other piece is there, so a query without an identifier
/// has no pair called `id`, and one with an identifier has exactly one.
pub proof fn lemma_query_pieces(data: VideosDataView)
    ensures
        pieces(data.query(), '&') == match data.id {
            Some(id) => seq![
                "key="@ + encoded_text(data.key),
                "part="@ + encoded_text(data.part),
                "id="@ + encoded_text(id),
            ],
            None => seq!["key="@ + encoded_text(data.key), "part="@ + encoded_text(data.part)],
        },
        !is_named("key="@ + encoded_text(data.key), "id"@),
        !is_named("part="@ + encoded_text(data.part), "id"@),
        data.id matches Some(id) ==> is_named("id="@ + encoded_text(id), "id"@),
{
    reveal_strlit("id");
    reveal_strlit("key=");
    reveal_strlit("part=");
    reveal_strlit("id=");
    reveal_strlit("&part=");
    reveal_strlit("&id=");
    lemma_query_written_out(data);
    lemma_no_separator(data.key);
    lemma_no_separator(data.part);
    let key = "key="@ + encoded_text(data.key);
    let part = "part="@ + encoded_text(data.part);
    lemma_pieces_lengthened(Seq::empty(), key, '&');
    assert(Seq::<char>::empty() + key =~= key);
    assert(pieces(Seq::empty(), '&') =~= seq![Seq::<char>::empty()]);
    assert(pieces(key, '&') =~= seq![key]);
    lemma_pieces_joined(key, part, '&');
    assert(key + seq!['&'] + part =~= "key="@ + encoded_text(data.key) + "&part="@ + encoded_text(
        data.part,
    ));
    assert(pieces(key + seq!['&'] + part, '&') =~= seq![key, part]);
    assert(("id"@ + seq!['='])[0] != key[0]);
    assert(("id"@ + seq!['='])[0] != part[0]);
    match data.id {
        Some(id) => {
            lemma_no_separator(id);
            let last = "id="@ + encoded_text(id);
            lemma_pieces_joined(key + seq!['&'] + part, last, '&');
            assert(data.query() =~= key + seq!['&'] + part + seq!['&'] + last);
            assert(pieces(data.query(), '&') =~= seq![key, part, last]);
            assert("id"@ + seq!['='] =~= "id="@);
        },
        None => {
            assert(data.query() =~= key + seq!['&'] + part);
        },
    }
}

} // verus!
