//! The bytes in which articles and events are stored.
//!
//! An encoded entity is a header of 41 bytes and then two texts:
//!
//! | bytes      | content                                   |
//! |------------|-------------------------------------------|
//! | 0          | tag: 0 article, 1 creation, 2 update      |
//! | 1 to 16    | id, little-endian                         |
//! | 17 to 24   | version, little-endian                    |
//! | 25 to 32   | byte length of the title, little-endian   |
//! | 33 to 40   | byte length of the body, little-endian    |
//! | from 41    | the title, then the body, both in UTF-8   |
//!
//! Nothing may follow the body. Decoding accepts exactly the byte strings
//! that encoding produces, so the two are inverse to each other in both
//! directions.

use vstd::bytes::*;
use vstd::prelude::*;
use vstd::slice::*;
use vstd::utf8::*;

use crate::article::{Article, ArticleCreated, ArticleUpdated, ArticleView, ARTICLE_MAX_SIZE};
use crate::event::{ArticleEvent, Event, EventView};

verus! {

/// The number of bytes before the texts of a record: one for the tag, sixteen
/// for the id, eight for the version, and eight for the length of each text.
pub const HEADER_SIZE: usize = 41;

/// The tag of an encoded article.
pub const ARTICLE_TAG: u8 = 0;

/// The tag of an encoded creation event.
pub const CREATED_TAG: u8 = 1;

/// The tag of an encoded update event.
pub const UPDATED_TAG: u8 = 2;

/// What every encoded entity holds: a tag that says what it is, then the four
/// fields.
pub ghost struct Record {
    pub tag: u8,
    pub id: u128,
    pub version: u64,
    pub title: Seq<char>,
    pub body: Seq<char>,
}

/// The number of bytes that `text` takes in UTF-8.
pub open spec fn utf8_len(text: Seq<char>) -> nat {
    encode_utf8(text).len()
}

/// Whether the length of `text` in UTF-8 can be written into a record's
/// header. The text of every `String` qualifies.
pub open spec fn text_fits(text: Seq<char>) -> bool {
    utf8_len(text) <= u64::MAX
}

/// The bytes of a record: the tag, the id, the version, the byte length of
/// the title and that of the body (integers in little-endian order), then the
/// title and the body in UTF-8.
pub open spec fn record_bytes(record: Record) -> Seq<u8> {
    seq![record.tag] + spec_u128_to_le_bytes(record.id) + spec_u64_to_le_bytes(record.version)
        + spec_u64_to_le_bytes(utf8_len(record.title) as u64) + spec_u64_to_le_bytes(
        utf8_len(record.body) as u64,
    ) + encode_utf8(record.title) + encode_utf8(record.body)
}

/// The record that `bytes` encode, if they encode one: the header is whole,
/// the two lengths in it account for every byte after it, and both texts are
/// valid UTF-8.
pub open spec fn parse_record(bytes: Seq<u8>) -> Option<Record> {
    if bytes.len() < 41 {
        None
    } else {
        let title_len = spec_u64_from_le_bytes(bytes.subrange(25, 33));
        let body_len = spec_u64_from_le_bytes(bytes.subrange(33, 41));
        let title = bytes.subrange(41, 41 + title_len);
        let body = bytes.subrange(41 + title_len, bytes.len() as int);
        if 41 + title_len + body_len == bytes.len() && valid_utf8(title) && valid_utf8(body) {
            Some(
                Record {
                    tag: bytes[0],
                    id: spec_u128_from_le_bytes(bytes.subrange(1, 17)),
                    version: spec_u64_from_le_bytes(bytes.subrange(17, 25)),
                    title: decode_utf8(title),
                    body: decode_utf8(body),
                },
            )
        } else {
            None
        }
    }
}

/// Decoding the bytes of a record gives the record back.
pub proof fn lemma_parse_record_bytes(record: Record)
    requires
        text_fits(record.title),
        text_fits(record.body),
    ensures
        parse_record(record_bytes(record)) == Some(record),
        record_bytes(record).len() == 41 + utf8_len(record.title) + utf8_len(record.body),
{
    lemma_auto_spec_u64_to_from_le_bytes();
    lemma_auto_spec_u128_to_from_le_bytes();
    encode_utf8_valid_utf8(record.title);
    encode_utf8_valid_utf8(record.body);
    encode_utf8_decode_utf8(record.title);
    encode_utf8_decode_utf8(record.body);
    let bytes = record_bytes(record);
    let title_len = utf8_len(record.title) as int;
    assert(bytes.subrange(1, 17) =~= spec_u128_to_le_bytes(record.id));
    assert(bytes.subrange(17, 25) =~= spec_u64_to_le_bytes(record.version));
    assert(bytes.subrange(25, 33) =~= spec_u64_to_le_bytes(utf8_len(record.title) as u64));
    assert(bytes.subrange(33, 41) =~= spec_u64_to_le_bytes(utf8_len(record.body) as u64));
    assert(bytes.subrange(41, 41 + title_len) =~= encode_utf8(record.title));
    assert(bytes.subrange(41 + title_len, bytes.len() as int) =~= encode_utf8(record.body));
}

/// Bytes that decode to a record are the bytes of that record: no record has
/// two encodings.
pub proof fn lemma_record_bytes_parse(bytes: Seq<u8>)
    requires
        parse_record(bytes) is Some,
    ensures
        record_bytes(parse_record(bytes).unwrap()) == bytes,
        text_fits(parse_record(bytes).unwrap().title),
        text_fits(parse_record(bytes).unwrap().body),
{
    lemma_auto_spec_u64_to_from_le_bytes();
    lemma_auto_spec_u128_to_from_le_bytes();
    let title_len = spec_u64_from_le_bytes(bytes.subrange(25, 33));
    decode_utf8_encode_utf8(bytes.subrange(41, 41 + title_len));
    decode_utf8_encode_utf8(bytes.subrange(41 + title_len, bytes.len() as int));
}

/// The bytes of an article: its record under the article tag.
pub open spec fn article_bytes(article: ArticleView) -> Seq<u8> {
    record_bytes(
        Record {
            tag: ARTICLE_TAG,
            id: article.article_id,
            version: article.version,
            title: article.title,
            body: article.body,
        },
    )
}

/// The article that `bytes` encode, if they encode one.
pub open spec fn parse_article(bytes: Seq<u8>) -> Option<ArticleView> {
    match parse_record(bytes) {
        Some(record) => if record.tag == ARTICLE_TAG {
            Some(
                ArticleView {
                    article_id: record.id,
                    version: record.version,
                    title: record.title,
                    body: record.body,
                },
            )
        } else {
            None
        },
        None => None,
    }
}

/// The number of bytes that the encoded article takes.
pub open spec fn article_size(article: ArticleView) -> nat {
    41 + utf8_len(article.title) + utf8_len(article.body)
}

/// The bytes of an event: its record under the tag of its variant.
pub open spec fn event_bytes(event: EventView) -> Seq<u8> {
    match event {
        EventView::Created { article_id, version, title, body } => record_bytes(
            Record { tag: CREATED_TAG, id: article_id, version, title, body },
        ),
        EventView::Updated { article_id, version, title, body } => record_bytes(
            Record { tag: UPDATED_TAG, id: article_id, version, title, body },
        ),
    }
}

/// The event that `bytes` encode, if they encode one.
pub open spec fn parse_event(bytes: Seq<u8>) -> Option<EventView> {
    match parse_record(bytes) {
        Some(record) => if record.tag == CREATED_TAG {
            Some(
                EventView::Created {
                    article_id: record.id,
                    version: record.version,
                    title: record.title,
                    body: record.body,
                },
            )
        } else if record.tag == UPDATED_TAG {
            Some(
                EventView::Updated {
                    article_id: record.id,
                    version: record.version,
                    title: record.title,
                    body: record.body,
                },
            )
        } else {
            None
        },
        None => None,
    }
}

impl ArticleView {
    /// Whether the article can be encoded: the byte length of each text can
    /// be written into the header. Every `Article` qualifies.
    pub open spec fn encodable(self) -> bool {
        text_fits(self.title) && text_fits(self.body)
    }
}

impl EventView {
    /// Whether the event can be encoded: the byte length of each text can be
    /// written into the header. Every `Event` qualifies.
    pub open spec fn encodable(self) -> bool {
        match self {
            EventView::Created { title, body, .. } => text_fits(title) && text_fits(body),
            EventView::Updated { title, body, .. } => text_fits(title) && text_fits(body),
        }
    }
}

/// Encoding an article and decoding the bytes gives the article back, and the
/// bytes are as many as `article_size` says.
pub proof fn lemma_article_round_trip(article: ArticleView)
    requires
        article.encodable(),
    ensures
        parse_article(article_bytes(article)) == Some(article),
        article_bytes(article).len() == article_size(article),
{
    lemma_parse_record_bytes(
        Record {
            tag: ARTICLE_TAG,
            id: article.article_id,
            version: article.version,
            title: article.title,
            body: article.body,
        },
    );
}

/// Decoding bytes to an article and encoding it gives the bytes back.
pub proof fn lemma_article_bytes_round_trip(bytes: Seq<u8>)
    requires
        parse_article(bytes) is Some,
    ensures
        article_bytes(parse_article(bytes).unwrap()) == bytes,
        parse_article(bytes).unwrap().encodable(),
{
    lemma_record_bytes_parse(bytes);
}

/// Encoding an event of either variant and decoding the bytes gives the event
/// back.
pub proof fn lemma_event_round_trip(event: EventView)
    requires
        event.encodable(),
    ensures
        parse_event(event_bytes(event)) == Some(event),
{
    match event {
        EventView::Created { article_id, version, title, body } => {
            lemma_parse_record_bytes(
                Record { tag: CREATED_TAG, id: article_id, version, title, body },
            );
        },
        EventView::Updated { article_id, version, title, body } => {
            lemma_parse_record_bytes(
                Record { tag: UPDATED_TAG, id: article_id, version, title, body },
            );
        },
    }
}

/// Decoding bytes to an event and encoding it gives the bytes back.
pub proof fn lemma_event_bytes_round_trip(bytes: Seq<u8>)
    requires
        parse_event(bytes) is Some,
    ensures
        event_bytes(parse_event(bytes).unwrap()) == bytes,
        parse_event(bytes).unwrap().encodable(),
{
    lemma_record_bytes_parse(bytes);
}

/// No bytes are both an article and an event.
pub proof fn lemma_article_is_no_event(bytes: Seq<u8>)
    ensures
        !(parse_article(bytes) is Some && parse_event(bytes) is Some),
{
}

fn append_bytes(out: &mut Vec<u8>, bytes: &[u8])
    ensures
        final(out)@ == old(out)@ + bytes@,
{
    out.extend_from_slice(bytes);
}

fn encode_record(tag: u8, id: u128, version: u64, title: &String, body: &String) -> (out: Vec<u8>)
    ensures
        text_fits(title@),
        text_fits(body@),
        out@ == record_bytes(Record { tag, id, version, title: title@, body: body@ }),
        out@.len() == 41 + utf8_len(title@) + utf8_len(body@),
{
    let title_bytes = title.as_str().as_bytes();
    let body_bytes = body.as_str().as_bytes();
    let mut out: Vec<u8> = Vec::new();
    out.push(tag);
    append_bytes(&mut out, u128_to_le_bytes(id).as_slice());
    append_bytes(&mut out, u64_to_le_bytes(version).as_slice());
    append_bytes(&mut out, u64_to_le_bytes(title_bytes.len() as u64).as_slice());
    append_bytes(&mut out, u64_to_le_bytes(body_bytes.len() as u64).as_slice());
    append_bytes(&mut out, title_bytes);
    append_bytes(&mut out, body_bytes);
    proof {
        lemma_auto_spec_u64_to_from_le_bytes();
        lemma_auto_spec_u128_to_from_le_bytes();
    }
    out
}

fn decode_record(bytes: &[u8]) -> (decoded: Option<(u8, u128, u64, String, String)>)
    ensures
        match decoded {
            Some((tag, id, version, title, body)) => parse_record(bytes@) == Some(
                Record { tag, id, version, title: title@, body: body@ },
            ),
            None => parse_record(bytes@) is None,
        },
{
    if bytes.len() < HEADER_SIZE {
        return None;
    }
    let tag = bytes[0];
    let id = u128_from_le_bytes(slice_subrange(bytes, 1, 17));
    let version = u64_from_le_bytes(slice_subrange(bytes, 17, 25));
    let title_len = u64_from_le_bytes(slice_subrange(bytes, 25, 33));
    let body_len = u64_from_le_bytes(slice_subrange(bytes, 33, 41));
    let rest: usize = bytes.len() - HEADER_SIZE;
    if title_len > rest as u64 || body_len != rest as u64 - title_len {
        return None;
    }
    let title_end: usize = HEADER_SIZE + title_len as usize;
    let title = match String::from_utf8(slice_to_vec(slice_subrange(bytes, HEADER_SIZE, title_end))) {
        Ok(text) => text,
        Err(_) => {
            return None;
        },
    };
    let body = match String::from_utf8(slice_to_vec(slice_subrange(bytes, title_end, bytes.len()))) {
        Ok(text) => text,
        Err(_) => {
            return None;
        },
    };
    Some((tag, id, version, title, body))
}

impl Article {
    /// Encodes the article. Decoding the bytes gives the article back.
    pub fn to_bytes(&self) -> (bytes: Vec<u8>)
        ensures
            bytes@ == article_bytes(self@),
            bytes@.len() == article_size(self@),
            parse_article(bytes@) == Some(self@),
            self@.encodable(),
    {
        let bytes = encode_record(
            ARTICLE_TAG,
            self.article_id,
            self.version,
            &self.title,
            &self.body,
        );
        proof {
            lemma_article_round_trip(self@);
        }
        bytes
    }

    /// Decodes an article. Gives `None` exactly when the bytes encode no
    /// article. Encoding the article gives the bytes back.
    pub fn from_bytes(bytes: &[u8]) -> (decoded: Option<Article>)
        ensures
            match decoded {
                Some(article) => parse_article(bytes@) == Some(article@) && article_bytes(
                    article@,
                ) == bytes@,
                None => parse_article(bytes@) is None,
            },
    {
        proof {
            if parse_article(bytes@) is Some {
                lemma_article_bytes_round_trip(bytes@);
            }
        }
        match decode_record(bytes) {
            Some((tag, article_id, version, title, body)) => {
                if tag == ARTICLE_TAG {
                    Some(Article { article_id, version, title, body })
                } else {
                    None
                }
            },
            None => None,
        }
    }

    /// Whether the encoded article is short enough for the snapshot store.
    pub fn fits_snapshot(&self) -> (fits: bool)
        ensures
            fits == (article_size(self@) <= ARTICLE_MAX_SIZE),
    {
        let room: usize = ARTICLE_MAX_SIZE - HEADER_SIZE;
        let title_len = self.title.as_str().as_bytes().len();
        let body_len = self.body.as_str().as_bytes().len();
        title_len <= room && body_len <= room - title_len
    }
}

impl Event {
    /// Encodes the event. Decoding the bytes gives the event back.
    pub fn to_bytes(&self) -> (bytes: Vec<u8>)
        ensures
            bytes@ == event_bytes(self@),
            parse_event(bytes@) == Some(self@),
            self@.encodable(),
    {
        let bytes = match self {
            Event::ArticleEvent(ArticleEvent::ArticleCreated(created)) => encode_record(
                CREATED_TAG,
                created.article_id,
                created.version,
                &created.title,
                &created.body,
            ),
            Event::ArticleEvent(ArticleEvent::ArticleUpdated(updated)) => encode_record(
                UPDATED_TAG,
                updated.article_id,
                updated.version,
                &updated.title,
                &updated.body,
            ),
        };
        proof {
            lemma_event_round_trip(self@);
        }
        bytes
    }

    /// Decodes an event. Gives `None` exactly when the bytes encode no
    /// event. Encoding the event gives the bytes back.
    pub fn from_bytes(bytes: &[u8]) -> (decoded: Option<Event>)
        ensures
            match decoded {
                Some(event) => parse_event(bytes@) == Some(event@) && event_bytes(event@)
                    == bytes@,
                None => parse_event(bytes@) is None,
            },
    {
        proof {
            if parse_event(bytes@) is Some {
                lemma_event_bytes_round_trip(bytes@);
            }
        }
        match decode_record(bytes) {
            Some((tag, article_id, version, title, body)) => {
                if tag == CREATED_TAG {
                    Some(
                        Event::ArticleEvent(
                            ArticleEvent::ArticleCreated(
                                ArticleCreated { article_id, version, title, body },
                            ),
                        ),
                    )
                } else if tag == UPDATED_TAG {
                    Some(
                        Event::ArticleEvent(
                            ArticleEvent::ArticleUpdated(
                                ArticleUpdated { article_id, version, title, body },
                            ),
                        ),
                    )
                } else {
                    None
                }
            },
            None => None,
        }
    }
}

} // verus!
