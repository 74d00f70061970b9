//! The stored form of tabs, bookmarks and history entries: one row each,
//! with instants written as RFC 3339 text and tags as a JSON list. The
//! program reads and writes the rows; what a row means is decided here.

use crate::domain::entities::{
    Bookmark,
    BookmarkView,
    HistoryEntry,
    HistoryEntryView,
    Tab,
    TabView,
};
use crate::domain::errors::{BrowserError, ErrorView};
use crate::domain::value_objects::{
    hyphenated,
    url_parse,
    url_view,
    validated_from,
    TabId,
    Timestamp,
    UrlView,
    ValidatedUrl,
};
use vstd::prelude::*;

verus! {

// ---------------------------------------------------------------------------
// Instants and tags as text
// ---------------------------------------------------------------------------
/// The RFC 3339 text for the instant with the given seconds and
/// nanoseconds; `None` for an instant outside the years that can be written.
pub uninterp spec fn rfc3339_text(secs: i64, nanos: u32) -> Option<Seq<char>>;

/// The instant that `text` denotes, if `text` is a date and time as of
/// RFC 3339.
pub uninterp spec fn rfc3339_instant(text: Seq<char>) -> Option<Timestamp>;

/// The JSON text for a list of tags, or the description of why there is
/// none.
pub uninterp spec fn tags_json(tags: Seq<Seq<char>>) -> Result<Seq<char>, Seq<char>>;

/// The list of tags that the JSON text `json` holds, if it holds a list of
/// strings.
pub uninterp spec fn json_tags(json: Seq<char>) -> Option<Seq<Seq<char>>>;

/// The texts of a list of tags.
pub open spec fn tag_views(tags: Seq<String>) -> Seq<Seq<char>> {
    tags.map_values(|t: String| t@)
}

/// The view of an optional text.
pub open spec fn text_view(text: Option<String>) -> Option<Seq<char>> {
    match text {
        Some(t) => Some(t@),
        None => None,
    }
}

/// `chrono::DateTime::from_timestamp` makes the UTC date and time of an
/// instant, or `None` where seconds or nanoseconds are out of range;
/// `DateTime::to_rfc3339` writes it. The result is a function of the
/// instant, known by the name [`rfc3339_text`].
#[verifier::external_body]
fn format_instant(t: Timestamp) -> (text: Option<String>)
    ensures
        text_view(text) == rfc3339_text(t.secs, t.nanos),
{
    chrono::DateTime::from_timestamp(t.secs, t.nanos).map(|d| d.to_rfc3339())
}

/// `chrono::DateTime::parse_from_rfc3339` reads a date and time with its
/// offset; `with_timezone`, `timestamp` and `timestamp_subsec_nanos` give
/// the instant in UTC. The result is a function of the text, known by the
/// name [`rfc3339_instant`].
#[verifier::external_body]
fn parse_instant(text: &str) -> (t: Option<Timestamp>)
    ensures
        t == rfc3339_instant(text@),
{
    chrono::DateTime::parse_from_rfc3339(text).ok().map(|d| d.with_timezone(&chrono::Utc)).map(
        |d| Timestamp { secs: d.timestamp(), nanos: d.timestamp_subsec_nanos() },
    )
}

/// `serde_json::to_string` writes a list of strings as JSON; where it
/// fails, this hands on the text of its error. The result is a function of
/// the list, known by the name [`tags_json`].
#[verifier::external_body]
fn encode_tags(tags: &Vec<String>) -> (json: Result<String, String>)
    ensures
        match json {
            Ok(text) => tags_json(tag_views(tags@)) == Ok::<Seq<char>, Seq<char>>(text@),
            Err(reason) => tags_json(tag_views(tags@)) == Err::<Seq<char>, Seq<char>>(reason@),
        },
{
    serde_json::to_string(tags).map_err(|e| e.to_string())
}

/// `serde_json::from_str` reads JSON into a list of strings, or fails. The
/// result is a function of the text, known by the name [`json_tags`].
#[verifier::external_body]
fn decode_tags(json: &str) -> (tags: Option<Vec<String>>)
    ensures
        match tags {
            Some(list) => json_tags(json@) == Some(tag_views(list@)),
            None => json_tags(json@) is None,
        },
{
    serde_json::from_str(json).ok()
}

/// The failure that is reported for an instant that cannot be written.
pub open spec fn unwritable() -> ErrorView {
    ErrorView::PersistenceFailure("instant out of range"@)
}

/// The failure that is reported for a stored date that cannot be read.
pub open spec fn unreadable() -> ErrorView {
    ErrorView::PersistenceFailure("stored date is not RFC 3339"@)
}

/// The instant `t` as RFC 3339 text.
pub fn instant_to_text(t: Timestamp) -> (r: Result<String, BrowserError>)
    ensures
        match r {
            Ok(text) => rfc3339_text(t.secs, t.nanos) == Some(text@),
            Err(e) => rfc3339_text(t.secs, t.nanos) is None && e@ == unwritable(),
        },
{
    match format_instant(t) {
        Some(text) => Ok(text),
        None => Err(BrowserError::PersistenceFailure(String::from_str("instant out of range"))),
    }
}

/// The instant that the RFC 3339 text `text` denotes.
pub fn instant_from_text(text: &str) -> (r: Result<Timestamp, BrowserError>)
    ensures
        match r {
            Ok(t) => rfc3339_instant(text@) == Some(t),
            Err(e) => rfc3339_instant(text@) is None && e@ == unreadable(),
        },
{
    match parse_instant(text) {
        Some(t) => Ok(t),
        None => Err(
            BrowserError::PersistenceFailure(String::from_str("stored date is not RFC 3339")),
        ),
    }
}

/// The URL that a stored text denotes, if it denotes one that the browser
/// opens.
pub open spec fn stored_url(text: Seq<char>) -> Option<UrlView> {
    match validated_from(url_parse(text)) {
        Ok(url) => Some(url),
        Err(_) => None,
    }
}

/// The URL that the stored text `text` denotes.
fn read_url(text: &str) -> (url: Option<ValidatedUrl>)
    ensures
        url_view(url) == stored_url(text@),
{
    match ValidatedUrl::parse(text) {
        Ok(url) => Some(url),
        Err(_) => None,
    }
}

// ---------------------------------------------------------------------------
// Tabs
// ---------------------------------------------------------------------------
/// A tab as it is stored. Whether the tab is loading, and its icon, are not
/// stored.
#[derive(Debug)]
pub struct TabRow {
    pub id: String,
    pub title: String,
    pub url: Option<String>,
    pub is_private: bool,
    pub created_at: String,
    pub last_accessed: String,
}

/// The tab that a row with the given fields stands for, under the
/// identifier `id`: idle, without icon, and without URL where the stored
/// text denotes none. A failure if one of the dates cannot be read.
pub open spec fn restored_tab(
    id: TabId,
    title: Seq<char>,
    url: Option<Seq<char>>,
    is_private: bool,
    created_at: Seq<char>,
    last_accessed: Seq<char>,
) -> Result<TabView, ErrorView> {
    match (rfc3339_instant(created_at), rfc3339_instant(last_accessed)) {
        (Some(created), Some(accessed)) => Ok(
            TabView {
                id,
                title,
                url: match url {
                    Some(text) => stored_url(text),
                    None => None,
                },
                is_loading: false,
                is_private,
                created_at: created,
                last_accessed: accessed,
                favicon_url: None,
            },
        ),
        _ => Err(unreadable()),
    }
}

/// The row for `tab`. A failure if one of its instants cannot be written.
pub fn tab_to_row(tab: &Tab) -> (r: Result<TabRow, BrowserError>)
    ensures
        match r {
            Ok(row) => {
                &&& row.id@ == hyphenated(tab.id.bits())
                &&& row.title@ == tab.title@
                &&& text_view(row.url) == match tab@.url {
                    Some(u) => Some(u.text),
                    None => None,
                }
                &&& row.is_private == tab.is_private
                &&& rfc3339_text(tab.created_at.secs, tab.created_at.nanos) == Some(
                    row.created_at@,
                )
                &&& rfc3339_text(tab.last_accessed.secs, tab.last_accessed.nanos) == Some(
                    row.last_accessed@,
                )
            },
            Err(e) => e@ == unwritable() && (rfc3339_text(
                tab.created_at.secs,
                tab.created_at.nanos,
            ) is None || rfc3339_text(tab.last_accessed.secs, tab.last_accessed.nanos) is None),
        },
{
    let created_at = instant_to_text(tab.created_at)?;
    let last_accessed = instant_to_text(tab.last_accessed)?;
    Ok(
        TabRow {
            id: tab.id.to_text(),
            title: tab.title.clone(),
            url: match &tab.url {
                Some(u) => Some(u.to_text()),
                None => None,
            },
            is_private: tab.is_private,
            created_at,
            last_accessed,
        },
    )
}

/// The tab that `row` stands for, under the identifier `id`.
pub fn tab_from_row_as(row: TabRow, id: TabId) -> (r: Result<Tab, BrowserError>)
    ensures
        match r {
            Ok(tab) => Ok::<TabView, ErrorView>(tab@),
            Err(e) => Err::<TabView, ErrorView>(e@),
        } == restored_tab(
            id,
            row.title@,
            text_view(row.url),
            row.is_private,
            row.created_at@,
            row.last_accessed@,
        ),
{
    let url = match &row.url {
        Some(text) => read_url(text.as_str()),
        None => None,
    };
    let created_at = instant_from_text(row.created_at.as_str())?;
    let last_accessed = instant_from_text(row.last_accessed.as_str())?;
    Ok(
        Tab {
            id,
            title: row.title,
            url,
            is_loading: false,
            is_private: row.is_private,
            created_at,
            last_accessed,
            favicon_url: None,
        },
    )
}

/// The tab that `row` stands for, under a new identifier: the identifier
/// that was stored is not read back.
pub fn tab_from_row(row: TabRow) -> (r: Result<Tab, BrowserError>)
    ensures
        match r {
            Ok(tab) => restored_tab(
                tab.id,
                row.title@,
                text_view(row.url),
                row.is_private,
                row.created_at@,
                row.last_accessed@,
            ) == Ok::<TabView, ErrorView>(tab@),
            Err(e) => e@ == unreadable() && (rfc3339_instant(row.created_at@) is None
                || rfc3339_instant(row.last_accessed@) is None),
        },
{
    tab_from_row_as(row, TabId::new())
}

// ---------------------------------------------------------------------------
// Bookmarks
// ---------------------------------------------------------------------------
/// A bookmark as it is stored.
#[derive(Debug)]
pub struct BookmarkRow {
    pub id: i64,
    pub title: String,
    pub url: String,
    pub folder: Option<String>,
    pub created_at: String,
    pub tags: String,
}

/// The bookmark that a row with the given fields stands for: none where the
/// stored URL denotes none that the browser opens; a failure where the URL
/// is good and the date cannot be read. Tags that cannot be read count as
/// no tags.
pub open spec fn restored_bookmark(
    id: i64,
    title: Seq<char>,
    url: Seq<char>,
    folder: Option<Seq<char>>,
    created_at: Seq<char>,
    tags: Seq<char>,
) -> Result<Option<BookmarkView>, ErrorView> {
    match stored_url(url) {
        None => Ok(None),
        Some(url) => match rfc3339_instant(created_at) {
            None => Err(unreadable()),
            Some(created) => Ok(
                Some(
                    BookmarkView {
                        id,
                        title,
                        url,
                        folder,
                        created_at: created,
                        tags: match json_tags(tags) {
                            Some(list) => list,
                            None => Seq::empty(),
                        },
                    },
                ),
            ),
        },
    }
}

/// The row for `bookmark`. A failure if its instant cannot be written, or
/// its tags cannot.
pub fn bookmark_to_row(bookmark: &Bookmark) -> (r: Result<BookmarkRow, BrowserError>)
    ensures
        match r {
            Ok(row) => {
                &&& row.id == bookmark.id
                &&& row.title@ == bookmark.title@
                &&& row.url@ == bookmark@.url.text
                &&& text_view(row.folder) == bookmark@.folder
                &&& rfc3339_text(bookmark.created_at.secs, bookmark.created_at.nanos) == Some(
                    row.created_at@,
                )
                &&& tags_json(bookmark@.tags) == Ok::<Seq<char>, Seq<char>>(row.tags@)
            },
            Err(e) => match rfc3339_text(bookmark.created_at.secs, bookmark.created_at.nanos) {
                None => e@ == unwritable(),
                Some(_) => tags_json(bookmark@.tags) matches Err(reason) && e@
                    == ErrorView::PersistenceFailure(reason),
            },
        },
{
    let created_at = instant_to_text(bookmark.created_at)?;
    let tags = match encode_tags(&bookmark.tags) {
        Ok(json) => json,
        Err(reason) => {
            return Err(BrowserError::PersistenceFailure(reason));
        },
    };
    Ok(
        BookmarkRow {
            id: bookmark.id,
            title: bookmark.title.clone(),
            url: bookmark.url.to_text(),
            folder: match &bookmark.folder {
                Some(f) => Some(f.clone()),
                None => None,
            },
            created_at,
            tags,
        },
    )
}

/// The bookmark that `row` stands for, if any.
pub fn bookmark_from_row(row: BookmarkRow) -> (r: Result<Option<Bookmark>, BrowserError>)
    ensures
        match r {
            Ok(Some(bookmark)) => Ok::<Option<BookmarkView>, ErrorView>(Some(bookmark@)),
            Ok(None) => Ok::<Option<BookmarkView>, ErrorView>(None),
            Err(e) => Err::<Option<BookmarkView>, ErrorView>(e@),
        } == restored_bookmark(
            row.id,
            row.title@,
            row.url@,
            text_view(row.folder),
            row.created_at@,
            row.tags@,
        ),
{
    let url = match read_url(row.url.as_str()) {
        Some(url) => url,
        None => {
            return Ok(None);
        },
    };
    let created_at = instant_from_text(row.created_at.as_str())?;
    let tags = match decode_tags(row.tags.as_str()) {
        Some(list) => list,
        None => {
            let list: Vec<String> = Vec::new();
            assert(tag_views(list@) == Seq::<Seq<char>>::empty());
            list
        },
    };
    Ok(Some(Bookmark { id: row.id, title: row.title, url, folder: row.folder, created_at, tags }))
}

// ---------------------------------------------------------------------------
// History
// ---------------------------------------------------------------------------
/// A history entry as it is stored.
#[derive(Debug)]
pub struct HistoryRow {
    pub id: i64,
    pub url: String,
    pub title: String,
    pub visited_at: String,
    pub visit_count: i32,
}

/// The history entry that a row with the given fields stands for: none
/// where the stored URL denotes none that the browser opens; a failure
/// where the URL is good and the date cannot be read.
pub open spec fn restored_entry(
    id: i64,
    url: Seq<char>,
    title: Seq<char>,
    visited_at: Seq<char>,
    visit_count: i32,
) -> Result<Option<HistoryEntryView>, ErrorView> {
    match stored_url(url) {
        None => Ok(None),
        Some(url) => match rfc3339_instant(visited_at) {
            None => Err(unreadable()),
            Some(visited) => Ok(
                Some(HistoryEntryView { id, url, title, visited_at: visited, visit_count }),
            ),
        },
    }
}

/// The row for `entry`. A failure if its instant cannot be written.
pub fn history_to_row(entry: &HistoryEntry) -> (r: Result<HistoryRow, BrowserError>)
    ensures
        match r {
            Ok(row) => {
                &&& row.id == entry.id
                &&& row.url@ == entry@.url.text
                &&& row.title@ == entry.title@
                &&& rfc3339_text(entry.visited_at.secs, entry.visited_at.nanos) == Some(
                    row.visited_at@,
                )
                &&& row.visit_count == entry.visit_count
            },
            Err(e) => e@ == unwritable() && rfc3339_text(
                entry.visited_at.secs,
                entry.visited_at.nanos,
            ) is None,
        },
{
    let visited_at = instant_to_text(entry.visited_at)?;
    Ok(
        HistoryRow {
            id: entry.id,
            url: entry.url.to_text(),
            title: entry.title.clone(),
            visited_at,
            visit_count: entry.visit_count,
        },
    )
}

/// The history entry that `row` stands for, if any.
pub fn history_from_row(row: HistoryRow) -> (r: Result<Option<HistoryEntry>, BrowserError>)
    ensures
        match r {
            Ok(Some(entry)) => Ok::<Option<HistoryEntryView>, ErrorView>(Some(entry@)),
            Ok(None) => Ok::<Option<HistoryEntryView>, ErrorView>(None),
            Err(e) => Err::<Option<HistoryEntryView>, ErrorView>(e@),
        } == restored_entry(row.id, row.url@, row.title@, row.visited_at@, row.visit_count),
{
    let url = match read_url(row.url.as_str()) {
        Some(url) => url,
        None => {
            return Ok(None);
        },
    };
    let visited_at = instant_from_text(row.visited_at.as_str())?;
    Ok(
        Some(
            HistoryEntry {
                id: row.id,
                url,
                title: row.title,
                visited_at,
                visit_count: row.visit_count,
            },
        ),
    )
}

/// The pattern with which the stored titles and URLs are searched for
/// `query`: the query between two percent signs.
pub fn search_pattern(query: &str) -> (pattern: String)
    ensures
        pattern@ == "%"@ + query@ + "%"@,
{
    String::from_str("%").concat(query).concat("%")
}

} // verus!
