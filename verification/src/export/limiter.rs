//! Concurrency and size limits for PDF rendering.
//!
//! PDF layout is CPU-bound and allocation-heavy (a 150-song songbook with long
//! lyrics peaks at gigabytes), and one of the export endpoints is public. So:
//!
//! - every render runs behind one process-wide semaphore of [`PDF_PERMITS`]:
//!   excess requests wait up to [`PDF_ACQUIRE_TIMEOUT_SECS`] and then fail fast
//!   with `SERVICE_BUSY` (503, `meta.retry_after_seconds`) instead of queueing
//!   without bound;
//! - the size of what gets rendered is capped up front ([`ensure_pdf_fits`]):
//!   at most [`MAX_PDF_ITEMS`] items and, for a songbook, at most
//!   [`MAX_SONGBOOK_CHARS`] characters of lyrics and notes (`PDF_TOO_LARGE`,
//!   413).

use crate::errors::api_error::{answer_of, detailed_rule, ApiError, Failure};
use crate::errors::codes;
use crate::errors::status;
use crate::json::{
    json_number, member, member_index, number_value, object1, object2, text_value, Json, JsonValue,
};
use crate::models::setlist::SetlistItem;
use crate::text::{chars, opt_text};
use vstd::prelude::*;

verus! {

/// PDFs rendered at the same time, process-wide.
pub const PDF_PERMITS: usize = 3;

/// How long a request waits for a free rendering slot.
pub const PDF_ACQUIRE_TIMEOUT_SECS: i64 = 10;

/// Most items (songs, blocks and breaks) a setlist PDF may carry.
pub const MAX_PDF_ITEMS: usize = 200;

/// Most characters of lyrics (and performance notes) a songbook may carry:
/// roughly 100 pages, which renders in well under a second and a few tens
/// of megabytes.
pub const MAX_SONGBOOK_CHARS: usize = 250_000;

/// Every rendering slot stayed busy.
pub open spec fn busy() -> Failure {
    detailed_rule(
        status::SERVICE_UNAVAILABLE,
        codes::SERVICE_BUSY@,
        "Too many exports are being generated right now. Please try again in a few seconds."@,
        Json::Object(
            seq![("retry_after_seconds"@, json_number(PDF_ACQUIRE_TIMEOUT_SECS as int))],
        ),
    )
}

/// The error returned when every rendering slot stayed busy.
pub fn service_busy() -> (r: ApiError)
    ensures
        r@ == busy(),
{
    ApiError::rule_with_meta(
        status::SERVICE_UNAVAILABLE,
        codes::SERVICE_BUSY,
        "Too many exports are being generated right now. Please try again in a few seconds.",
        object1("retry_after_seconds", number_value(PDF_ACQUIRE_TIMEOUT_SECS)),
    )
}

/// `PDF_TOO_LARGE` (413) with what was over the limit.
pub fn pdf_too_large(message: &str, meta: JsonValue) -> (r: ApiError)
    ensures
        r@ == detailed_rule(status::PAYLOAD_TOO_LARGE, codes::PDF_TOO_LARGE@, message@, meta@),
{
    ApiError::rule_with_meta(status::PAYLOAD_TOO_LARGE, codes::PDF_TOO_LARGE, message, meta)
}

/// The characters of a text, counted.
pub open spec fn text_size(t: Option<Seq<char>>) -> nat {
    match t {
        Some(s) => s.len(),
        None => 0,
    }
}

/// How many characters an item adds to the songbook.
pub open spec fn item_size(item: SetlistItem) -> nat {
    match item {
        SetlistItem::Song { song, .. } => text_size(opt_text(song.lyrics)) + text_size(
            opt_text(song.performance_notes),
        ),
        _ => 0,
    }
}

/// How many characters of lyrics and notes the songbook holds.
pub open spec fn songbook_size(items: Seq<SetlistItem>) -> nat
    decreases items.len(),
{
    if items.len() == 0 {
        0
    } else {
        songbook_size(items.drop_last()) + item_size(items.last())
    }
}

/// Why a setlist is too big to render, if it is.
pub open spec fn too_large(items: Seq<SetlistItem>, include_lyrics: bool) -> Option<Failure> {
    if items.len() > MAX_PDF_ITEMS {
        Some(
            detailed_rule(
                status::PAYLOAD_TOO_LARGE,
                codes::PDF_TOO_LARGE@,
                "This setlist is too large to export (at most 200 items)."@,
                Json::Object(
                    seq![
                        ("limit"@, json_number(MAX_PDF_ITEMS as int)),
                        ("reason"@, Json::Text("items"@)),
                    ],
                ),
            ),
        )
    } else if include_lyrics && songbook_size(items) > MAX_SONGBOOK_CHARS {
        Some(
            detailed_rule(
                status::PAYLOAD_TOO_LARGE,
                codes::PDF_TOO_LARGE@,
                "This setlist is too large to export with lyrics; export without lyrics or split it."@,
                Json::Object(
                    seq![
                        ("limit"@, json_number(MAX_SONGBOOK_CHARS as int)),
                        ("reason"@, Json::Text("songbook"@)),
                    ],
                ),
            ),
        )
    } else {
        None
    }
}

fn size_of_text(t: &Option<String>) -> (r: usize)
    ensures
        r == text_size(opt_text(*t)),
{
    match t {
        Some(s) => chars(s.as_str()).len(),
        None => 0,
    }
}

/// Refuses a setlist PDF that would be too big to render safely: more than
/// [`MAX_PDF_ITEMS`] items, or (with the songbook) more than
/// [`MAX_SONGBOOK_CHARS`] characters of lyrics and notes. Checked in the
/// handler, before a rendering slot is taken.
pub fn ensure_pdf_fits(items: &[SetlistItem], include_lyrics: bool) -> (r: Result<(), ApiError>)
    ensures
        match r {
            Ok(_) => too_large(items@, include_lyrics) is None,
            Err(e) => too_large(items@, include_lyrics) == Some(e@),
        },
{
    let n = items.len();
    if n > MAX_PDF_ITEMS {
        return Err(
            pdf_too_large(
                "This setlist is too large to export (at most 200 items).",
                object2(
                    "limit",
                    number_value(MAX_PDF_ITEMS as i64),
                    "reason",
                    text_value("items"),
                ),
            ),
        );
    }
    if include_lyrics {
        let mut total: u128 = 0;
        let mut i: usize = 0;
        assert(items@.take(0) =~= seq![]);
        while i < n
            invariant
                n == items@.len(),
                n <= MAX_PDF_ITEMS,
                i <= n,
                total <= i * 0x2_0000_0000_0000_0000,
                total == songbook_size(items@.take(i as int)),
            decreases n - i,
        {
            assert(items@.take(i + 1).drop_last() =~= items@.take(i as int));
            assert(items@.take(i + 1).last() == items@[i as int]);
            if let SetlistItem::Song { song, .. } = &items[i] {
                let a = size_of_text(&song.lyrics);
                let b = size_of_text(&song.performance_notes);
                total = total + a as u128 + b as u128;
            }
            i = i + 1;
        }
        assert(items@.take(i as int) =~= items@);
        if total > MAX_SONGBOOK_CHARS as u128 {
            return Err(
                pdf_too_large(
                    "This setlist is too large to export with lyrics; export without lyrics or split it.",
                    object2(
                        "limit",
                        number_value(MAX_SONGBOOK_CHARS as i64),
                        "reason",
                        text_value("songbook"),
                    ),
                ),
            );
        }
    }
    Ok(())
}

/// A busy service tells the client when to come back.
pub proof fn busy_answers_say_when_to_retry(now: int)
    ensures
        answer_of(busy(), now).status == status::SERVICE_UNAVAILABLE,
        answer_of(busy(), now).retry_after == Some(PDF_ACQUIRE_TIMEOUT_SECS as u64),
{
    let meta = seq![("retry_after_seconds"@, json_number(PDF_ACQUIRE_TIMEOUT_SECS as int))];
    assert(meta[0].0 == "retry_after_seconds"@);
    assert(member_index(meta, "retry_after_seconds"@) == 0);
    assert(member(Json::Object(meta), "retry_after_seconds"@) == Some(
        json_number(PDF_ACQUIRE_TIMEOUT_SECS as int),
    ));
}

/// Without the songbook the lyrics don't matter.
pub proof fn only_songbooks_are_measured(items: Seq<SetlistItem>)
    ensures
        too_large(items, false) is None <==> items.len() <= MAX_PDF_ITEMS,
{
}

} // verus!
