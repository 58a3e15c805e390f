//! The expiration sweeper's decisions: which rows a pass deletes, which
//! media objects go with them, and why running a pass twice changes nothing.
use crate::text::{lemma_find_from_bounds, find, find_from, slice_of, tail_from};
use vstd::prelude::*;

verus! {

/// Seconds between two sweep cycles.
pub const SWEEP_INTERVAL_SECS: u64 = 60;

/// What separates the bucket's host from an object's key in a media address.
pub open spec fn s3_host_marker() -> Seq<char> {
    ".s3.amazonaws.com/"@
}

/// The second piece of `s` when it is cut at each occurrence of `m`: the text
/// after the first occurrence, up to the next one or to the end.
pub open spec fn second_piece(s: Seq<char>, m: Seq<char>) -> Option<Seq<char>> {
    match find_from(s, m, 0) {
        None => None,
        Some(i) => {
            let start = i + m.len();
            match find_from(s, m, start) {
                None => Some(s.subrange(start, s.len() as int)),
                Some(j) => Some(s.subrange(start, j)),
            }
        },
    }
}

/// The object key of a media address: what follows the bucket's host.
pub open spec fn s3_key_of(url: Seq<char>) -> Option<Seq<char>> {
    second_piece(url, s3_host_marker())
}

/// Extracts the object key from a media address, `None` when the address
/// does not name the bucket's host.
pub fn extract_s3_key(url: &str) -> (r: Option<String>)
    ensures
        r is None <==> s3_key_of(url@) is None,
        r matches Some(k) ==> s3_key_of(url@) == Some(k@),
{
    let marker = ".s3.amazonaws.com/";
    proof {
        reveal_strlit(".s3.amazonaws.com/");
    }
    let mlen = marker.unicode_len();
    let len = url.unicode_len();
    match find(url, marker, 0) {
        None => None,
        Some(i) => {
            proof {
                lemma_find_from_bounds(url@, marker@, 0);
            }
            let start = i + mlen;
            match find(url, marker, start) {
                None => Some(tail_from(url, start)),
                Some(j) => {
                    proof {
                        lemma_find_from_bounds(url@, marker@, start as int);
                    }
                    Some(slice_of(url, start, j))
                },
            }
        },
    }
}

/// A message row as the sweeper sees it.
pub struct MessageRow {
    pub id: u128,
    pub media_url: Option<String>,
    /// Seconds since the epoch.
    pub expires_at: Option<i64>,
    pub deleted: bool,
    pub view_once: bool,
    /// Some member recorded a view of it and holds no save record of it: a
    /// save exempts the message from deletion on that member's view only.
    pub viewed_unsaved: bool,
}

/// The two passes over messages.
#[derive(PartialEq, Eq, Structural, Clone, Copy, Debug)]
pub enum SweepPass {
    /// Messages whose expiry has passed.
    Expired,
    /// View-once messages that a member viewed without saving, where the
    /// deletion on view did not happen.
    ViewedOnce,
}

/// The pass deletes this row at `now`.
pub open spec fn is_due(m: MessageRow, pass: SweepPass, now: i64) -> bool {
    !m.deleted && match pass {
        SweepPass::Expired => m.expires_at matches Some(t) && t < now,
        SweepPass::ViewedOnce => m.view_once && m.viewed_unsaved,
    }
}

/// The rows that the pass deletes, in order.
pub open spec fn due_rows(rows: Seq<MessageRow>, pass: SweepPass, now: i64) -> Seq<MessageRow>
    decreases rows.len(),
{
    if rows.len() == 0 {
        rows
    } else {
        let p = due_rows(rows.drop_last(), pass, now);
        if is_due(rows.last(), pass, now) {
            p.push(rows.last())
        } else {
            p
        }
    }
}

/// The media object that goes with a message.
pub open spec fn media_key_of(m: MessageRow) -> Option<Seq<char>> {
    match m.media_url {
        Some(u) => s3_key_of(u@),
        None => None,
    }
}

/// What the sweeper does for one row: soft-delete the message, then delete
/// its media object if it has one. A failed media deletion is not retried.
pub struct Purge {
    pub message_id: u128,
    pub media_key: Option<String>,
}

pub open spec fn purge_matches(p: Purge, m: MessageRow) -> bool {
    &&& p.message_id == m.id
    &&& match p.media_key {
        Some(k) => media_key_of(m) == Some(k@),
        None => media_key_of(m) is None,
    }
}

/// The work of one pass at `now`: one purge per due row, in order.
pub fn plan_sweep(rows: &Vec<MessageRow>, pass: SweepPass, now: i64) -> (r: Vec<Purge>)
    ensures
        r@.len() == due_rows(rows@, pass, now).len(),
        forall|i: int| 0 <= i < r@.len() ==> purge_matches(#[trigger] r@[i], due_rows(rows@, pass, now)[i]),
{
    let mut out: Vec<Purge> = Vec::new();
    let mut i: usize = 0;
    while i < rows.len()
        invariant
            i <= rows.len(),
            out@.len() == due_rows(rows@.subrange(0, i as int), pass, now).len(),
            forall|k: int| 0 <= k < out@.len() ==> purge_matches(#[trigger] out@[k],
                due_rows(rows@.subrange(0, i as int), pass, now)[k]),
        decreases rows.len() - i,
    {
        proof {
            assert(rows@.subrange(0, i as int + 1).drop_last() == rows@.subrange(0, i as int));
        }
        let row = &rows[i];
        let due = !row.deleted && match pass {
            SweepPass::Expired => match row.expires_at {
                Some(t) => t < now,
                None => false,
            },
            SweepPass::ViewedOnce => row.view_once && row.viewed_unsaved,
        };
        if due {
            let media_key = match &row.media_url {
                Some(u) => extract_s3_key(u.as_str()),
                None => None,
            };
            out.push(Purge { message_id: row.id, media_key });
        }
        i = i + 1;
    }
    proof {
        assert(rows@.subrange(0, rows@.len() as int) == rows@);
    }
    out
}

/// The rows after a pass at `now`: each due row is soft-deleted.
pub open spec fn swept(rows: Seq<MessageRow>, pass: SweepPass, now: i64) -> Seq<MessageRow> {
    rows.map_values(|m: MessageRow| if is_due(m, pass, now) { MessageRow { deleted: true, ..m } } else { m })
}

/// The media objects left after a pass at `now` over `rows`.
pub open spec fn media_left(media: Set<Seq<char>>, rows: Seq<MessageRow>, pass: SweepPass, now: i64) -> Set<Seq<char>> {
    media.filter(|k: Seq<char>| !exists|i: int| 0 <= i < rows.len() && is_due(#[trigger] rows[i], pass, now)
        && media_key_of(rows[i]) == Some(k))
}

proof fn lemma_no_due_rows(rows: Seq<MessageRow>, pass: SweepPass, now: i64)
    requires
        forall|i: int| 0 <= i < rows.len() ==> !is_due(#[trigger] rows[i], pass, now),
    ensures
        due_rows(rows, pass, now).len() == 0,
    decreases rows.len(),
{
    if rows.len() > 0 {
        assert(rows.last() == rows[rows.len() - 1]);
        lemma_no_due_rows(rows.drop_last(), pass, now);
    }
}

/// Running a pass twice in a row at the same time leaves the rows and the
/// media objects as the first run left them, and the second run has no work,
/// so it cannot fail a second time.
pub proof fn sweep_is_idempotent(rows: Seq<MessageRow>, media: Set<Seq<char>>, pass: SweepPass, now: i64)
    ensures
        swept(swept(rows, pass, now), pass, now) == swept(rows, pass, now),
        media_left(media_left(media, rows, pass, now), swept(rows, pass, now), pass, now)
            == media_left(media, rows, pass, now),
        due_rows(swept(rows, pass, now), pass, now).len() == 0,
{
    let once = swept(rows, pass, now);
    assert forall|i: int| 0 <= i < once.len() implies !is_due(#[trigger] once[i], pass, now) by {}
    assert(swept(once, pass, now) =~= once);
    lemma_no_due_rows(once, pass, now);
    assert(media_left(media_left(media, rows, pass, now), once, pass, now) =~= media_left(media, rows, pass, now));
}

/// A stored media asset as the sweeper sees it.
pub struct MediaRow {
    pub id: u128,
    pub s3_key: String,
    pub thumbnail_s3_key: Option<String>,
    /// Seconds since the epoch.
    pub expires_at: Option<i64>,
}

pub open spec fn media_is_due(m: MediaRow, now: i64) -> bool {
    m.expires_at matches Some(t) && t < now
}

/// The assets that the media pass deletes, in order.
pub open spec fn due_media(rows: Seq<MediaRow>, now: i64) -> Seq<MediaRow>
    decreases rows.len(),
{
    if rows.len() == 0 {
        rows
    } else {
        let p = due_media(rows.drop_last(), now);
        if media_is_due(rows.last(), now) {
            p.push(rows.last())
        } else {
            p
        }
    }
}

/// What the sweeper does for one asset: delete its objects (the image, then
/// the thumbnail if any), then its row. A failed object deletion does not
/// keep the row.
pub struct MediaPurge {
    pub media_id: u128,
    pub object_keys: Vec<String>,
}

pub open spec fn media_purge_matches(p: MediaPurge, m: MediaRow) -> bool {
    &&& p.media_id == m.id
    &&& match m.thumbnail_s3_key {
        Some(t) => p.object_keys@.len() == 2 && p.object_keys@[0]@ == m.s3_key@ && p.object_keys@[1]@ == t@,
        None => p.object_keys@.len() == 1 && p.object_keys@[0]@ == m.s3_key@,
    }
}

/// The work of the media pass at `now`: one purge per expired asset, in order.
pub fn plan_media_sweep(rows: &Vec<MediaRow>, now: i64) -> (r: Vec<MediaPurge>)
    ensures
        r@.len() == due_media(rows@, now).len(),
        forall|i: int| 0 <= i < r@.len() ==> media_purge_matches(#[trigger] r@[i], due_media(rows@, now)[i]),
{
    let mut out: Vec<MediaPurge> = Vec::new();
    let mut i: usize = 0;
    while i < rows.len()
        invariant
            i <= rows.len(),
            out@.len() == due_media(rows@.subrange(0, i as int), now).len(),
            forall|k: int| 0 <= k < out@.len() ==> media_purge_matches(#[trigger] out@[k],
                due_media(rows@.subrange(0, i as int), now)[k]),
        decreases rows.len() - i,
    {
        proof {
            assert(rows@.subrange(0, i as int + 1).drop_last() == rows@.subrange(0, i as int));
        }
        let row = &rows[i];
        let due = match row.expires_at {
            Some(t) => t < now,
            None => false,
        };
        if due {
            let mut object_keys: Vec<String> = Vec::new();
            object_keys.push(row.s3_key.clone());
            match &row.thumbnail_s3_key {
                Some(t) => object_keys.push(t.clone()),
                None => {},
            }
            out.push(MediaPurge { media_id: row.id, object_keys });
        }
        i = i + 1;
    }
    proof {
        assert(rows@.subrange(0, rows@.len() as int) == rows@);
    }
    out
}

/// The asset rows left after the media pass at `now`: those not due.
pub open spec fn media_kept(rows: Seq<MediaRow>, now: i64) -> Seq<MediaRow>
    decreases rows.len(),
{
    if rows.len() == 0 {
        rows
    } else {
        let p = media_kept(rows.drop_last(), now);
        if media_is_due(rows.last(), now) {
            p
        } else {
            p.push(rows.last())
        }
    }
}

/// The asset's thumbnail is stored under `k`.
pub open spec fn thumbnail_is(m: MediaRow, k: Seq<char>) -> bool {
    match m.thumbnail_s3_key {
        Some(t) => t@ == k,
        None => false,
    }
}

/// `k` is an object of a due asset of `rows`: its image or its thumbnail.
pub open spec fn purged_object(rows: Seq<MediaRow>, now: i64, k: Seq<char>) -> bool {
    exists|i: int| 0 <= i < rows.len() && media_is_due(#[trigger] rows[i], now)
        && (rows[i].s3_key@ == k || thumbnail_is(rows[i], k))
}

/// The stored objects left after the media pass at `now` over `rows`.
pub open spec fn objects_left(objects: Set<Seq<char>>, rows: Seq<MediaRow>, now: i64) -> Set<Seq<char>> {
    objects.filter(|k: Seq<char>| !purged_object(rows, now, k))
}

proof fn lemma_kept_not_due(rows: Seq<MediaRow>, now: i64)
    ensures
        forall|i: int| 0 <= i < media_kept(rows, now).len() ==> !media_is_due(#[trigger] media_kept(rows, now)[i], now),
    decreases rows.len(),
{
    if rows.len() > 0 {
        lemma_kept_not_due(rows.drop_last(), now);
        let p = media_kept(rows.drop_last(), now);
        if !media_is_due(rows.last(), now) {
            let q = p.push(rows.last());
            assert forall|i: int| 0 <= i < q.len() implies !media_is_due(#[trigger] q[i], now) by {
                if i < p.len() {
                    assert(q[i] == p[i]);
                }
            }
        }
    }
}

proof fn lemma_none_due(rows: Seq<MediaRow>, now: i64)
    requires
        forall|i: int| 0 <= i < rows.len() ==> !media_is_due(#[trigger] rows[i], now),
    ensures
        due_media(rows, now).len() == 0,
        media_kept(rows, now) == rows,
    decreases rows.len(),
{
    if rows.len() > 0 {
        assert(rows.last() == rows[rows.len() - 1]);
        lemma_none_due(rows.drop_last(), now);
        assert(rows.drop_last().push(rows.last()) =~= rows);
    }
}

/// Running the media pass twice in a row at the same time leaves the asset
/// rows and the stored objects as the first run left them, and the second
/// run has no work: no object deletion and no row deletion.
pub proof fn media_sweep_is_idempotent(rows: Seq<MediaRow>, objects: Set<Seq<char>>, now: i64)
    ensures
        due_media(media_kept(rows, now), now).len() == 0,
        media_kept(media_kept(rows, now), now) == media_kept(rows, now),
        objects_left(objects_left(objects, rows, now), media_kept(rows, now), now) == objects_left(objects, rows, now),
{
    let kept = media_kept(rows, now);
    lemma_kept_not_due(rows, now);
    lemma_none_due(kept, now);
    assert forall|k: Seq<char>| !purged_object(kept, now, k) by {}
    assert(objects_left(objects_left(objects, rows, now), kept, now) =~= objects_left(objects, rows, now));
}

} // verus!
