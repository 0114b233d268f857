//! Track snapshots and the deduplicator that suppresses redundant reports.

use vstd::prelude::*;

verus! {

/// One immutable observation of the currently playing track. Any field may
/// be absent; absence is a value of its own, distinct from any text.
pub struct TrackSnapshot {
    pub title: Option<String>,
    pub artist: Option<String>,
    pub album_art: Option<String>,
    pub duration_sec: Option<u64>,
}

/// The mathematical value of a snapshot: each text field as a sequence of
/// characters, or absent.
pub struct TrackView {
    pub title: Option<Seq<char>>,
    pub artist: Option<Seq<char>>,
    pub album_art: Option<Seq<char>>,
    pub duration_sec: Option<u64>,
}

impl View for TrackSnapshot {
    type V = TrackView;

    open spec fn view(&self) -> TrackView {
        TrackView {
            title: self.title.deep_view(),
            artist: self.artist.deep_view(),
            album_art: self.album_art.deep_view(),
            duration_sec: self.duration_sec,
        }
    }
}

impl TrackSnapshot {
    /// A snapshot with every field absent, the state before the first
    /// observation.
    pub fn empty() -> (r: TrackSnapshot)
        ensures
            r@ == (TrackView {
                title: None,
                artist: None,
                album_art: None,
                duration_sec: None,
            }),
    {
        TrackSnapshot { title: None, artist: None, album_art: None, duration_sec: None }
    }

    /// A copy with the same value in all four fields.
    pub fn duplicate(&self) -> (r: TrackSnapshot)
        ensures
            r@ == self@,
    {
        TrackSnapshot {
            title: clone_opt_string(&self.title),
            artist: clone_opt_string(&self.artist),
            album_art: clone_opt_string(&self.album_art),
            duration_sec: self.duration_sec,
        }
    }
}

fn clone_opt_string(o: &Option<String>) -> (r: Option<String>)
    ensures
        r.deep_view() == o.deep_view(),
{
    match o {
        Some(s) => Some(s.clone()),
        None => None,
    }
}

fn opt_string_eq(a: &Option<String>, b: &Option<String>) -> (r: bool)
    ensures
        r == (a.deep_view() == b.deep_view()),
{
    match (a, b) {
        (Some(x), Some(y)) => {
            let e = x.eq(y);
            proof {
                if e {
                    assert(a.deep_view() =~= b.deep_view());
                }
            }
            e
        },
        (None, None) => true,
        _ => false,
    }
}

fn opt_u64_eq(a: &Option<u64>, b: &Option<u64>) -> (r: bool)
    ensures
        r == (*a == *b),
{
    match (a, b) {
        (Some(x), Some(y)) => x == y,
        (None, None) => true,
        _ => false,
    }
}

/// Two snapshots are the same observation exactly when all four fields are
/// equal.
pub fn snapshot_eq(a: &TrackSnapshot, b: &TrackSnapshot) -> (r: bool)
    ensures
        r == (a@ == b@),
{
    let e = opt_string_eq(&a.title, &b.title) && opt_string_eq(&a.artist, &b.artist)
        && opt_string_eq(&a.album_art, &b.album_art) && opt_u64_eq(
        &a.duration_sec,
        &b.duration_sec,
    );
    proof {
        if e {
            assert(a@ =~= b@);
        }
    }
    e
}

/// Remembers the last reported snapshot and lets a new one through only
/// when it differs in at least one field. The source emits snapshots on a
/// timer whether or not anything changed; this is the only gate before the
/// reporter.
pub struct Deduplicator {
    last: TrackSnapshot,
}

impl View for Deduplicator {
    type V = TrackView;

    closed spec fn view(&self) -> TrackView {
        self.last@
    }
}

impl Deduplicator {
    /// Start out remembering the all-absent snapshot.
    pub fn new() -> (r: Deduplicator)
        ensures
            r@ == (TrackView {
                title: None,
                artist: None,
                album_art: None,
                duration_sec: None,
            }),
    {
        Deduplicator { last: TrackSnapshot::empty() }
    }

    /// Whether the incoming snapshot differs from the remembered one in at
    /// least one field; the incoming snapshot becomes the remembered one.
    pub fn should_report(&mut self, incoming: &TrackSnapshot) -> (r: bool)
        ensures
            r == (old(self)@ != incoming@),
            final(self)@ == incoming@,
    {
        let same = snapshot_eq(&self.last, incoming);
        if !same {
            self.last = incoming.duplicate();
        }
        !same
    }
}

} // verus!
