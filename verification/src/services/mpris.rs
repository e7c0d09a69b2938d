//! The media widget: MPRIS players, their playback status and track metadata.
use vstd::prelude::*;
use crate::launcher::types::{opt_view, views};
use crate::text::{has_prefix, starts_with, str_eq, strip_prefix};

verus! {

/// The bus-name prefix of MPRIS players.
pub open spec fn mpris_prefix() -> Seq<char> {
    "org.mpris.MediaPlayer2."@
}

/// A player's playback status.
#[derive(Debug, Clone, Copy, PartialEq, Eq, Structural)]
pub enum PlaybackStatus {
    Playing,
    Paused,
    Stopped,
}

impl PlaybackStatus {
    /// The status for an MPRIS `PlaybackStatus` string; anything unknown is `Stopped`.
    pub fn from_str(s: &str) -> (r: Self)
        ensures
            r == if s@ == "Playing"@ {
                PlaybackStatus::Playing
            } else if s@ == "Paused"@ {
                PlaybackStatus::Paused
            } else {
                PlaybackStatus::Stopped
            },
    {
        if str_eq(s, "Playing") {
            PlaybackStatus::Playing
        } else if str_eq(s, "Paused") {
            PlaybackStatus::Paused
        } else {
            PlaybackStatus::Stopped
        }
    }
}

/// A value of an MPRIS metadata map.
#[derive(Debug)]
pub enum MetaValue {
    Str(String),
    Array(Vec<MetaValue>),
    I64(i64),
    Other,
}

/// The value of the first entry named `key`.
pub open spec fn meta_entry(meta: Seq<(String, MetaValue)>, key: Seq<char>) -> Option<MetaValue>
    decreases meta.len(),
{
    if meta.len() == 0 {
        None
    } else {
        match meta_entry(meta.drop_last(), key) {
            Some(v) => Some(v),
            None => if meta.last().0@ == key {
                Some(meta.last().1)
            } else {
                None
            },
        }
    }
}

proof fn lemma_meta_prefix(meta: Seq<(String, MetaValue)>, key: Seq<char>, k: int)
    requires
        0 <= k <= meta.len(),
        meta_entry(meta.take(k), key) is Some,
    ensures
        meta_entry(meta, key) == meta_entry(meta.take(k), key),
    decreases meta.len(),
{
    if k < meta.len() {
        assert(meta.drop_last().take(k) =~= meta.take(k));
        lemma_meta_prefix(meta.drop_last(), key, k);
    } else {
        assert(meta.take(k) =~= meta);
    }
}

fn find_entry(meta: &Vec<(String, MetaValue)>, key: &str) -> (r: Option<usize>)
    ensures
        match r {
            Some(i) => i < meta.len() && meta_entry(meta@, key@) == Some(meta@[i as int].1),
            None => meta_entry(meta@, key@) is None,
        },
{
    let mut i: usize = 0;
    while i < meta.len()
        invariant
            i <= meta.len(),
            meta_entry(meta@.take(i as int), key@) is None,
        decreases meta.len() - i,
    {
        proof {
            assert(meta@.take(i + 1).drop_last() =~= meta@.take(i as int));
        }
        if str_eq(&meta[i].0, key) {
            proof {
                lemma_meta_prefix(meta@, key@, i + 1);
            }
            return Some(i);
        }
        i += 1;
    }
    proof {
        assert(meta@.take(meta.len() as int) =~= meta@);
    }
    None
}

/// A metadata string: a plain string, or the first element of a list of strings.
pub open spec fn meta_string(meta: Seq<(String, MetaValue)>, key: Seq<char>) -> Option<Seq<char>> {
    match meta_entry(meta, key) {
        Some(MetaValue::Str(s)) => Some(s@),
        Some(MetaValue::Array(a)) => if a@.len() > 0 && a@[0] is Str {
            Some(a@[0]->Str_0@)
        } else {
            None
        },
        _ => None,
    }
}

/// The metadata string `key` (a plain string, or the first of a list of strings).
pub fn extract_string(meta: &Vec<(String, MetaValue)>, key: &str) -> (r: Option<String>)
    ensures
        opt_view(r) == meta_string(meta@, key@),
{
    match find_entry(meta, key) {
        Some(i) => match &meta[i].1 {
            MetaValue::Str(s) => Some(s.clone()),
            MetaValue::Array(a) => if a.len() > 0 {
                match &a[0] {
                    MetaValue::Str(s) => Some(s.clone()),
                    _ => None,
                }
            } else {
                None
            },
            _ => None,
        },
        None => None,
    }
}

/// The metadata integer `key`.
pub fn extract_i64(meta: &Vec<(String, MetaValue)>, key: &str) -> (r: Option<i64>)
    ensures
        r == match meta_entry(meta@, key@) {
            Some(MetaValue::I64(n)) => Some(n),
            _ => None,
        },
{
    match find_entry(meta, key) {
        Some(i) => match &meta[i].1 {
            MetaValue::I64(n) => Some(*n),
            _ => None,
        },
        None => None,
    }
}

/// The track a player is playing.
#[derive(Debug, Clone)]
pub struct PlayerMetadata {
    pub title: Option<String>,
    pub artist: Option<String>,
    pub album: Option<String>,
    pub art_url: Option<String>,
    pub length_us: Option<i64>,
}

/// The track described by an MPRIS metadata map: `xesam:title`, `xesam:artist`,
/// `xesam:album`, `mpris:artUrl` and `mpris:length`.
pub fn metadata_from(meta: &Vec<(String, MetaValue)>) -> (r: PlayerMetadata)
    ensures
        opt_view(r.title) == meta_string(meta@, "xesam:title"@),
        opt_view(r.artist) == meta_string(meta@, "xesam:artist"@),
        opt_view(r.album) == meta_string(meta@, "xesam:album"@),
        opt_view(r.art_url) == meta_string(meta@, "mpris:artUrl"@),
        r.length_us == match meta_entry(meta@, "mpris:length"@) {
            Some(MetaValue::I64(n)) => Some(n),
            _ => None,
        },
{
    PlayerMetadata {
        title: extract_string(meta, "xesam:title"),
        artist: extract_string(meta, "xesam:artist"),
        album: extract_string(meta, "xesam:album"),
        art_url: extract_string(meta, "mpris:artUrl"),
        length_us: extract_i64(meta, "mpris:length"),
    }
}

/// The bus names that belong to MPRIS players, in order.
pub open spec fn players_among(names: Seq<Seq<char>>) -> Seq<Seq<char>>
    decreases names.len(),
{
    if names.len() == 0 {
        Seq::empty()
    } else if has_prefix(names.last(), mpris_prefix()) {
        players_among(names.drop_last()).push(names.last())
    } else {
        players_among(names.drop_last())
    }
}

/// The MPRIS players among the names on the bus.
pub fn mpris_players(names: &Vec<String>) -> (r: Vec<String>)
    ensures
        views(r@) == players_among(views(names@)),
{
    let ghost all = views(names@);
    let mut r: Vec<String> = Vec::new();
    let mut i: usize = 0;
    while i < names.len()
        invariant
            i <= names.len(),
            all == views(names@),
            views(r@) == players_among(all.take(i as int)),
        decreases names.len() - i,
    {
        proof {
            assert(all.take(i + 1).drop_last() =~= all.take(i as int));
            reveal_strlit("org.mpris.MediaPlayer2.");
        }
        if starts_with(&names[i], "org.mpris.MediaPlayer2.") {
            let n = names[i].clone();
            let ghost before = r@;
            r.push(n);
            proof {
                assert(views(r@) =~= views(before).push(n@));
            }
        }
        i += 1;
    }
    proof {
        assert(all.take(names.len() as int) =~= all);
    }
    r
}

/// The player to show: the first that reports `Playing`, else the first listed.
pub fn pick_player(playing: &Vec<bool>) -> (r: Option<usize>)
    ensures
        playing.len() == 0 ==> r is None,
        playing.len() > 0 ==> (r matches Some(i) && i < playing.len() && (if exists|j: int|
            0 <= j < playing.len() && playing@[j] {
            playing@[i as int] && forall|j: int| 0 <= j < i ==> !playing@[j]
        } else {
            i == 0
        })),
{
    let mut i: usize = 0;
    while i < playing.len()
        invariant
            i <= playing.len(),
            forall|j: int| 0 <= j < i ==> !playing@[j],
        decreases playing.len() - i,
    {
        if playing[i] {
            return Some(i);
        }
        i += 1;
    }
    if playing.len() == 0 {
        None
    } else {
        Some(0)
    }
}

/// A player's short name: its bus name without the MPRIS prefix.
pub fn player_short_name(name: &str) -> (r: String)
    ensures
        r@ == if has_prefix(name@, mpris_prefix()) {
            name@.skip(mpris_prefix().len() as int)
        } else {
            name@
        },
{
    proof {
        reveal_strlit("org.mpris.MediaPlayer2.");
    }
    match strip_prefix(name, "org.mpris.MediaPlayer2.") {
        Some(s) => s,
        None => crate::text::owned(name),
    }
}

/// What the media widget compares between two polls of the player state.
#[derive(Debug, Clone)]
pub struct PlayerKey {
    pub playback_status: PlaybackStatus,
    pub title: Option<String>,
    pub artist: Option<String>,
}

fn same_opt(a: &Option<String>, b: &Option<String>) -> (r: bool)
    ensures
        r == (opt_view(*a) == opt_view(*b)),
{
    match (a, b) {
        (Some(x), Some(y)) => str_eq(x, y),
        (None, None) => true,
        _ => false,
    }
}

/// Whether a poll changed what the widget shows: a player appeared or went away, or its
/// status, title or artist differs.
pub fn player_changed(last: &Option<PlayerKey>, now: &Option<PlayerKey>) -> (r: bool)
    ensures
        r == match (*last, *now) {
            (None, None) => false,
            (Some(a), Some(b)) => a.playback_status != b.playback_status || opt_view(a.title)
                != opt_view(b.title) || opt_view(a.artist) != opt_view(b.artist),
            _ => true,
        },
{
    match (last, now) {
        (None, None) => false,
        (Some(a), Some(b)) => a.playback_status != b.playback_status || !same_opt(
            &a.title,
            &b.title,
        ) || !same_opt(&a.artist, &b.artist),
        _ => true,
    }
}

} // verus!
