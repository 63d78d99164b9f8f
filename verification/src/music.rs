//! The music voice's fade arithmetic and the playlist selection rules.
//!
//! Fade gains are linear: a starting track climbs from silence to its
//! target over the crossfade duration, and a track inside the last
//! crossfade window of its runtime descends linearly to silence. Both are
//! computed in thousandths from millisecond positions.
use vstd::prelude::*;
use crate::strmap::StrMap;
use crate::types::{MusicPlaylist, PlaylistTrack};

verus! {

/// A running fade-in: how far it has come and how long it runs.
#[derive(Clone, Copy, Debug, PartialEq, Eq, Structural)]
pub struct FadeIn {
    /// Milliseconds since the fade began.
    pub elapsed_ms: u64,
    /// Full length of the fade in milliseconds.
    pub duration_ms: u64,
}

/// Progress of a fade-in, in thousandths, capped at one unit. A fade of
/// zero length is complete at once.
pub open spec fn fade_in_progress_milli(elapsed_ms: u64, duration_ms: u64) -> int {
    if duration_ms == 0 {
        1000
    } else if elapsed_ms * 1000 / (duration_ms as int) > 1000 {
        1000
    } else {
        elapsed_ms * 1000 / (duration_ms as int)
    }
}

/// Executable fade-in progress.
pub fn fade_in_progress_exec(elapsed_ms: u64, duration_ms: u64) -> (r: u32)
    requires
        elapsed_ms <= 0x10_0000_0000,
    ensures
        r == fade_in_progress_milli(elapsed_ms, duration_ms),
        r <= 1000,
{
    if duration_ms == 0 {
        1000
    } else {
        let p = elapsed_ms * 1000 / duration_ms;
        if p > 1000 {
            1000
        } else {
            p as u32
        }
    }
}

/// Multiplier of the end-of-track fade-out, in thousandths: the fraction
/// of the crossfade window still remaining, capped at one unit. At the
/// track's end it is zero; a window or more before the end it is one.
pub open spec fn fade_out_mult_milli(remaining_ms: u64, crossfade_ms: u32) -> int {
    if crossfade_ms == 0 {
        1000
    } else if remaining_ms * 1000 / (crossfade_ms as int) > 1000 {
        1000
    } else {
        remaining_ms * 1000 / (crossfade_ms as int)
    }
}

/// Executable fade-out multiplier.
pub fn fade_out_mult_exec(remaining_ms: u64, crossfade_ms: u32) -> (r: u32)
    requires
        remaining_ms <= 0x10_0000_0000,
    ensures
        r == fade_out_mult_milli(remaining_ms, crossfade_ms),
        r <= 1000,
{
    if crossfade_ms == 0 {
        1000
    } else {
        let p = remaining_ms * 1000 / (crossfade_ms as u64);
        if p > 1000 {
            1000
        } else {
            p as u32
        }
    }
}

/// Two playlist tracks carrying the same data.
pub open spec fn track_eq(a: PlaylistTrack, b: PlaylistTrack) -> bool {
    &&& a.id@ == b.id@
    &&& a.file@ == b.file@
    &&& a.title@ == b.title@
    &&& a.artist@ == b.artist@
    &&& a.album@ == b.album@
    &&& a.album_path@ == b.album_path@
}

/// Some entry of `favs` views as `id`.
pub open spec fn fav_has(favs: Seq<String>, id: Seq<char>) -> bool {
    exists|i: int| 0 <= i < favs.len() && favs[i]@ == id
}

/// Whether `track_id` is listed among the favorites.
pub fn is_favorite(favorites: &Vec<String>, track_id: &String) -> (r: bool)
    ensures
        r == fav_has(favorites@, track_id@),
{
    let n = favorites.len();
    let mut i: usize = 0;
    while i < n
        invariant
            n == favorites@.len(),
            i <= n,
            forall|k: int| 0 <= k < i ==> favorites@[k]@ !== track_id@,
        decreases n - i,
    {
        if favorites[i] == *track_id {
            return true;
        }
        i += 1;
    }
    false
}

/// The id names the automatic playlist of every known track.
pub open spec fn is_all_music(id: Seq<char>) -> bool {
    id == "all-music"@
}

/// The id names the automatic playlist of favorite tracks.
pub open spec fn is_favorites_id(id: Seq<char>) -> bool {
    id == "favorites"@
}

/// The id names one album: the album prefix followed by the album name.
pub open spec fn is_album_id(id: Seq<char>) -> bool {
    id.len() >= 6 && id.subrange(0, 6) == "album-"@
}

/// The album name carried by an album playlist id.
pub open spec fn album_of_id(id: Seq<char>) -> Seq<char> {
    id.subrange(6, id.len() as int)
}

/// The track list a playlist id stands for: every known track for the
/// all-music id, the favorite tracks for the favorites id, one album's
/// tracks for an album id, the stored playlist's tracks for a known stored
/// id, and nothing for an unknown id.
pub open spec fn tracks_of_playlist(
    id: Seq<char>,
    all_tracks: Seq<PlaylistTrack>,
    playlists: StrMap<MusicPlaylist>,
    favorites: Seq<String>,
) -> Seq<PlaylistTrack> {
    if is_all_music(id) {
        all_tracks
    } else if is_favorites_id(id) {
        all_tracks.filter(|t: PlaylistTrack| fav_has(favorites, t.id@))
    } else if is_album_id(id) {
        all_tracks.filter(|t: PlaylistTrack| t.album@ == album_of_id(id))
    } else if playlists.has(id) {
        playlists.value_of(id).tracks@
    } else {
        Seq::empty()
    }
}

/// Resolve a playlist id to its track list, copying each track.
pub fn resolve_playlist_tracks(
    playlist_id: &String,
    all_tracks: &Vec<PlaylistTrack>,
    playlists: &StrMap<MusicPlaylist>,
    favorites: &Vec<String>,
) -> (r: Vec<PlaylistTrack>)
    requires
        playlists.wf(),
    ensures
        r@ == tracks_of_playlist(playlist_id@, all_tracks@, *playlists, favorites@),
{
    let all_music = String::from_str("all-music");
    let favorites_name = String::from_str("favorites");
    if *playlist_id == all_music {
        return copy_tracks(all_tracks);
    }
    if *playlist_id == favorites_name {
        let n = all_tracks.len();
        let mut r: Vec<PlaylistTrack> = Vec::new();
        let mut i: usize = 0;
        proof {
            reveal(Seq::filter);
            assert(all_tracks@.take(0) =~= Seq::<PlaylistTrack>::empty());
        }
        while i < n
            invariant
                n == all_tracks@.len(),
                i <= n,
                r@ == all_tracks@.take(i as int).filter(
                    |t: PlaylistTrack| fav_has(favorites@, t.id@),
                ),
            decreases n - i,
        {
            let ghost pred = |t: PlaylistTrack| fav_has(favorites@, t.id@);
            let ghost taken = all_tracks@.take(i as int);
            let ghost taken1 = all_tracks@.take(i as int + 1);
            if is_favorite(favorites, &all_tracks[i].id) {
                r.push(all_tracks[i].duplicate());
            }
            proof {
                reveal(Seq::filter);
                assert(taken1.drop_last() =~= taken);
                assert(taken1.last() == all_tracks@[i as int]);
                assert(taken1.filter(pred) == if pred(all_tracks@[i as int]) {
                    taken.filter(pred).push(all_tracks@[i as int])
                } else {
                    taken.filter(pred)
                });
            }
            i += 1;
        }
        proof {
            assert(all_tracks@.take(n as int) =~= all_tracks@);
        }
        return r;
    }
    let is_album = starts_with_album(playlist_id);
    if is_album {
        let len = playlist_id.as_str().unicode_len();
        let album_name = playlist_id.as_str().substring_char(6, len).to_owned();
        let n = all_tracks.len();
        let mut r: Vec<PlaylistTrack> = Vec::new();
        let mut i: usize = 0;
        proof {
            reveal(Seq::filter);
            assert(all_tracks@.take(0) =~= Seq::<PlaylistTrack>::empty());
        }
        while i < n
            invariant
                n == all_tracks@.len(),
                i <= n,
                album_name@ == album_of_id(playlist_id@),
                r@ == all_tracks@.take(i as int).filter(
                    |t: PlaylistTrack| t.album@ == album_of_id(playlist_id@),
                ),
            decreases n - i,
        {
            let ghost pred = |t: PlaylistTrack| t.album@ == album_of_id(playlist_id@);
            let ghost taken = all_tracks@.take(i as int);
            let ghost taken1 = all_tracks@.take(i as int + 1);
            if all_tracks[i].album == album_name {
                r.push(all_tracks[i].duplicate());
            }
            proof {
                reveal(Seq::filter);
                assert(taken1.drop_last() =~= taken);
                assert(taken1.last() == all_tracks@[i as int]);
                assert(taken1.filter(pred) == if pred(all_tracks@[i as int]) {
                    taken.filter(pred).push(all_tracks@[i as int])
                } else {
                    taken.filter(pred)
                });
            }
            i += 1;
        }
        proof {
            assert(all_tracks@.take(n as int) =~= all_tracks@);
        }
        return r;
    }
    match playlists.get(playlist_id) {
        Some(playlist) => copy_tracks(&playlist.tracks),
        None => Vec::new(),
    }
}

/// Whether the id begins with the album prefix.
fn starts_with_album(playlist_id: &String) -> (r: bool)
    ensures
        r == is_album_id(playlist_id@),
{
    let len = playlist_id.as_str().unicode_len();
    if len < 6 {
        return false;
    }
    let prefix = playlist_id.as_str().substring_char(0, 6).to_owned();
    let album_marker = String::from_str("album-");
    prefix == album_marker
}

/// A fresh vector holding a copy of every track, in order.
pub fn copy_tracks(tracks: &Vec<PlaylistTrack>) -> (r: Vec<PlaylistTrack>)
    ensures
        r@ == tracks@,
{
    let n = tracks.len();
    let mut r: Vec<PlaylistTrack> = Vec::new();
    let mut i: usize = 0;
    while i < n
        invariant
            n == tracks@.len(),
            i <= n,
            r@ == tracks@.take(i as int),
        decreases n - i,
    {
        r.push(tracks[i].duplicate());
        proof {
            assert(r@ =~= tracks@.take(i as int + 1));
        }
        i += 1;
    }
    proof {
        assert(tracks@.take(n as int) =~= tracks@);
    }
    r
}

/// The playlist position that follows `current`: a random position under
/// shuffle; otherwise the next position, wrapping to the start only when
/// looping is on, and nothing when the end is reached without looping.
pub fn select_next_index(
    current: i32,
    len: usize,
    shuffled: bool,
    looping: bool,
) -> (r: Option<i32>)
    requires
        1 <= len <= 1000000,
        -1 <= current <= 1000000,
    ensures
        match r {
            Some(idx) => {
                &&& 0 <= idx < len
                &&& !shuffled && current + 1 < len ==> idx == current + 1
                &&& !shuffled && current + 1 >= len ==> looping && idx == 0
            },
            None => !shuffled && current + 1 >= len && !looping,
        },
{
    if shuffled {
        let drawn = crate::rng::draw_u32_inclusive(0, (len - 1) as u32);
        Some(drawn as i32)
    } else {
        let next = current + 1;
        if next >= len as i32 {
            if looping {
                Some(0)
            } else {
                None
            }
        } else {
            Some(next)
        }
    }
}

/// The playlist position that precedes `current`: the previous one, or
/// the last position when at or before the start.
pub fn select_prev_index(current: i32, len: usize) -> (r: i32)
    requires
        1 <= len <= 1000000,
        current <= 1000000,
    ensures
        0 <= r < len,
        current <= 0 ==> r == len - 1,
        0 < current < len ==> r == current - 1,
        current >= len ==> r == len - 1,
{
    if current <= 0 {
        (len - 1) as i32
    } else if current >= len as i32 {
        (len - 1) as i32
    } else {
        current - 1
    }
}

} // verus!
