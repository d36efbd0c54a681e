//! Domain values shared by the service client, the play queue and the UI.
use vstd::prelude::*;

verus! {

/// A song as the UI lists it.
#[derive(Debug, PartialEq, Eq)]
pub struct Song {
    pub id: i64,
    pub name: String,
    pub artists: String,
}

impl Clone for Song {
    fn clone(&self) -> (r: Self)
        ensures
            r == *self,
    {
        Song { id: self.id, name: self.name.clone(), artists: self.artists.clone() }
    }
}

/// A user playlist.
#[derive(Debug, PartialEq, Eq)]
pub struct Playlist {
    pub id: i64,
    pub name: String,
    pub track_count: i64,
    pub special_type: i64,
}

impl Clone for Playlist {
    fn clone(&self) -> (r: Self)
        ensures
            r == *self,
    {
        Playlist {
            id: self.id,
            name: self.name.clone(),
            track_count: self.track_count,
            special_type: self.special_type,
        }
    }
}

/// One timed lyric line, with its translation when one was found.
#[derive(Debug, PartialEq, Eq)]
pub struct LyricLine {
    pub time_ms: u64,
    pub text: String,
    pub translation: Option<String>,
}

impl LyricLine {
    /// The line as plain values.
    pub open spec fn view(&self) -> (u64, Seq<char>, Option<Seq<char>>) {
        (
            self.time_ms,
            self.text@,
            match self.translation {
                Some(t) => Some(t@),
                None => None,
            },
        )
    }
}

impl Clone for LyricLine {
    fn clone(&self) -> (r: Self)
        ensures
            r == *self,
    {
        let translation = match &self.translation {
            Some(t) => Some(t.clone()),
            None => None,
        };
        LyricLine { time_ms: self.time_ms, text: self.text.clone(), translation }
    }
}

/// The logged-in account.
#[derive(Debug, PartialEq, Eq)]
pub struct Account {
    pub uid: i64,
    pub nickname: String,
}

/// The state of a QR-code login as the service reports it.
#[derive(Debug, PartialEq, Eq)]
pub struct LoginStatus {
    pub code: i64,
    pub logged_in: bool,
    pub message: String,
}

/// A playable address for a song.
#[derive(Debug, PartialEq, Eq)]
pub struct SongUrl {
    pub id: i64,
    pub url: String,
}

impl Clone for SongUrl {
    fn clone(&self) -> (r: Self)
        ensures
            r == *self,
    {
        SongUrl { id: self.id, url: self.url.clone() }
    }
}

/// Copies a list of songs element by element.
pub fn clone_songs(v: &Vec<Song>) -> (r: Vec<Song>)
    ensures
        r@ == v@,
{
    let mut out: Vec<Song> = Vec::new();
    let mut i: usize = 0;
    while i < v.len()
        invariant
            i <= v@.len(),
            out@ == v@.take(i as int),
        decreases v.len() - i,
    {
        out.push(v[i].clone());
        i += 1;
        assert(v@.take(i as int) == v@.take(i - 1).push(v@[i - 1]));
    }
    assert(v@.take(v@.len() as int) == v@);
    out
}

} // verus!
