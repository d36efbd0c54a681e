//! The shapes of the service's JSON responses, as plain values. Decoding the
//! JSON into them happens outside the library.
use vstd::prelude::*;

verus! {

#[derive(Debug)]
pub struct LoginQrKeyResp {
    pub unikey: Option<String>,
    pub data: Option<LoginQrKeyData>,
}

#[derive(Debug)]
pub struct LoginQrKeyData {
    pub unikey: String,
}

#[derive(Debug)]
pub struct LoginQrCheckResp {
    pub code: i64,
    pub message: String,
}

#[derive(Debug)]
pub struct CloudSearchResp {
    pub result: Option<CloudSearchResult>,
}

#[derive(Debug)]
pub struct CloudSearchResult {
    pub songs: Vec<SongInfo>,
}

#[derive(Debug)]
pub struct SongDetailResp {
    pub songs: Vec<SongInfo>,
}

#[derive(Debug)]
pub struct SongInfo {
    pub id: i64,
    pub name: String,
    pub ar: Vec<ArtistInfo>,
    pub artists: Vec<ArtistInfo>,
}

#[derive(Debug)]
pub struct ArtistInfo {
    pub name: String,
}

#[derive(Debug)]
pub struct UserAccountResp {
    pub account: Option<AccountInfo>,
    pub profile: Option<ProfileInfo>,
}

#[derive(Debug)]
pub struct AccountInfo {
    pub id: i64,
}

#[derive(Debug)]
pub struct ProfileInfo {
    pub nickname: String,
}

#[derive(Debug)]
pub struct UserPlaylistResp {
    pub playlist: Vec<PlaylistInfo>,
}

#[derive(Debug)]
pub struct PlaylistInfo {
    pub id: i64,
    pub name: String,
    pub track_count: i64,
    pub special_type: i64,
}

#[derive(Debug)]
pub struct PlaylistDetailResp {
    pub playlist: Option<PlaylistDetail>,
}

#[derive(Debug)]
pub struct PlaylistDetail {
    pub track_ids: Vec<TrackId>,
}

#[derive(Debug)]
pub struct TrackId {
    pub id: i64,
}

#[derive(Debug)]
pub struct SongUrlResp {
    pub data: Vec<SongUrlItem>,
}

#[derive(Debug)]
pub struct SongUrlItem {
    pub id: i64,
    pub url: Option<String>,
}

#[derive(Debug)]
pub struct LyricResp {
    pub lrc: Option<LyricBlock>,
    pub tlyric: Option<LyricBlock>,
}

#[derive(Debug)]
pub struct LyricBlock {
    pub lyric: String,
}

} // verus!
