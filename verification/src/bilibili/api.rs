//! The requests that resolve a video and its streams, and what is taken from
//! the answers. Sending the requests is left to the caller.

use crate::bilibili::data::BiliBiliSong;
use crate::utils::{decimal, push_decimal};
use vstd::prelude::*;
use vstd::string::*;

verus! {

/// The address that describes the video `bvid`.
pub open spec fn info_address(bvid: Seq<char>) -> Seq<char> {
    "http://api.bilibili.com/x/web-interface/view?bvid="@ + bvid
}

/// The address that lists the streams of chapter `cid` of the video `bvid`.
pub open spec fn stream_address(bvid: Seq<char>, cid: u32) -> Seq<char> {
    "https://api.bilibili.com/x/player/playurl?cid="@ + decimal(cid as nat) + "&bvid="@ + bvid
        + "&qn=64&fnval=16"@
}

/// The locator of the local file at `path`.
pub open spec fn file_locator(path: Seq<char>) -> Seq<char> {
    "file://"@ + path
}

/// The address to ask for the description of the video `bvid`.
pub fn info_url(bvid: &str) -> (url: String)
    ensures
        url@ == info_address(bvid@),
{
    let mut url = String::from_str("http://api.bilibili.com/x/web-interface/view?bvid=");
    url.append(bvid);
    url
}

/// The address to ask for the streams of chapter `cid` of the video `bvid`.
pub fn stream_url(bvid: &str, cid: u32) -> (url: String)
    ensures
        url@ == stream_address(bvid@, cid),
{
    let mut url = String::from_str("https://api.bilibili.com/x/player/playurl?cid=");
    push_decimal(&mut url, cid as u64);
    url.append("&bvid=");
    url.append(bvid);
    url.append("&qn=64&fnval=16");
    url
}

/// The address of the stream to fetch: that of the first of `audio`, and
/// nothing where the answer lists no stream.
pub fn first_stream(audio: &Vec<BiliBiliSong>) -> (url: Option<String>)
    ensures
        url is Some == (audio@.len() > 0),
        url is Some ==> url.unwrap()@ == audio@[0].base_url@,
{
    if audio.len() > 0 {
        Some(audio[0].base_url.clone())
    } else {
        None
    }
}

/// The locator by which a media backend opens the local file at `path`.
pub fn file_uri(path: &str) -> (uri: String)
    ensures
        uri@ == file_locator(path@),
{
    let mut uri = String::from_str("file://");
    uri.append(path);
    uri
}

} // verus!
