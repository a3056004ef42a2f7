//! Playlists: recognizing playlist URLs, extracting their
//! identifiers, reading the external tool's flat playlist dump, and
//! selecting which entries a range download takes.

use vstd::prelude::*;
use vstd::string::StrSliceExecFns;
use vstd::string::StringExecFns;

use crate::downloader::Downloader;
use crate::error::YtdlError;
use crate::json::{get_str_opt, get_u64_opt, json_from_str};
use crate::strutil::{match_at, spec_match_at};
use crate::utils::is_id_char;

verus! {

/// One entry of a playlist.
#[derive(Debug)]
pub struct PlaylistVideo {
    pub url: String,
    pub title: String,
    pub duration: Option<u64>,
    /// One-based position in the playlist dump.
    pub index: usize,
    pub selected: bool,
}

impl Clone for PlaylistVideo {
    /// A clone is the same entry.
    fn clone(&self) -> (r: Self)
        ensures
            r == *self,
    {
        PlaylistVideo {
            url: self.url.clone(),
            title: self.title.clone(),
            duration: self.duration,
            index: self.index,
            selected: self.selected,
        }
    }
}

/// A playlist: its identity and its entries.
#[derive(Debug)]
pub struct PlaylistInfo {
    pub id: String,
    pub title: String,
    pub uploader: Option<String>,
    pub video_count: usize,
    pub videos: Vec<PlaylistVideo>,
}

/// The driver playlists are downloaded through, with an optional
/// subfolder.
#[derive(Debug)]
pub struct PlaylistDownloader {
    pub downloader: Downloader,
    pub output_folder: Option<String>,
}

/// Whether `s` holds one of the playlist URL shapes: a playlist path,
/// or a watch or short-link path carrying a `list` parameter later.
pub open spec fn spec_is_playlist_url(s: Seq<char>) -> bool {
    ||| (exists|i: int| spec_match_at(s, i, "youtube.com/playlist?list="@))
    ||| (exists|i: int, j: int|
        spec_match_at(s, i, "youtube.com/watch?"@) && j >= i + "youtube.com/watch?"@.len()
            && spec_match_at(s, j, "list="@))
    ||| (exists|i: int, j: int|
        spec_match_at(s, i, "youtu.be/"@) && j >= i + "youtu.be/"@.len() && spec_match_at(
            s,
            j,
            "?list="@,
        ))
}

/// Whether a `list` parameter starts at `i`: a `?` or `&`, the word
/// `list=`, and at least one identifier character.
pub open spec fn list_param_at(s: Seq<char>, i: int) -> bool {
    &&& 0 <= i < s.len()
    &&& (s[i] == '?' || s[i] == '&')
    &&& spec_match_at(s, i + 1, "list="@)
    &&& i + 6 < s.len()
    &&& is_id_char(s[i + 6])
}

/// The first position where a `list` parameter starts, scanning from
/// `i`.
pub open spec fn first_list_param_from(s: Seq<char>, i: int) -> Option<int>
    decreases s.len() - i,
{
    if i >= s.len() {
        None
    } else if list_param_at(s, i) {
        Some(i)
    } else {
        first_list_param_from(s, i + 1)
    }
}

/// The end of the maximal run of identifier characters starting at
/// `i`.
pub open spec fn id_run_end(s: Seq<char>, i: int) -> int
    decreases s.len() - i,
{
    if 0 <= i < s.len() && is_id_char(s[i]) {
        id_run_end(s, i + 1)
    } else {
        i
    }
}

/// The playlist identifier `s` carries: the identifier run after the
/// first `?list=` or `&list=`, if any.
pub open spec fn spec_playlist_id(s: Seq<char>) -> Option<Seq<char>> {
    match first_list_param_from(s, 0) {
        Option::None => None,
        Option::Some(i) => Some(s.subrange(i + 6, id_run_end(s, i + 6))),
    }
}

fn contains_pat_from(s: &str, from: usize, p: &str) -> (r: bool)
    ensures
        r == exists|j: int| j >= from && spec_match_at(s@, j, p@),
{
    let n = s.unicode_len();
    let pn = p.unicode_len();
    if pn == 0 {
        if from <= n {
            assert(spec_match_at(s@, from as int, p@)) by {
                assert(s@.subrange(from as int, from as int) =~= p@);
            }
            return true;
        } else {
            assert forall|j: int| !(j >= from && spec_match_at(s@, j, p@)) by {}
            return false;
        }
    }
    if pn > n || from > n - pn {
        assert forall|j: int| !(j >= from && spec_match_at(s@, j, p@)) by {}
        return false;
    }
    let mut j = from;
    while j <= n - pn
        invariant
            n == s@.len(),
            pn == p@.len(),
            1 <= pn <= n,
            from <= j <= n - pn + 1,
            forall|j2: int| from <= j2 < j ==> !spec_match_at(s@, j2, p@),
        decreases n - pn - j + 1,
    {
        if match_at(s, j, p) {
            return true;
        }
        j = j + 1;
    }
    assert forall|j2: int| j2 >= from implies !spec_match_at(s@, j2, p@) by {
        if j2 + p@.len() <= s@.len() {
            assert(j2 < j);
        }
    }
    false
}

/// Extracts the playlist identifier from a URL, when it carries a
/// `list` parameter.
pub fn extract_playlist_id(url: &str) -> (r: Option<String>)
    ensures
        match r {
            Option::Some(id) => spec_playlist_id(url@) == Some(id@),
            Option::None => spec_playlist_id(url@) is None,
        },
{
    let n = url.unicode_len();
    let mut i: usize = 0;
    while i < n
        invariant
            n == url@.len(),
            i <= n,
            first_list_param_from(url@, 0) == first_list_param_from(url@, i as int),
        decreases n - i,
    {
        let c = url.get_char(i);
        let mut is_param = false;
        if c == '?' || c == '&' {
            if match_at(url, i + 1, "list=") && n - i > 6 {
                if crate::utils::char_is_id(url.get_char(i + 6)) {
                    is_param = true;
                }
            }
        }
        if is_param {
            assert(list_param_at(url@, i as int));
            let start = i + 6;
            let mut end = start;
            while end < n && crate::utils::char_is_id(url.get_char(end))
                invariant
                    n == url@.len(),
                    start <= end <= n,
                    id_run_end(url@, start as int) == id_run_end(url@, end as int),
                decreases n - end,
            {
                end = end + 1;
            }
            return Some(url.substring_char(start, end).to_owned());
        }
        assert(!list_param_at(url@, i as int));
        i = i + 1;
    }
    None
}

impl PlaylistDownloader {
    /// A playlist driver writing to `output_dir` at `quality`.
    pub fn new(output_dir: String, quality: String) -> (r: PlaylistDownloader)
        ensures
            r.downloader.output_dir == output_dir,
            r.downloader.quality == quality,
            r.output_folder is None,
    {
        PlaylistDownloader { downloader: Downloader::new(output_dir, quality), output_folder: None }
    }

    /// The same driver, writing into the named subfolder.
    pub fn with_folder(self, folder: String) -> (r: PlaylistDownloader)
        ensures
            r.downloader == self.downloader,
            r.output_folder matches Some(f) && f == folder,
    {
        PlaylistDownloader { output_folder: Some(folder), ..self }
    }

    /// Whether `url` names a playlist.
    pub fn is_playlist_url(url: &str) -> (r: bool)
        ensures
            r == spec_is_playlist_url(url@),
    {
        if contains_pat_from(url, 0, "youtube.com/playlist?list=") {
            return true;
        }
        let n = url.unicode_len();
        let mut i: usize = 0;
        let mut watch_hit = false;
        while i < n && !watch_hit
            invariant
                n == url@.len(),
                i <= n,
                watch_hit ==> exists|i2: int, j: int|
                    spec_match_at(url@, i2, "youtube.com/watch?"@) && j >= i2
                        + "youtube.com/watch?"@.len() && spec_match_at(url@, j, "list="@),
                !watch_hit ==> forall|i2: int|
                    0 <= i2 < i ==> !(spec_match_at(url@, i2, "youtube.com/watch?"@)
                        && exists|j: int|
                        j >= i2 + "youtube.com/watch?"@.len() && spec_match_at(
                            url@,
                            j,
                            "list="@,
                        )),
            decreases n - i,
        {
            if match_at(url, i, "youtube.com/watch?") {
                let plen = "youtube.com/watch?".unicode_len();
                if contains_pat_from(url, i + plen, "list=") {
                    watch_hit = true;
                }
            }
            i = i + 1;
        }
        if watch_hit {
            return true;
        }
        let mut i2: usize = 0;
        let mut short_hit = false;
        while i2 < n && !short_hit
            invariant
                n == url@.len(),
                i2 <= n,
                short_hit ==> exists|i3: int, j: int|
                    spec_match_at(url@, i3, "youtu.be/"@) && j >= i3 + "youtu.be/"@.len()
                        && spec_match_at(url@, j, "?list="@),
                !short_hit ==> forall|i3: int|
                    0 <= i3 < i2 ==> !(spec_match_at(url@, i3, "youtu.be/"@) && exists|j: int|
                        j >= i3 + "youtu.be/"@.len() && spec_match_at(url@, j, "?list="@)),
            decreases n - i2,
        {
            if match_at(url, i2, "youtu.be/") {
                let plen = "youtu.be/".unicode_len();
                if contains_pat_from(url, i2 + plen, "?list=") {
                    short_hit = true;
                }
            }
            i2 = i2 + 1;
        }
        if short_hit {
            return true;
        }
        proof {
            reveal_strlit("youtube.com/watch?");
            reveal_strlit("youtu.be/");
        }
        assert forall|i3: int, j: int| !(spec_match_at(url@, i3, "youtube.com/watch?"@) && j >= i3
            + "youtube.com/watch?"@.len() && spec_match_at(url@, j, "list="@)) by {
            if 0 <= i3 && i3 + "youtube.com/watch?"@.len() <= url@.len() {
                assert(i3 < i);
            }
        }
        assert forall|i3: int, j: int| !(spec_match_at(url@, i3, "youtu.be/"@) && j >= i3
            + "youtu.be/"@.len() && spec_match_at(url@, j, "?list="@)) by {
            if 0 <= i3 && i3 + "youtu.be/"@.len() <= url@.len() {
                assert(i3 < i2);
            }
        }
        false
    }

    /// Reads the external tool's flat playlist dump, one JSON object
    /// per line. Lines that do not parse are skipped; the playlist's
    /// own title, id and uploader come from the first line. Fails
    /// when no entry carries a usable URL or id.
    pub fn parse_playlist_dump(lines: &Vec<String>) -> (r: Result<PlaylistInfo, YtdlError>)
        ensures
            r matches Ok(info) ==> info.videos@.len() > 0 && info.video_count == info.videos@.len()
                && forall|k: int| 0 <= k < info.videos@.len() ==> (#[trigger] info.videos@[k]).selected,
            r matches Err(e) ==> e matches YtdlError::Other(m) && m@
                == "No videos found in playlist"@,
    {
        let mut videos: Vec<PlaylistVideo> = Vec::new();
        let mut playlist_title = String::new();
        let mut playlist_id = String::new();
        let mut uploader: Option<String> = None;
        let n = lines.len();
        let mut k: usize = 0;
        while k < n
            invariant
                n == lines@.len(),
                k <= n,
                videos@.len() <= k,
                forall|v: int| 0 <= v < videos@.len() ==> (#[trigger] videos@[v]).selected,
            decreases n - k,
        {
            match json_from_str(lines[k].as_str()) {
                Result::Ok(json) => {
                    if k == 0 {
                        match get_str_opt(&json, "playlist_title") {
                            Option::Some(t) => {
                                playlist_title = t;
                            },
                            Option::None => {},
                        }
                        match get_str_opt(&json, "playlist_id") {
                            Option::Some(idv) => {
                                playlist_id = idv;
                            },
                            Option::None => {},
                        }
                        match get_str_opt(&json, "uploader") {
                            Option::Some(up) => {
                                uploader = Some(up);
                            },
                            Option::None => {},
                        }
                    }
                    let video_url = match get_str_opt(&json, "url") {
                        Option::Some(u) => Some(u),
                        Option::None => get_str_opt(&json, "webpage_url"),
                    };
                    let final_url = match video_url {
                        Option::Some(u) => Some(u),
                        Option::None => match get_str_opt(&json, "id") {
                            Option::Some(idv) => {
                                let mut u = "https://www.youtube.com/watch?v=".to_owned();
                                u.append(idv.as_str());
                                Some(u)
                            },
                            Option::None => None,
                        },
                    };
                    match final_url {
                        Option::Some(url) => {
                            let title = match get_str_opt(&json, "title") {
                                Option::Some(t) => t,
                                Option::None => "Unknown".to_owned(),
                            };
                            let duration = get_u64_opt(&json, "duration");
                            videos.push(
                                PlaylistVideo {
                                    url,
                                    title,
                                    duration,
                                    index: if k < usize::MAX {
                                        k + 1
                                    } else {
                                        k
                                    },
                                    selected: true,
                                },
                            );
                        },
                        Option::None => {},
                    }
                },
                Result::Err(_) => {},
            }
            k = k + 1;
        }
        if videos.is_empty() {
            return Err(YtdlError::Other("No videos found in playlist".to_owned()));
        }
        if playlist_title.as_str().is_empty() {
            let mut t = "Playlist ".to_owned();
            t.append(playlist_id.as_str());
            playlist_title = t;
        }
        let count = videos.len();
        Ok(
            PlaylistInfo {
                id: playlist_id,
                title: playlist_title,
                uploader,
                video_count: count,
                videos,
            },
        )
    }

    /// Restricts a range download's selection: exactly the entries
    /// whose one-based index lies in `[start, end]` stay selected.
    pub fn select_range(info: &mut PlaylistInfo, start: usize, end: usize)
        ensures
            final(info).videos@.len() == old(info).videos@.len(),
            forall|k: int|
                0 <= k < old(info).videos@.len() ==> #[trigger] final(info).videos@[k]
                    == (PlaylistVideo {
                    selected: start <= old(info).videos@[k].index <= end,
                    ..old(info).videos@[k]
                }),
            final(info).id == old(info).id,
            final(info).title == old(info).title,
            final(info).uploader == old(info).uploader,
            final(info).video_count == old(info).video_count,
    {
        let n = info.videos.len();
        let mut k: usize = 0;
        while k < n
            invariant
                n == info.videos@.len(),
                n == old(info).videos@.len(),
                k <= n,
                info.id == old(info).id,
                info.title == old(info).title,
                info.uploader == old(info).uploader,
                info.video_count == old(info).video_count,
                forall|k2: int|
                    0 <= k2 < k ==> #[trigger] info.videos@[k2] == (PlaylistVideo {
                        selected: start <= old(info).videos@[k2].index <= end,
                        ..old(info).videos@[k2]
                    }),
                forall|k2: int| k <= k2 < n ==> info.videos@[k2] == old(info).videos@[k2],
            decreases n - k,
        {
            let idx = info.videos[k].index;
            info.videos[k].selected = start <= idx && idx <= end;
            k = k + 1;
        }
    }

    /// How many entries are currently selected.
    pub fn selected_count(info: &PlaylistInfo) -> (r: usize)
        ensures
            r <= info.videos@.len(),
            (r == 0) <==> (forall|k: int|
                0 <= k < info.videos@.len() ==> !(#[trigger] info.videos@[k]).selected),
    {
        let n = info.videos.len();
        let mut count: usize = 0;
        let mut k: usize = 0;
        while k < n
            invariant
                n == info.videos@.len(),
                k <= n,
                count <= k,
                (count == 0) <==> (forall|k2: int|
                    0 <= k2 < k ==> !(#[trigger] info.videos@[k2]).selected),
            decreases n - k,
        {
            if info.videos[k].selected {
                count = count + 1;
            }
            k = k + 1;
        }
        count
    }
}

} // verus!
