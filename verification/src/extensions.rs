//! The file extensions whose associations the tool removes.

use vstd::prelude::*;

verus! {

/// The views of a list of string slices.
pub open spec fn views(names: Seq<&str>) -> Seq<Seq<char>> {
    names.map_values(|s: &str| s@)
}

/// Video extensions (without the leading dot).
pub open spec fn video_names() -> Seq<Seq<char>> {
    seq![
        "avi"@, "wmv"@, "wmp"@, "wm"@, "asf"@, "mpg"@, "mpeg"@, "mpe"@, "m1v"@, "m2v"@,
        "mpv2"@, "mp2v"@, "ts"@, "tp"@, "tpr"@, "trp"@, "vob"@, "ifo"@, "ogm"@, "ogv"@,
        "mp4"@, "m4v"@, "m4p"@, "m4b"@, "3gp"@, "3gpp"@, "3g2"@, "3gp2"@, "mkv"@, "rm"@,
        "ram"@, "rmvb"@, "rpm"@, "flv"@, "mov"@, "qt"@, "nsv"@, "dpg"@, "m2ts"@, "m2t"@,
        "mts"@, "dvr-ms"@, "k3g"@, "skm"@, "evo"@, "nsr"@, "amv"@, "divx"@, "webm"@, "wtv"@,
        "f4v"@, "mxf"@,
    ]
}

/// The video extensions, in the order in which they are cleaned.
pub fn video_extensions() -> (res: Vec<&'static str>)
    ensures
        views(res@) == video_names(),
{
    let res = vec![
        "avi", "wmv", "wmp", "wm", "asf", "mpg", "mpeg", "mpe", "m1v", "m2v",
        "mpv2", "mp2v", "ts", "tp", "tpr", "trp", "vob", "ifo", "ogm", "ogv",
        "mp4", "m4v", "m4p", "m4b", "3gp", "3gpp", "3g2", "3gp2", "mkv", "rm",
        "ram", "rmvb", "rpm", "flv", "mov", "qt", "nsv", "dpg", "m2ts", "m2t",
        "mts", "dvr-ms", "k3g", "skm", "evo", "nsr", "amv", "divx", "webm", "wtv",
        "f4v", "mxf",
    ];
    assert(views(res@) =~= video_names());
    res
}

/// Audio extensions (without the leading dot).
pub open spec fn audio_names() -> Seq<Seq<char>> {
    seq![
        "wav"@, "wma"@, "mpa"@, "mp2"@, "m1a"@, "m2a"@, "mp3"@, "ogg"@, "m4a"@, "aac"@,
        "mka"@, "ra"@, "flac"@, "ape"@, "mpc"@, "mod"@, "ac3"@, "eac3"@, "dts"@, "dtshd"@,
        "wv"@, "tak"@, "cda"@, "dsf"@, "tta"@, "aiff"@, "aif"@, "opus"@,
    ]
}

/// The audio extensions, in the order in which they are cleaned.
pub fn audio_extensions() -> (res: Vec<&'static str>)
    ensures
        views(res@) == audio_names(),
{
    let res = vec![
        "wav", "wma", "mpa", "mp2", "m1a", "m2a", "mp3", "ogg", "m4a", "aac",
        "mka", "ra", "flac", "ape", "mpc", "mod", "ac3", "eac3", "dts", "dtshd",
        "wv", "tak", "cda", "dsf", "tta", "aiff", "aif", "opus",
    ];
    assert(views(res@) =~= audio_names());
    res
}

/// Playlist extensions (without the leading dot).
pub open spec fn playlist_names() -> Seq<Seq<char>> {
    seq![
        "asx"@, "m3u"@, "m3u8"@, "pls"@, "wvx"@, "wax"@, "wmx"@, "cue"@, "mpls"@, "mpl"@,
        "dpl"@, "xspf"@, "mpd"@,
    ]
}

/// The playlist extensions, in the order in which they are cleaned.
pub fn playlist_extensions() -> (res: Vec<&'static str>)
    ensures
        views(res@) == playlist_names(),
{
    let res = vec![
        "asx", "m3u", "m3u8", "pls", "wvx", "wax", "wmx", "cue", "mpls", "mpl",
        "dpl", "xspf", "mpd",
    ];
    assert(views(res@) =~= playlist_names());
    res
}

/// The three groups of extensions the tool can clean.
#[derive(Clone, Copy, Debug, PartialEq, Eq, Structural)]
pub enum MediaCategory {
    Video,
    Audio,
    Playlist,
}

impl MediaCategory {
    /// The extensions of the group.
    pub open spec fn names(self) -> Seq<Seq<char>> {
        match self {
            MediaCategory::Video => video_names(),
            MediaCategory::Audio => audio_names(),
            MediaCategory::Playlist => playlist_names(),
        }
    }

    /// The extensions of the group, in cleaning order.
    pub fn extensions(&self) -> (res: Vec<&'static str>)
        ensures
            views(res@) == self.names(),
    {
        match self {
            MediaCategory::Video => video_extensions(),
            MediaCategory::Audio => audio_extensions(),
            MediaCategory::Playlist => playlist_extensions(),
        }
    }

    /// The name of the group in the log, when it is cleaned alone.
    pub open spec fn label_chars(self) -> Seq<char> {
        match self {
            MediaCategory::Video => "视频格式"@,
            MediaCategory::Audio => "音频格式"@,
            MediaCategory::Playlist => "播放列表格式"@,
        }
    }

    /// The name of the group in the log, when it is cleaned alone.
    pub fn label(&self) -> (res: &'static str)
        ensures
            res@ == self.label_chars(),
    {
        match self {
            MediaCategory::Video => "视频格式",
            MediaCategory::Audio => "音频格式",
            MediaCategory::Playlist => "播放列表格式",
        }
    }

    /// The name of the group in the log of the native window, when all
    /// groups are cleaned together.
    pub open spec fn all_label_chars(self) -> Seq<char> {
        match self {
            MediaCategory::Video => "所有格式(视频)"@,
            MediaCategory::Audio => "所有格式(音频)"@,
            MediaCategory::Playlist => "所有格式(播放列表)"@,
        }
    }

    /// The name of the group in the log of the native window, when all
    /// groups are cleaned together.
    pub fn all_label(&self) -> (res: &'static str)
        ensures
            res@ == self.all_label_chars(),
    {
        match self {
            MediaCategory::Video => "所有格式(视频)",
            MediaCategory::Audio => "所有格式(音频)",
            MediaCategory::Playlist => "所有格式(播放列表)",
        }
    }
}

} // verus!
