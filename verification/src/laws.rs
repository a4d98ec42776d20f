//! What the tool's texts, lists and layout are, stated on their own terms:
//! the exact characters, the exact extension names, and the geometry of the
//! window, each proved of the definitions the operations are specified by.

use vstd::prelude::*;

use crate::cleaning::{
    extension_actions, file_exts_path_chars, step, ActionView, ExtensionOutcome, JobView, Phase,
};
use crate::extensions::{audio_names, playlist_names, video_names, MediaCategory};
use crate::layout::{button_row_y, button_width, button_x, log_height, quarter, wrap_i32, wrap_u32};
use crate::messages::{cleaned_line, dotted, finish_text, line, start_banner, LineEnding};
use crate::unbind::{opening_link_text, project_url_chars, ready_text, Frontend};

verus! {

/// The characters that end a line: carriage return and line feed, or a
/// line feed alone.
pub open spec fn terminator(ending: LineEnding) -> Seq<char> {
    if ending is CrLf {
        seq!['\r', '\n']
    } else {
        seq!['\n']
    }
}

/// Lines end with `"\r\n"` in the native window and with `"\n"` in the
/// immediate-mode window, and a line is its text followed by that ending.
pub proof fn law_line_endings(text: Seq<char>, ending: LineEnding)
    ensures
        LineEnding::CrLf.chars() == seq!['\r', '\n'],
        LineEnding::Lf.chars() == seq!['\n'],
        line(text, ending) == text + terminator(ending),
        Frontend::NativeWindow.ending() == LineEnding::CrLf,
        Frontend::Egui.ending() == LineEnding::Lf,
{
}

/// The video extensions are, in this order, those the tool documents.
pub proof fn law_video_list()
    ensures
        video_names() == seq![
            "avi"@, "wmv"@, "wmp"@, "wm"@, "asf"@,
            "mpg"@, "mpeg"@, "mpe"@, "m1v"@, "m2v"@,
            "mpv2"@, "mp2v"@, "ts"@, "tp"@, "tpr"@,
            "trp"@, "vob"@, "ifo"@, "ogm"@, "ogv"@,
            "mp4"@, "m4v"@, "m4p"@, "m4b"@, "3gp"@,
            "3gpp"@, "3g2"@, "3gp2"@, "mkv"@, "rm"@,
            "ram"@, "rmvb"@, "rpm"@, "flv"@, "mov"@,
            "qt"@, "nsv"@, "dpg"@, "m2ts"@, "m2t"@,
            "mts"@, "dvr-ms"@, "k3g"@, "skm"@, "evo"@,
            "nsr"@, "amv"@, "divx"@, "webm"@, "wtv"@,
            "f4v"@, "mxf"@
        ],
        MediaCategory::Video.names() == video_names(),
{
    assert(video_names() =~= seq![
        "avi"@, "wmv"@, "wmp"@, "wm"@, "asf"@,
        "mpg"@, "mpeg"@, "mpe"@, "m1v"@, "m2v"@,
        "mpv2"@, "mp2v"@, "ts"@, "tp"@, "tpr"@,
        "trp"@, "vob"@, "ifo"@, "ogm"@, "ogv"@,
        "mp4"@, "m4v"@, "m4p"@, "m4b"@, "3gp"@,
        "3gpp"@, "3g2"@, "3gp2"@, "mkv"@, "rm"@,
        "ram"@, "rmvb"@, "rpm"@, "flv"@, "mov"@,
        "qt"@, "nsv"@, "dpg"@, "m2ts"@, "m2t"@,
        "mts"@, "dvr-ms"@, "k3g"@, "skm"@, "evo"@,
        "nsr"@, "amv"@, "divx"@, "webm"@, "wtv"@,
        "f4v"@, "mxf"@
    ]);
}

/// The audio extensions are, in this order, those the tool documents.
pub proof fn law_audio_list()
    ensures
        audio_names() == seq![
            "wav"@, "wma"@, "mpa"@, "mp2"@, "m1a"@,
            "m2a"@, "mp3"@, "ogg"@, "m4a"@, "aac"@,
            "mka"@, "ra"@, "flac"@, "ape"@, "mpc"@,
            "mod"@, "ac3"@, "eac3"@, "dts"@, "dtshd"@,
            "wv"@, "tak"@, "cda"@, "dsf"@, "tta"@,
            "aiff"@, "aif"@, "opus"@
        ],
        MediaCategory::Audio.names() == audio_names(),
{
    assert(audio_names() =~= seq![
        "wav"@, "wma"@, "mpa"@, "mp2"@, "m1a"@,
        "m2a"@, "mp3"@, "ogg"@, "m4a"@, "aac"@,
        "mka"@, "ra"@, "flac"@, "ape"@, "mpc"@,
        "mod"@, "ac3"@, "eac3"@, "dts"@, "dtshd"@,
        "wv"@, "tak"@, "cda"@, "dsf"@, "tta"@,
        "aiff"@, "aif"@, "opus"@
    ]);
}

/// The playlist extensions are, in this order, those the tool documents.
pub proof fn law_playlist_list()
    ensures
        playlist_names() == seq![
            "asx"@, "m3u"@, "m3u8"@, "pls"@, "wvx"@,
            "wax"@, "wmx"@, "cue"@, "mpls"@, "mpl"@,
            "dpl"@, "xspf"@, "mpd"@
        ],
        MediaCategory::Playlist.names() == playlist_names(),
{
    assert(playlist_names() =~= seq![
        "asx"@, "m3u"@, "m3u8"@, "pls"@, "wvx"@,
        "wax"@, "wmx"@, "cue"@, "mpls"@, "mpl"@,
        "dpl"@, "xspf"@, "mpd"@
    ]);
}

/// The labels of the runs: each group's own name, and, when all groups are
/// cleaned, the native window's per-group names or the immediate-mode
/// window's single name.
pub proof fn law_labels(category: MediaCategory)
    ensures
        MediaCategory::Video.label_chars() == "视频格式"@,
        MediaCategory::Audio.label_chars() == "音频格式"@,
        MediaCategory::Playlist.label_chars() == "播放列表格式"@,
        Frontend::NativeWindow.all_label_chars(MediaCategory::Video) == "所有格式(视频)"@,
        Frontend::NativeWindow.all_label_chars(MediaCategory::Audio) == "所有格式(音频)"@,
        Frontend::NativeWindow.all_label_chars(MediaCategory::Playlist) == "所有格式(播放列表)"@,
        Frontend::Egui.all_label_chars(category) == "所有格式"@,
{
}

/// The fixed texts: the ready line, the line logged when the project's page
/// is opened, the page's address, and the registry path of `FileExts`.
pub proof fn law_fixed_texts()
    ensures
        ready_text() == "就绪... 等待指令。"@,
        opening_link_text() == "正在打开项目地址..."@,
        project_url_chars() == "https://github.com/NeetheCheeBao/WinMediaUnbind"@,
        file_exts_path_chars() == "Software\\Microsoft\\Windows\\CurrentVersion\\Explorer\\FileExts"@,
{
}

/// The texts of a run, for every label, every extension and both line
/// endings: the opening banner, the registry name of an extension (a dot
/// then the whole extension), the line that reports an extension (with its
/// whole dotted name), and the closing lines (with the whole label).
pub proof fn law_run_texts(label: Seq<char>, extension: Seq<char>, ending: LineEnding)
    ensures
        start_banner(label, ending) == "--- 开始处理: "@ + label + " ---"@ + terminator(ending),
        dotted(extension) == seq!['.'] + extension,
        cleaned_line(dotted(extension), ending) == "已清理: "@ + seq!['.'] + extension + terminator(ending),
        finish_text(label, ending) == ">> 已发送系统刷新信号，图标应已更新。"@ + terminator(ending) + "--- "@
            + label + " 处理完成 ---"@ + terminator(ending),
{
    assert(start_banner(label, ending) =~= "--- 开始处理: "@ + label + " ---"@ + terminator(ending));
    assert(cleaned_line(dotted(extension), ending) =~= "已清理: "@ + seq!['.'] + extension + terminator(
        ending,
    ));
    assert(finish_text(label, ending) =~= ">> 已发送系统刷新信号，图标应已更新。"@ + terminator(ending) + "--- "@
        + label + " 处理完成 ---"@ + terminator(ending));
}

/// For one extension, a run deletes the key named by a dot and the whole
/// extension under `HKEY_CLASSES_ROOT`, opens `FileExts`, deletes the same
/// key there when it opened, and, when at least one key went, appends
/// `"已清理: "`, the dot, the whole extension and the line ending.
pub proof fn law_extension_steps(extension: Seq<char>, o: ExtensionOutcome, ending: LineEnding)
    ensures
        ({
            let acts = extension_actions(extension, o, ending);
            let name = seq!['.'] + extension;
            let reported = o.classes_root || (o.opened && o.file_exts);
            &&& acts[0] == ActionView::DeleteClassesRootKey(name)
            &&& acts[1] == ActionView::OpenFileExtsKey
            &&& o.opened ==> acts[2] == ActionView::DeleteFileExtsKey(name)
            &&& acts.len() == 2 + (if o.opened { 1int } else { 0 }) + (if reported { 1int } else { 0 })
            &&& reported ==> acts.last() == ActionView::AppendLog(
                "已清理: "@ + seq!['.'] + extension + terminator(ending),
            )
        }),
{
    law_run_texts(seq![], extension, ending);
}

/// A run opens the log with `"--- 开始处理: "`, its whole label and
/// `" ---"`, and, after the refresh, closes it with the refresh notice and
/// `"--- "`, its whole label and `" 处理完成 ---"`, each line ended.
pub proof fn law_banners(s: JobView, ok: bool)
    ensures
        s.phase is Ready ==> step(s, ok).1 == ActionView::AppendLog(
            "--- 开始处理: "@ + s.label + " ---"@ + terminator(s.ending),
        ),
        s.phase is Refreshed ==> step(s, ok).1 == ActionView::AppendLog(
            ">> 已发送系统刷新信号，图标应已更新。"@ + terminator(s.ending) + "--- "@ + s.label
                + " 处理完成 ---"@ + terminator(s.ending),
        ),
{
    law_run_texts(s.label, seq![], s.ending);
}

/// For every window height below 2^31, the row of cleaning buttons lies 45
/// pixels above the bottom edge (35 of button, 10 of margin), and the log,
/// whose top is at 50, reaches down to 10 pixels above the buttons.
pub proof fn law_row_follows_bottom_edge(height: int)
    requires
        0 < height < 0x8000_0000,
    ensures
        button_row_y(height) + 35 + 10 == height,
        log_height(height) == height - 105,
        50 + log_height(height) + 10 == button_row_y(height),
{
    lemma_wrap_small(height - 45);
    lemma_wrap_small(height - 105);
}

/// For every window width from 50 to 2^31 - 1, each cleaning button is a
/// quarter (rounded down) of the width less the two margins and three gaps,
/// the buttons start one margin in and follow each other one gap apart, and
/// the log spans the width less the two margins.
pub proof fn law_row_spans_width(width: int, k: int)
    requires
        50 <= width < 0x8000_0000,
    ensures
        button_width(width) == (width - 50) / 4,
        button_x(width, 0) == 10,
        button_x(width, k + 1) == button_x(width, k) + button_width(width) + 10,
        wrap_u32(button_width(width)) == button_width(width),
        wrap_u32(width - 20) == width - 20,
{
    lemma_wrap_small(width - 50);
    assert(quarter(width - 50) == (width - 50) / 4);
    assert(button_x(width, k + 1) == 10 + k * (button_width(width) + 10) + (button_width(width) + 10)) by (
    nonlinear_arith);
    vstd::arithmetic::div_mod::lemma_small_mod(button_width(width) as nat, 0x1_0000_0000nat);
    vstd::arithmetic::div_mod::lemma_small_mod((width - 20) as nat, 0x1_0000_0000nat);
}

proof fn lemma_wrap_small(x: int)
    requires
        -0x8000_0000 <= x < 0x8000_0000,
    ensures
        wrap_i32(x) == x,
{
    vstd::arithmetic::div_mod::lemma_small_mod((x + 0x8000_0000) as nat, 0x1_0000_0000nat);
}

} // verus!
