use win_media_unbind::messages::{
    make_cleaned_line, make_dotted, make_finish_text, make_line, make_start_banner,
};
use win_media_unbind::{LineEnding, MediaCategory};
use win_media_unbind::cleaning::file_exts_path;
use win_media_unbind::unbind::project_url;

#[test]
fn line_endings() {
    assert_eq!(LineEnding::CrLf.as_str(), "\r\n");
    assert_eq!(LineEnding::Lf.as_str(), "\n");
    assert_eq!(make_line("abc", LineEnding::CrLf), "abc\r\n");
    assert_eq!(make_line("", LineEnding::Lf), "\n");
}

#[test]
fn log_texts() {
    assert_eq!(make_dotted("mp4"), ".mp4");
    assert_eq!(make_dotted("dvr-ms"), ".dvr-ms");
    assert_eq!(make_start_banner("视频格式", LineEnding::CrLf), "--- 开始处理: 视频格式 ---\r\n");
    assert_eq!(make_cleaned_line(".avi", LineEnding::Lf), "已清理: .avi\n");
    assert_eq!(
        make_finish_text("音频格式", LineEnding::CrLf),
        ">> 已发送系统刷新信号，图标应已更新。\r\n--- 音频格式 处理完成 ---\r\n"
    );
    assert_eq!(file_exts_path(), r"Software\Microsoft\Windows\CurrentVersion\Explorer\FileExts");
    assert_eq!(project_url(), "https://github.com/NeetheCheeBao/WinMediaUnbind");
}

#[test]
fn extension_groups() {
    let video = MediaCategory::Video.extensions();
    assert_eq!(video.len(), 52);
    assert_eq!(video[0], "avi");
    assert_eq!(video[41], "dvr-ms");
    assert_eq!(video[51], "mxf");
    let audio = MediaCategory::Audio.extensions();
    assert_eq!(audio.len(), 28);
    assert_eq!(audio[0], "wav");
    assert_eq!(audio[27], "opus");
    let playlist = MediaCategory::Playlist.extensions();
    assert_eq!(
        playlist,
        vec!["asx", "m3u", "m3u8", "pls", "wvx", "wax", "wmx", "cue", "mpls", "mpl", "dpl", "xspf", "mpd"]
    );
    assert_eq!(MediaCategory::Video.label(), "视频格式");
    assert_eq!(MediaCategory::Audio.label(), "音频格式");
    assert_eq!(MediaCategory::Playlist.label(), "播放列表格式");
    assert_eq!(MediaCategory::Playlist.all_label(), "所有格式(播放列表)");
}

#[test]
fn extension_groups_have_no_duplicates() {
    let mut all: Vec<&str> = Vec::new();
    for c in [MediaCategory::Video, MediaCategory::Audio, MediaCategory::Playlist] {
        all.extend(c.extensions());
    }
    let n = all.len();
    all.sort();
    all.dedup();
    assert_eq!(all.len(), n);
}
