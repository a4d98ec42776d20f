//! The texts that the tool writes to its activity log.

use vstd::prelude::*;

verus! {

/// How each line of the activity log is terminated.
#[derive(Clone, Copy, Debug, PartialEq, Eq, Structural)]
pub enum LineEnding {
    /// `"\r\n"`, as the edit control of the native window needs.
    CrLf,
    /// `"\n"`.
    Lf,
}

impl LineEnding {
    /// The characters that end a line.
    pub open spec fn chars(self) -> Seq<char> {
        match self {
            LineEnding::CrLf => seq!['\r', '\n'],
            LineEnding::Lf => seq!['\n'],
        }
    }

    /// The characters that end a line, as a string.
    pub fn as_str(&self) -> (s: &'static str)
        ensures
            s@ == self.chars(),
    {
        match self {
            LineEnding::CrLf => {
                proof {
                    reveal_strlit("\r\n");
                }
                "\r\n"
            },
            LineEnding::Lf => {
                proof {
                    reveal_strlit("\n");
                }
                "\n"
            },
        }
    }
}

/// A log line: the text followed by the line ending.
pub open spec fn line(text: Seq<char>, ending: LineEnding) -> Seq<char> {
    text + ending.chars()
}

/// Builds a log line: `text` followed by the line ending.
pub fn make_line(text: &str, ending: LineEnding) -> (res: String)
    ensures
        res@ == line(text@, ending),
{
    String::from_str(text).concat(ending.as_str())
}

/// Text of the banner that opens a cleaning run.
pub open spec fn start_banner(label: Seq<char>, ending: LineEnding) -> Seq<char> {
    line("--- 开始处理: "@ + label + " ---"@, ending)
}

/// Builds the banner that opens a cleaning run for `label`.
pub fn make_start_banner(label: &str, ending: LineEnding) -> (res: String)
    ensures
        res@ == start_banner(label@, ending),
{
    String::from_str("--- 开始处理: ").concat(label).concat(" ---").concat(ending.as_str())
}

/// An extension with its leading dot, as the registry names its key.
pub open spec fn dotted(extension: Seq<char>) -> Seq<char> {
    seq!['.'] + extension
}

/// Builds `"." + extension`.
pub fn make_dotted(extension: &str) -> (res: String)
    ensures
        res@ == dotted(extension@),
{
    proof {
        reveal_strlit(".");
    }
    String::from_str(".").concat(extension)
}

/// The line that reports an extension whose association was removed
/// (`dotted_extension` already carries its dot).
pub open spec fn cleaned_line(dotted_extension: Seq<char>, ending: LineEnding) -> Seq<char> {
    line("已清理: "@ + dotted_extension, ending)
}

/// Builds the line that reports `dotted_extension` as cleaned.
pub fn make_cleaned_line(dotted_extension: &str, ending: LineEnding) -> (res: String)
    ensures
        res@ == cleaned_line(dotted_extension@, ending),
{
    String::from_str("已清理: ").concat(dotted_extension).concat(ending.as_str())
}

/// The two lines that close a cleaning run for `label`: the notice that the
/// shell was told to refresh, then the closing banner.
pub open spec fn finish_text(label: Seq<char>, ending: LineEnding) -> Seq<char> {
    line(">> 已发送系统刷新信号，图标应已更新。"@, ending) + line("--- "@ + label + " 处理完成 ---"@, ending)
}

/// Builds the two lines that close a cleaning run for `label`.
pub fn make_finish_text(label: &str, ending: LineEnding) -> (res: String)
    ensures
        res@ == finish_text(label@, ending),
{
    let end = ending.as_str();
    let res = String::from_str(">> 已发送系统刷新信号，图标应已更新。").concat(end).concat("--- ").concat(
        label,
    ).concat(" 处理完成 ---").concat(end);
    assert(res@ =~= finish_text(label@, ending));
    res
}

} // verus!
