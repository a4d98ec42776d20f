//! The tool's own state: its activity log, and the cleaning runs its
//! buttons start.

use vstd::prelude::*;

use crate::cleaning::{initial_job, step, ActionView, CleaningJob, JobView};
use crate::extensions::{views, MediaCategory};
use crate::messages::{line, make_line, LineEnding};

verus! {

/// The two front ends of the tool, which differ in how they end log lines
/// and in how they label the runs of "clean everything".
#[derive(Clone, Copy, Debug, PartialEq, Eq, Structural)]
pub enum Frontend {
    /// The native Windows window.
    NativeWindow,
    /// The immediate-mode window.
    Egui,
}

impl Frontend {
    /// How log lines end in this front end.
    pub open spec fn ending(self) -> LineEnding {
        match self {
            Frontend::NativeWindow => LineEnding::CrLf,
            Frontend::Egui => LineEnding::Lf,
        }
    }

    /// How log lines end in this front end.
    pub fn line_ending(&self) -> (res: LineEnding)
        ensures
            res == self.ending(),
    {
        match self {
            Frontend::NativeWindow => LineEnding::CrLf,
            Frontend::Egui => LineEnding::Lf,
        }
    }

    /// The label of the run over `category` when all groups are cleaned.
    pub open spec fn all_label_chars(self, category: MediaCategory) -> Seq<char> {
        match self {
            Frontend::NativeWindow => category.all_label_chars(),
            Frontend::Egui => "所有格式"@,
        }
    }

    /// The label of the run over `category` when all groups are cleaned.
    pub fn all_label(&self, category: MediaCategory) -> (res: &'static str)
        ensures
            res@ == self.all_label_chars(category),
    {
        match self {
            Frontend::NativeWindow => category.all_label(),
            Frontend::Egui => "所有格式",
        }
    }
}

/// The address of the project's page.
pub open spec fn project_url_chars() -> Seq<char> {
    "https://github.com/NeetheCheeBao/WinMediaUnbind"@
}

/// The address of the project's page, which the link button opens.
pub fn project_url() -> (res: &'static str)
    ensures
        res@ == project_url_chars(),
{
    "https://github.com/NeetheCheeBao/WinMediaUnbind"
}

/// The text logged when the tool is ready.
pub open spec fn ready_text() -> Seq<char> {
    "就绪... 等待指令。"@
}

/// The text logged when the project's page is being opened.
pub open spec fn opening_link_text() -> Seq<char> {
    "正在打开项目地址..."@
}

/// The tool: which front end it serves, and its activity log.
pub struct WinMediaUnbind {
    frontend: Frontend,
    logs: String,
}

impl WinMediaUnbind {
    /// The front end this state serves.
    pub closed spec fn frontend_spec(&self) -> Frontend {
        self.frontend
    }

    /// Everything logged so far.
    pub closed spec fn log_text(&self) -> Seq<char> {
        self.logs@
    }

    /// A tool with an empty log.
    pub fn new(frontend: Frontend) -> (res: WinMediaUnbind)
        ensures
            res.frontend_spec() == frontend,
            res.log_text() == Seq::<char>::empty(),
    {
        WinMediaUnbind { frontend, logs: String::new() }
    }

    /// The front end this state serves.
    pub fn frontend(&self) -> (res: Frontend)
        ensures
            res == self.frontend_spec(),
    {
        self.frontend
    }

    /// Everything logged so far.
    pub fn logs(&self) -> (res: &str)
        ensures
            res@ == self.log_text(),
    {
        self.logs.as_str()
    }

    /// Appends `msg`, as it is, to the log.
    pub fn append_log(&mut self, msg: &str)
        ensures
            final(self).frontend_spec() == old(self).frontend_spec(),
            final(self).log_text() == old(self).log_text() + msg@,
    {
        self.logs.append(msg);
    }

    /// Appends `message` to the log as a line of its own.
    pub fn log(&mut self, message: &str)
        ensures
            final(self).frontend_spec() == old(self).frontend_spec(),
            final(self).log_text() == old(self).log_text() + line(message@, old(self).frontend_spec().ending()),
    {
        let text = make_line(message, self.frontend.line_ending());
        self.logs.append(text.as_str());
    }

    /// Logs that the tool is ready.
    pub fn announce_ready(&mut self)
        ensures
            final(self).frontend_spec() == old(self).frontend_spec(),
            final(self).log_text() == old(self).log_text() + line(ready_text(), old(self).frontend_spec().ending()),
    {
        self.log("就绪... 等待指令。");
    }

    /// Logs that the project's page is being opened (the caller opens
    /// [`project_url`]).
    pub fn open_link(&mut self)
        ensures
            final(self).frontend_spec() == old(self).frontend_spec(),
            final(self).log_text() == old(self).log_text() + line(
                opening_link_text(),
                old(self).frontend_spec().ending(),
            ),
    {
        self.log("正在打开项目地址...");
    }

    /// A cleaning run labelled `label` over `extensions`, logging in this
    /// front end's way.
    pub fn run_cleaning(&self, label: &str, extensions: Vec<&'static str>) -> (job: CleaningJob)
        ensures
            job@ == initial_job(label@, views(extensions@), self.frontend_spec().ending()),
    {
        CleaningJob::new(label, extensions, self.frontend.line_ending())
    }

    /// The run of one group, labelled with the group's name.
    pub fn clean(&self, category: MediaCategory) -> (job: CleaningJob)
        ensures
            job@ == initial_job(category.label_chars(), category.names(), self.frontend_spec().ending()),
    {
        self.run_cleaning(category.label(), category.extensions())
    }

    /// The run of the video extensions.
    pub fn clean_video(&self) -> (job: CleaningJob)
        ensures
            job@ == initial_job(
                MediaCategory::Video.label_chars(),
                MediaCategory::Video.names(),
                self.frontend_spec().ending(),
            ),
    {
        self.clean(MediaCategory::Video)
    }

    /// The run of the audio extensions.
    pub fn clean_audio(&self) -> (job: CleaningJob)
        ensures
            job@ == initial_job(
                MediaCategory::Audio.label_chars(),
                MediaCategory::Audio.names(),
                self.frontend_spec().ending(),
            ),
    {
        self.clean(MediaCategory::Audio)
    }

    /// The run of the playlist extensions.
    pub fn clean_playlist(&self) -> (job: CleaningJob)
        ensures
            job@ == initial_job(
                MediaCategory::Playlist.label_chars(),
                MediaCategory::Playlist.names(),
                self.frontend_spec().ending(),
            ),
    {
        self.clean(MediaCategory::Playlist)
    }

    /// The three runs of "clean everything": video, audio, then playlists,
    /// each labelled as this front end labels them.
    pub fn clean_all(&self) -> (jobs: Vec<CleaningJob>)
        ensures
            jobs@.len() == 3,
            jobs@[0]@ == all_job(self.frontend_spec(), MediaCategory::Video),
            jobs@[1]@ == all_job(self.frontend_spec(), MediaCategory::Audio),
            jobs@[2]@ == all_job(self.frontend_spec(), MediaCategory::Playlist),
    {
        let mut jobs = Vec::new();
        jobs.push(self.run_cleaning(self.frontend.all_label(MediaCategory::Video), MediaCategory::Video.extensions()));
        jobs.push(self.run_cleaning(self.frontend.all_label(MediaCategory::Audio), MediaCategory::Audio.extensions()));
        jobs.push(
            self.run_cleaning(self.frontend.all_label(MediaCategory::Playlist), MediaCategory::Playlist.extensions()),
        );
        jobs
    }
}

/// `a` is the beginning of `b`.
pub open spec fn is_prefix_of(a: Seq<char>, b: Seq<char>) -> bool {
    a.len() <= b.len() && b.subrange(0, a.len() as int) == a
}

/// `text` ends with the line ending.
pub open spec fn ends_line(text: Seq<char>, ending: LineEnding) -> bool {
    text.len() >= ending.chars().len() && text.subrange(
        text.len() - ending.chars().len(),
        text.len() as int,
    ) == ending.chars()
}

/// The log went from `old` to `new` by appending whole lines: `old` is kept
/// as it was, and what follows it ends with the line ending.
pub open spec fn grows_by_lines(old: Seq<char>, new: Seq<char>, ending: LineEnding) -> bool {
    &&& is_prefix_of(old, new)
    &&& ends_line(new.subrange(old.len() as int, new.len() as int), ending)
}

/// Appending `text` grows the log by whole lines when `text` ends a line.
proof fn lemma_append_line(old: Seq<char>, text: Seq<char>, ending: LineEnding)
    requires
        ends_line(text, ending),
    ensures
        grows_by_lines(old, old + text, ending),
{
    assert((old + text).subrange(0, old.len() as int) =~= old);
    assert((old + text).subrange(old.len() as int, (old + text).len() as int) =~= text);
}

/// Each of [`WinMediaUnbind::log`], [`WinMediaUnbind::announce_ready`] and
/// [`WinMediaUnbind::open_link`] grows the log by one whole line: what was
/// logged stays, and the added text ends with the front end's line ending.
pub proof fn law_logging_appends_lines(old: Seq<char>, message: Seq<char>, frontend: Frontend)
    ensures
        grows_by_lines(old, old + line(message, frontend.ending()), frontend.ending()),
        grows_by_lines(old, old + line(ready_text(), frontend.ending()), frontend.ending()),
        grows_by_lines(old, old + line(opening_link_text(), frontend.ending()), frontend.ending()),
{
    let e = frontend.ending();
    assert forall|t: Seq<char>| ends_line(#[trigger] line(t, e), e) by {
        assert(line(t, e).subrange(line(t, e).len() - e.chars().len(), line(t, e).len() as int) =~= e.chars());
    }
    lemma_append_line(old, line(message, e), e);
    lemma_append_line(old, line(ready_text(), e), e);
    lemma_append_line(old, line(opening_link_text(), e), e);
}

/// Every text a cleaning run asks to append to the log ends with the run's
/// line ending, so appending it grows the log by whole lines.
pub proof fn law_run_appends_lines(s: JobView, ok: bool, old: Seq<char>)
    ensures
        step(s, ok).1 matches ActionView::AppendLog(text) ==> grows_by_lines(old, old + text, s.ending),
{
    let e = s.ending;
    assert forall|t: Seq<char>| ends_line(#[trigger] line(t, e), e) by {
        assert(line(t, e).subrange(line(t, e).len() - e.chars().len(), line(t, e).len() as int) =~= e.chars());
    }
    assert forall|a: Seq<char>, b: Seq<char>| #[trigger] ends_line(a + b, e) <== ends_line(b, e) by {
        if ends_line(b, e) {
            assert((a + b).subrange((a + b).len() - e.chars().len(), (a + b).len() as int)
                =~= b.subrange(b.len() - e.chars().len(), b.len() as int));
        }
    }
    if let ActionView::AppendLog(text) = step(s, ok).1 {
        assert(ends_line(text, e));
        lemma_append_line(old, text, e);
    }
}

/// Over any sequence of log states in which each grows the one before by
/// whole lines, the log only grows: every state is the beginning of every
/// later one, and each later state ends a line.
pub proof fn law_log_only_grows(logs: Seq<Seq<char>>, ending: LineEnding)
    requires
        forall|i: int| 0 <= i < logs.len() - 1 ==> grows_by_lines(#[trigger] logs[i], logs[i + 1], ending),
    ensures
        forall|i: int, j: int| 0 <= i <= j < logs.len() ==> is_prefix_of(#[trigger] logs[i], #[trigger] logs[j]),
        forall|i: int, j: int| 0 <= i < j < logs.len() ==> ends_line(#[trigger] logs[j].subrange(logs[i].len() as int, logs[j].len() as int), ending),
    decreases logs.len(),
{
    if logs.len() > 0 {
        let init = logs.drop_last();
        assert forall|i: int| 0 <= i < init.len() - 1 implies grows_by_lines(#[trigger] init[i], init[i + 1], ending) by {
            assert(init[i] == logs[i] && init[i + 1] == logs[i + 1]);
        }
        law_log_only_grows(init, ending);
        let last = logs.len() - 1;
        assert forall|i: int, j: int| 0 <= i <= j < logs.len() implies is_prefix_of(#[trigger] logs[i], #[trigger] logs[j]) by {
            if j < last {
                assert(init[i] == logs[i] && init[j] == logs[j]);
            } else if i < j {
                let p = logs[last - 1];
                if i < last - 1 {
                    assert(init[i] == logs[i] && init[last - 1] == p);
                    assert(is_prefix_of(init[i], init[last - 1]));
                }
                assert(grows_by_lines(p, logs[j], ending));
                assert(is_prefix_of(logs[i], p));
                assert(logs[j].subrange(0, logs[i].len() as int) =~= p.subrange(0, logs[i].len() as int));
            } else {
                assert(logs[j].subrange(0, logs[j].len() as int) =~= logs[j]);
            }
        }
        assert forall|i: int, j: int| 0 <= i < j < logs.len() implies ends_line(#[trigger] logs[j].subrange(logs[i].len() as int, logs[j].len() as int), ending) by {
            let p = logs[j - 1];
            assert(grows_by_lines(p, logs[j], ending));
            assert(is_prefix_of(logs[i], logs[j]));
            let t = logs[j].subrange(p.len() as int, logs[j].len() as int);
            let u = logs[j].subrange(logs[i].len() as int, logs[j].len() as int);
            if j - 1 > i {
                if j - 1 < last {
                    assert(init[i] == logs[i] && init[j - 1] == p);
                }
                assert(is_prefix_of(logs[i], p));
            }
            assert(logs[i].len() <= p.len());
            let k = ending.chars().len();
            assert(u.subrange(u.len() - k, u.len() as int) =~= t.subrange(t.len() - k, t.len() as int));
        }
    }
}

/// The run over `category` that "clean everything" starts in `frontend`.
pub open spec fn all_job(frontend: Frontend, category: MediaCategory) -> JobView {
    initial_job(frontend.all_label_chars(category), category.names(), frontend.ending())
}

impl Default for WinMediaUnbind {
    /// The immediate-mode front end's tool, whose log opens with the ready
    /// line.
    fn default() -> (res: WinMediaUnbind)
        ensures
            res.frontend_spec() == Frontend::Egui,
            res.log_text() == line(ready_text(), LineEnding::Lf),
    {
        let mut res = WinMediaUnbind::new(Frontend::Egui);
        res.announce_ready();
        res
    }
}

} // verus!
