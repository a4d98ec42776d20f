//! One cleaning run, as a state machine.
//!
//! A run removes, for each extension of a list in turn, the key `.<ext>`
//! under `HKEY_CLASSES_ROOT` and the key `.<ext>` under the current user's
//! `FileExts` key, reports each extension of which at least one key went,
//! then asks the shell to refresh its icons.  The registry and the shell are
//! outside this library: the job hands out one [`Action`] at a time and is
//! told, with the next call, whether that action succeeded.

use vstd::prelude::*;

use crate::extensions::views;
use crate::messages::{
    cleaned_line, dotted, finish_text, make_cleaned_line, make_dotted, make_finish_text,
    make_start_banner, start_banner, LineEnding,
};

verus! {

/// What the caller is asked to do next.
#[derive(Debug, PartialEq, Eq)]
pub enum Action {
    /// Append this text to the activity log.
    AppendLog(String),
    /// Delete, with all its subkeys, this key under `HKEY_CLASSES_ROOT`.
    DeleteClassesRootKey(String),
    /// Open the current user's `FileExts` key (see [`file_exts_path`]).
    OpenFileExtsKey,
    /// Delete, with all its subkeys, this key under the opened `FileExts` key.
    DeleteFileExtsKey(String),
    /// Tell the shell that file associations changed.
    RefreshIcons,
    /// The run is over; nothing more is asked.
    Finish,
}

/// The mathematical value of an [`Action`].
pub enum ActionView {
    AppendLog(Seq<char>),
    DeleteClassesRootKey(Seq<char>),
    OpenFileExtsKey,
    DeleteFileExtsKey(Seq<char>),
    RefreshIcons,
    Finish,
}

impl View for Action {
    type V = ActionView;

    open spec fn view(&self) -> ActionView {
        match self {
            Action::AppendLog(s) => ActionView::AppendLog(s@),
            Action::DeleteClassesRootKey(s) => ActionView::DeleteClassesRootKey(s@),
            Action::OpenFileExtsKey => ActionView::OpenFileExtsKey,
            Action::DeleteFileExtsKey(s) => ActionView::DeleteFileExtsKey(s@),
            Action::RefreshIcons => ActionView::RefreshIcons,
            Action::Finish => ActionView::Finish,
        }
    }
}

/// The path, under `HKEY_CURRENT_USER`, of the key that holds the user's
/// per-extension choices.
pub open spec fn file_exts_path_chars() -> Seq<char> {
    "Software\\Microsoft\\Windows\\CurrentVersion\\Explorer\\FileExts"@
}

/// The path, under `HKEY_CURRENT_USER`, of the user's `FileExts` key.
pub fn file_exts_path() -> (res: &'static str)
    ensures
        res@ == file_exts_path_chars(),
{
    "Software\\Microsoft\\Windows\\CurrentVersion\\Explorer\\FileExts"
}

/// Which action the job handed out last.
#[derive(Clone, Copy, Debug, PartialEq, Eq, Structural)]
pub enum Phase {
    /// None yet.
    Ready,
    /// The opening banner.
    Announced,
    /// The deletion under `HKEY_CLASSES_ROOT` of the current extension.
    ClassesRoot,
    /// The opening of the `FileExts` key, for the current extension.
    OpeningFileExts,
    /// The deletion under `FileExts` of the current extension.
    FileExts,
    /// The log line that reports the current extension.
    Reported,
    /// The refresh of the shell's icons.
    Refreshed,
    /// The closing lines of the log.
    Closed,
    /// [`Action::Finish`].
    Finished,
}

/// Where a job stands: the last action handed out, the extension it
/// concerns, and how many of that extension's keys were deleted so far.
#[derive(Clone, Copy, Debug)]
struct Cursor {
    phase: Phase,
    index: usize,
    deleted: u8,
}

/// The mathematical value of a [`CleaningJob`].
pub struct JobView {
    pub label: Seq<char>,
    pub extensions: Seq<Seq<char>>,
    pub ending: LineEnding,
    pub phase: Phase,
    pub index: nat,
    pub deleted: nat,
}

impl JobView {
    /// The states a job can be in.
    pub open spec fn well_formed(self) -> bool {
        &&& self.index <= self.extensions.len()
        &&& self.deleted <= 2
        &&& (self.phase is Ready || self.phase is Announced) ==> self.index == 0
        &&& (self.phase is ClassesRoot || self.phase is OpeningFileExts || self.phase is FileExts
            || self.phase is Reported) ==> self.index < self.extensions.len()
        &&& self.phase is ClassesRoot ==> self.deleted == 0
        &&& (self.phase is OpeningFileExts || self.phase is FileExts) ==> self.deleted <= 1
        &&& self.phase is Reported ==> self.deleted > 0
        &&& (self.phase is Refreshed || self.phase is Closed || self.phase is Finished)
            ==> self.index == self.extensions.len()
    }

    /// The same job at another point.
    pub open spec fn at(self, phase: Phase, index: nat, deleted: nat) -> JobView {
        JobView { phase, index, deleted, ..self }
    }

    /// The dotted name of the current extension.
    pub open spec fn current(self) -> Seq<char> {
        dotted(self.extensions[self.index as int])
    }
}

/// A job that has handed out nothing yet.
pub open spec fn initial_job(label: Seq<char>, extensions: Seq<Seq<char>>, ending: LineEnding) -> JobView {
    JobView { label, extensions, ending, phase: Phase::Ready, index: 0, deleted: 0 }
}

/// Start on extension `i`, or, past the last one, refresh the shell.
pub open spec fn begin(s: JobView, i: nat) -> (JobView, ActionView) {
    if i < s.extensions.len() {
        (s.at(Phase::ClassesRoot, i, 0), ActionView::DeleteClassesRootKey(dotted(s.extensions[i as int])))
    } else {
        (s.at(Phase::Refreshed, s.extensions.len(), 0), ActionView::RefreshIcons)
    }
}

/// The current extension is done, `deleted` of its keys went: report it if
/// any did, else go on with the next one.
pub open spec fn conclude(s: JobView, deleted: nat) -> (JobView, ActionView) {
    if deleted > 0 {
        (s.at(Phase::Reported, s.index, deleted), ActionView::AppendLog(cleaned_line(s.current(), s.ending)))
    } else {
        begin(s, s.index + 1)
    }
}

/// One if the action succeeded.
pub open spec fn count(ok: bool) -> nat {
    if ok { 1 } else { 0 }
}

/// The next state and action of job `s`, told that its last action
/// succeeded (`ok`) or not.  Only deletions and the opening of `FileExts`
/// have an outcome that matters.
pub open spec fn step(s: JobView, ok: bool) -> (JobView, ActionView) {
    match s.phase {
        Phase::Ready => (s.at(Phase::Announced, 0, 0), ActionView::AppendLog(start_banner(s.label, s.ending))),
        Phase::Announced => begin(s, 0),
        Phase::ClassesRoot => (s.at(Phase::OpeningFileExts, s.index, count(ok)), ActionView::OpenFileExtsKey),
        Phase::OpeningFileExts => if ok {
            (s.at(Phase::FileExts, s.index, s.deleted), ActionView::DeleteFileExtsKey(s.current()))
        } else {
            conclude(s, s.deleted)
        },
        Phase::FileExts => conclude(s, s.deleted + count(ok)),
        Phase::Reported => begin(s, s.index + 1),
        Phase::Refreshed => (s.at(Phase::Closed, s.index, 0), ActionView::AppendLog(finish_text(s.label, s.ending))),
        Phase::Closed => (s.at(Phase::Finished, s.index, 0), ActionView::Finish),
        Phase::Finished => (s.at(Phase::Finished, s.index, 0), ActionView::Finish),
    }
}

/// A cleaning run over a list of extensions.
pub struct CleaningJob {
    label: String,
    extensions: Vec<&'static str>,
    ending: LineEnding,
    cursor: Cursor,
}

impl View for CleaningJob {
    type V = JobView;

    closed spec fn view(&self) -> JobView {
        JobView {
            label: self.label@,
            extensions: views(self.extensions@),
            ending: self.ending,
            phase: self.cursor.phase,
            index: self.cursor.index as nat,
            deleted: self.cursor.deleted as nat,
        }
    }
}

impl CleaningJob {
    #[verifier::type_invariant]
    spec fn inv(self) -> bool {
        self@.well_formed()
    }

    /// A run labelled `label` over `extensions`, whose log lines end with
    /// `ending`.
    pub fn new(label: &str, extensions: Vec<&'static str>, ending: LineEnding) -> (job: CleaningJob)
        ensures
            job@ == initial_job(label@, views(extensions@), ending),
    {
        CleaningJob {
            label: String::from_str(label),
            extensions,
            ending,
            cursor: Cursor { phase: Phase::Ready, index: 0, deleted: 0 },
        }
    }

    /// True once the job has handed out [`Action::Finish`].
    pub fn is_finished(&self) -> (res: bool)
        ensures
            res == (self@.phase is Finished),
    {
        match self.cursor.phase {
            Phase::Finished => true,
            _ => false,
        }
    }

    /// The dotted name of extension `i`.
    fn dotted_at(&self, i: usize) -> (res: String)
        requires
            i < self@.extensions.len(),
        ensures
            res@ == dotted(self@.extensions[i as int]),
    {
        make_dotted(self.extensions[i])
    }

    /// Executable [`begin`].
    fn begin_at(&self, i: usize) -> (res: (Cursor, Action))
        requires
            i <= self@.extensions.len(),
        ensures
            ({
                let (t, a) = begin(self@, i as nat);
                &&& res.1@ == a
                &&& res.0.phase == t.phase
                &&& res.0.index == t.index
                &&& res.0.deleted == t.deleted
            }),
    {
        if i < self.extensions.len() {
            (Cursor { phase: Phase::ClassesRoot, index: i, deleted: 0 }, Action::DeleteClassesRootKey(self.dotted_at(i)))
        } else {
            (Cursor { phase: Phase::Refreshed, index: self.extensions.len(), deleted: 0 }, Action::RefreshIcons)
        }
    }

    /// Executable [`conclude`].
    fn conclude_with(&self, deleted: u8) -> (res: (Cursor, Action))
        requires
            self@.index < self@.extensions.len(),
            deleted <= 2,
        ensures
            ({
                let (t, a) = conclude(self@, deleted as nat);
                &&& res.1@ == a
                &&& res.0.phase == t.phase
                &&& res.0.index == t.index
                &&& res.0.deleted == t.deleted
            }),
    {
        let i = self.cursor.index;
        let n = self.extensions.len();
        assert(n == self@.extensions.len());
        if deleted > 0 {
            let name = self.dotted_at(i);
            let text = make_cleaned_line(name.as_str(), self.ending);
            (Cursor { phase: Phase::Reported, index: i, deleted }, Action::AppendLog(text))
        } else {
            self.begin_at(i + 1)
        }
    }

    /// Hands out the next action, told whether the previous one succeeded
    /// (`last_ok` is ignored where the previous action has no outcome, and on
    /// the first call).
    pub fn next_action(&mut self, last_ok: bool) -> (action: Action)
        ensures
            (final(self)@, action@) == step(old(self)@, last_ok),
            final(self)@.well_formed(),
    {
        proof {
            use_type_invariant(&*self);
        }
        let c = self.cursor;
        let n = self.extensions.len();
        assert(n == self@.extensions.len());
        let (next, action) = match c.phase {
            Phase::Ready => (
                Cursor { phase: Phase::Announced, index: 0, deleted: 0 },
                Action::AppendLog(make_start_banner(self.label.as_str(), self.ending)),
            ),
            Phase::Announced => self.begin_at(0),
            Phase::ClassesRoot => (
                Cursor { phase: Phase::OpeningFileExts, index: c.index, deleted: if last_ok { 1 } else { 0 } },
                Action::OpenFileExtsKey,
            ),
            Phase::OpeningFileExts => if last_ok {
                (Cursor { phase: Phase::FileExts, ..c }, Action::DeleteFileExtsKey(self.dotted_at(c.index)))
            } else {
                self.conclude_with(c.deleted)
            },
            Phase::FileExts => self.conclude_with(if last_ok { c.deleted + 1 } else { c.deleted }),
            Phase::Reported => self.begin_at(c.index + 1),
            Phase::Refreshed => (
                Cursor { phase: Phase::Closed, index: c.index, deleted: 0 },
                Action::AppendLog(make_finish_text(self.label.as_str(), self.ending)),
            ),
            Phase::Closed => (Cursor { phase: Phase::Finished, index: c.index, deleted: 0 }, Action::Finish),
            Phase::Finished => (Cursor { phase: Phase::Finished, index: c.index, deleted: 0 }, Action::Finish),
        };
        self.cursor = next;
        action
    }
}

/// What the registry answered for one extension of a run.
#[derive(Clone, Copy, Debug, PartialEq, Eq, Structural)]
pub struct ExtensionOutcome {
    /// The deletion under `HKEY_CLASSES_ROOT` succeeded.
    pub classes_root: bool,
    /// The `FileExts` key could be opened.
    pub opened: bool,
    /// The deletion under `FileExts` succeeded (asked only when opened).
    pub file_exts: bool,
}

/// The actions a run hands out for one extension, given the outcomes.
pub open spec fn extension_actions(extension: Seq<char>, o: ExtensionOutcome, ending: LineEnding) -> Seq<
    ActionView,
> {
    seq![ActionView::DeleteClassesRootKey(dotted(extension)), ActionView::OpenFileExtsKey] + (if o.opened {
        seq![ActionView::DeleteFileExtsKey(dotted(extension))]
    } else {
        Seq::empty()
    }) + (if o.classes_root || (o.opened && o.file_exts) {
        seq![ActionView::AppendLog(cleaned_line(dotted(extension), ending))]
    } else {
        Seq::empty()
    })
}

/// The actions for the extensions from `i` on.
pub open spec fn actions_from(
    extensions: Seq<Seq<char>>,
    outcomes: Seq<ExtensionOutcome>,
    ending: LineEnding,
    i: nat,
) -> Seq<ActionView>
    decreases extensions.len() - i,
{
    if i < extensions.len() {
        extension_actions(extensions[i as int], outcomes[i as int], ending) + actions_from(
            extensions,
            outcomes,
            ending,
            i + 1,
        )
    } else {
        Seq::empty()
    }
}

/// The actions that close a run.
pub open spec fn closing_actions(label: Seq<char>, ending: LineEnding) -> Seq<ActionView> {
    seq![ActionView::RefreshIcons, ActionView::AppendLog(finish_text(label, ending)), ActionView::Finish]
}

/// Everything a run hands out: the opening banner, the actions for each
/// extension in order, the refresh, the closing lines, and the end.
pub open spec fn expected_run(
    label: Seq<char>,
    extensions: Seq<Seq<char>>,
    outcomes: Seq<ExtensionOutcome>,
    ending: LineEnding,
) -> Seq<ActionView> {
    seq![ActionView::AppendLog(start_banner(label, ending))] + actions_from(extensions, outcomes, ending, 0)
        + closing_actions(label, ending)
}

/// What a registry that answers per `outcomes` replies to the last action of `s`.
pub open spec fn reply(s: JobView, outcomes: Seq<ExtensionOutcome>) -> bool {
    match s.phase {
        Phase::ClassesRoot => outcomes[s.index as int].classes_root,
        Phase::OpeningFileExts => outcomes[s.index as int].opened,
        Phase::FileExts => outcomes[s.index as int].file_exts,
        _ => true,
    }
}

/// The first `n` actions of job `s` driven against a registry that answers
/// per `outcomes`, `ok` being the answer to its last action.
pub open spec fn drive(s: JobView, outcomes: Seq<ExtensionOutcome>, ok: bool, n: nat) -> Seq<ActionView>
    decreases n,
{
    if n == 0 {
        Seq::empty()
    } else {
        let (t, a) = step(s, ok);
        seq![a] + drive(t, outcomes, reply(t, outcomes), (n - 1) as nat)
    }
}

proof fn lemma_drive_unfold(s: JobView, outcomes: Seq<ExtensionOutcome>, ok: bool, n: nat)
    requires
        n > 0,
    ensures
        drive(s, outcomes, ok, n) == seq![step(s, ok).1] + drive(
            step(s, ok).0,
            outcomes,
            reply(step(s, ok).0, outcomes),
            (n - 1) as nat,
        ),
{
}

/// From extension `i` on, a job hands out the actions of [`actions_from`]
/// then [`closing_actions`].
proof fn lemma_run_from(s: JobView, outcomes: Seq<ExtensionOutcome>, i: nat)
    requires
        i <= s.extensions.len(),
        outcomes.len() == s.extensions.len(),
    ensures
        ({
            let rest = actions_from(s.extensions, outcomes, s.ending, i) + closing_actions(s.label, s.ending);
            seq![begin(s, i).1] + drive(begin(s, i).0, outcomes, reply(begin(s, i).0, outcomes), (rest.len() - 1) as nat)
                == rest
        }),
    decreases s.extensions.len() - i,
{
    let exts = s.extensions;
    let closing = closing_actions(s.label, s.ending);
    if i < exts.len() {
        let o = outcomes[i as int];
        let d = dotted(exts[i as int]);
        let tail = actions_from(exts, outcomes, s.ending, i + 1) + closing;
        let ext = extension_actions(exts[i as int], o, s.ending);
        let rest = actions_from(exts, outcomes, s.ending, i) + closing;
        assert(rest =~= ext + tail);
        let t0 = begin(s, i).0;
        assert(t0 == s.at(Phase::ClassesRoot, i, 0));
        let t1 = s.at(Phase::OpeningFileExts, i, count(o.classes_root));
        let n0 = (rest.len() - 1) as nat;
        lemma_drive_unfold(t0, outcomes, o.classes_root, n0);
        assert(step(t0, o.classes_root) == (t1, ActionView::OpenFileExtsKey));
        let k1 = count(o.classes_root);
        // the state in which the extension is done, and how many keys went
        let (tc, kc) = if o.opened {
            (s.at(Phase::FileExts, i, k1), k1 + count(o.file_exts))
        } else {
            (t1, k1)
        };
        let reported = kc > 0;
        assert(reported == (o.classes_root || (o.opened && o.file_exts)));
        let n_c = if o.opened { (n0 - 2) as nat } else { (n0 - 1) as nat };
        if o.opened {
            lemma_drive_unfold(t1, outcomes, true, (n0 - 1) as nat);
            assert(step(t1, true) == (tc, ActionView::DeleteFileExtsKey(d)));
        }
        assert(drive(t0, outcomes, o.classes_root, n0) == seq![ActionView::OpenFileExtsKey] + (if o.opened {
            seq![ActionView::DeleteFileExtsKey(d)]
        } else {
            Seq::empty()
        }) + drive(tc, outcomes, reply(tc, outcomes), n_c)) by {
            if o.opened {
                assert(seq![ActionView::OpenFileExtsKey] + seq![ActionView::DeleteFileExtsKey(d)] + drive(tc, outcomes, reply(tc, outcomes), n_c)
                    =~= seq![ActionView::OpenFileExtsKey] + (seq![ActionView::DeleteFileExtsKey(d)] + drive(tc, outcomes, reply(tc, outcomes), n_c)));
            } else {
                assert(seq![ActionView::OpenFileExtsKey] + Seq::<ActionView>::empty() =~= seq![ActionView::OpenFileExtsKey]);
            }
        }
        lemma_drive_unfold(tc, outcomes, reply(tc, outcomes), n_c);
        assert(step(tc, reply(tc, outcomes)) == conclude(tc, kc));
        if reported {
            let tr = s.at(Phase::Reported, i, kc);
            assert(conclude(tc, kc) == (tr, ActionView::AppendLog(cleaned_line(d, s.ending))));
            lemma_drive_unfold(tr, outcomes, true, (n_c - 1) as nat);
            assert(step(tr, true) == begin(tr, i + 1));
            lemma_run_from(tr, outcomes, i + 1);
            assert(begin(tr, i + 1) == begin(s, i + 1));
        } else {
            assert(conclude(tc, kc) == begin(tc, i + 1));
            lemma_run_from(tc, outcomes, i + 1);
            assert(begin(tc, i + 1) == begin(s, i + 1));
        }
        assert(seq![begin(s, i).1] + drive(t0, outcomes, reply(t0, outcomes), n0) =~= rest);
    } else {
        let rest = actions_from(exts, outcomes, s.ending, i) + closing;
        assert(rest =~= closing);
        let t0 = begin(s, i).0;
        lemma_drive_unfold(t0, outcomes, true, 2);
        let t1 = step(t0, true).0;
        lemma_drive_unfold(t1, outcomes, true, 1);
        assert(drive(step(t1, true).0, outcomes, true, 0) == Seq::<ActionView>::empty());
        assert(seq![begin(s, i).1] + drive(t0, outcomes, reply(t0, outcomes), 2) =~= rest);
    }
}

/// A run does what the tool promises: driven against a registry that answers
/// per `outcomes`, a new job hands out the opening banner; then, for each
/// extension in order, the deletion of its key under `HKEY_CLASSES_ROOT`, the
/// opening of `FileExts`, the deletion of its key there when that opened, and
/// the line that reports it when at least one of its keys went; then the
/// refresh of the shell's icons, the closing lines, and the end.
pub proof fn law_run(
    label: Seq<char>,
    extensions: Seq<Seq<char>>,
    outcomes: Seq<ExtensionOutcome>,
    ending: LineEnding,
)
    requires
        outcomes.len() == extensions.len(),
    ensures
        ({
            let expected = expected_run(label, extensions, outcomes, ending);
            drive(initial_job(label, extensions, ending), outcomes, true, expected.len()) == expected
        }),
{
    let s = initial_job(label, extensions, ending);
    let expected = expected_run(label, extensions, outcomes, ending);
    let rest = actions_from(extensions, outcomes, ending, 0) + closing_actions(label, ending);
    assert(expected =~= seq![ActionView::AppendLog(start_banner(label, ending))] + rest);
    lemma_drive_unfold(s, outcomes, true, expected.len());
    let a = s.at(Phase::Announced, 0, 0);
    lemma_drive_unfold(a, outcomes, true, (expected.len() - 1) as nat);
    assert(step(a, true) == begin(a, 0));
    lemma_run_from(a, outcomes, 0);
}

/// Once finished, a job stays finished and asks for nothing more.
pub proof fn law_finished_is_final(s: JobView, ok: bool)
    requires
        s.phase is Finished,
    ensures
        step(s, ok).0 == s.at(Phase::Finished, s.index, 0),
        step(s, ok).1 == ActionView::Finish,
{
}

} // verus!
