//! The panel that shows the end of the newest log file.

use crate::text::{chars_of, starts_with_text, text_starts_with};
use vstd::prelude::*;

verus! {

/// How many lines the panel shows.
pub const PANEL_LINES: usize = 100;

/// Whether `extension` is `log`, in any mix of upper and lower case.
pub open spec fn is_log_extension(extension: Seq<char>) -> bool {
    &&& extension.len() == 3
    &&& (extension[0] == 'l' || extension[0] == 'L')
    &&& (extension[1] == 'o' || extension[1] == 'O')
    &&& (extension[2] == 'g' || extension[2] == 'G')
}

/// Whether a file with this name and this extension is a log file of the
/// application: the name begins with `changqiao` or `longbridge`, and the
/// extension is `log`.
pub open spec fn log_file_name(name: Seq<char>, extension: Option<Seq<char>>) -> bool {
    &&& starts_with_text(name, "changqiao"@) || starts_with_text(name, "longbridge"@)
    &&& extension matches Some(e) && is_log_extension(e)
}

/// `Path::extension` of std, as text. What counts as the extension of a name is
/// std's affair and depends on the platform: nothing is claimed of it.
#[verifier::external_body]
fn path_extension(name: &str) -> (r: Option<String>) {
    std::path::Path::new(name).extension().and_then(|e| e.to_str()).map(String::from)
}

/// Whether a file with this name and this extension is a log file of the
/// application.
pub fn names_log_file(name: &str, extension: Option<&str>) -> (r: bool)
    ensures
        r == log_file_name(
            name@,
            match extension {
                Some(e) => Some(e@),
                None => None,
            },
        ),
{
    if !(text_starts_with(name, "changqiao") || text_starts_with(name, "longbridge")) {
        return false;
    }
    match extension {
        Some(e) => {
            let v = chars_of(e);
            v.len() == 3 && (v[0] == 'l' || v[0] == 'L') && (v[1] == 'o' || v[1] == 'O') && (v[2]
                == 'g' || v[2] == 'G')
        },
        None => false,
    }
}

/// Whether `name` names a log file of the application, going by the extension
/// that the platform sees in it.
pub fn is_log_file_name(name: &str) -> (r: bool)
    ensures
        r ==> starts_with_text(name@, "changqiao"@) || starts_with_text(name@, "longbridge"@),
{
    match path_extension(name) {
        Some(extension) => names_log_file(name, Some(extension.as_str())),
        None => names_log_file(name, None),
    }
}

/// The last `count` of `lines`, and at least the last one.
pub open spec fn last_lines<T>(lines: Seq<T>, count: usize) -> Seq<T> {
    let keep = if count < 1 {
        1
    } else {
        count as int
    };
    if lines.len() <= keep {
        lines
    } else {
        lines.skip(lines.len() - keep)
    }
}

/// Keeps the last `count` lines, and at least the last one.
pub fn read_last_lines(lines: Vec<String>, count: usize) -> (r: Vec<String>)
    ensures
        r@ == last_lines(lines@, count),
{
    let keep: usize = if count < 1 {
        1
    } else {
        count
    };
    let mut all = lines;
    if all.len() <= keep {
        return all;
    }
    let at: usize = all.len() - keep;
    all.split_off(at)
}

/// What identifies the content of a log file: its path, when it was last
/// modified, and its size.
#[derive(Debug)]
pub struct LogFileStamp {
    pub path: String,
    /// Time of the last modification, in nanoseconds since the epoch, if known.
    pub modified: Option<u64>,
    pub size: u64,
}

/// Whether the file at `i` is the newest of `files`: none was modified later,
/// and none before it as late. A file whose time is not known counts as older
/// than every file whose time is known.
pub open spec fn is_latest(files: Seq<LogFileStamp>, i: int) -> bool {
    &&& 0 <= i < files.len()
    &&& forall|j: int| 0 <= j < files.len() ==> !modified_later(#[trigger] files[j], files[i])
    &&& forall|j: int| 0 <= j < i ==> modified_later(files[i], #[trigger] files[j])
}

/// Whether `a` was modified later than `b`.
pub open spec fn modified_later(a: LogFileStamp, b: LogFileStamp) -> bool {
    match (a.modified, b.modified) {
        (Some(x), Some(y)) => x > y,
        (Some(_), None) => true,
        _ => false,
    }
}

/// The place of the newest of `files`, the first of them among equals.
pub fn latest_log_file(files: &Vec<LogFileStamp>) -> (r: Option<usize>)
    ensures
        match r {
            Some(i) => is_latest(files@, i as int),
            None => files@.len() == 0,
        },
{
    if files.len() == 0 {
        return None;
    }
    let mut best: usize = 0;
    let mut n: usize = 1;
    while n < files.len()
        invariant
            1 <= n <= files.len(),
            best < n,
            forall|j: int| 0 <= j < n ==> !modified_later(#[trigger] files@[j], files@[best as int]),
            forall|j: int|
                0 <= j < best ==> modified_later(files@[best as int], #[trigger] files@[j]),
        decreases files.len() - n,
    {
        let later = match (files[n].modified, files[best].modified) {
            (Some(x), Some(y)) => x > y,
            (Some(_), None) => true,
            _ => false,
        };
        if later {
            best = n;
        }
        n = n + 1;
    }
    Some(best)
}

/// The log panel.
#[derive(Debug)]
pub struct LogPanel {
    lines: Vec<String>,
    visible: bool,
    shown: Option<LogFileStamp>,
}

/// What a `LogPanel` holds.
pub struct LogPanelView {
    pub lines: Seq<Seq<char>>,
    pub visible: bool,
    pub shown: Option<(Seq<char>, Option<u64>, u64)>,
}

/// What identifies the content of a log file, as plain values.
pub open spec fn stamp_of(stamp: Option<LogFileStamp>) -> Option<(Seq<char>, Option<u64>, u64)> {
    match stamp {
        Some(s) => Some((s.path@, s.modified, s.size)),
        None => None,
    }
}

impl View for LogPanel {
    type V = LogPanelView;

    closed spec fn view(&self) -> LogPanelView {
        LogPanelView {
            lines: self.lines@.map_values(|l: String| l@),
            visible: self.visible,
            shown: stamp_of(self.shown),
        }
    }
}

impl LogPanel {
    /// A hidden panel that shows nothing.
    pub fn new() -> (r: Self)
        ensures
            r@ == (LogPanelView { lines: Seq::empty(), visible: false, shown: None }),
    {
        let r = LogPanel { lines: Vec::new(), visible: false, shown: None };
        assert(r@.lines =~= Seq::empty());
        r
    }

    /// Whether the panel has to read `latest`, the newest log file, to be up to
    /// date: it does unless it shows that very file, unchanged.
    pub fn is_outdated(&self, latest: &LogFileStamp) -> (r: bool)
        ensures
            r == (self@.shown != stamp_of(Some(*latest))),
    {
        match &self.shown {
            Some(s) => !(s.path == latest.path && s.modified == latest.modified && s.size
                == latest.size),
            None => true,
        }
    }

    /// Takes in what was read of the newest log file, or that there is none.
    pub fn refresh(&mut self, read: Option<(LogFileStamp, Vec<String>)>)
        ensures
            final(self)@ == (match read {
                Some((stamp, lines)) => LogPanelView {
                    lines: last_lines(lines@, PANEL_LINES).map_values(|l: String| l@),
                    visible: old(self)@.visible,
                    shown: stamp_of(Some(stamp)),
                },
                None => LogPanelView { lines: Seq::empty(), visible: old(self)@.visible, shown: None },
            }),
    {
        match read {
            Some((stamp, lines)) => {
                self.lines = read_last_lines(lines, PANEL_LINES);
                self.shown = Some(stamp);
            },
            None => {
                self.lines = Vec::new();
                self.shown = None;
                assert(self@.lines =~= Seq::empty());
            },
        }
    }

    /// Shows or hides the panel. The answer says whether the panel is now to be
    /// brought up to date.
    pub fn set_visible(&mut self, visible: bool) -> (r: bool)
        ensures
            final(self)@ == (LogPanelView { visible, ..old(self)@ }),
            r == visible,
    {
        self.visible = visible;
        visible
    }

    /// Shows the panel if it is hidden, and hides it if it shows.
    pub fn toggle(&mut self) -> (r: bool)
        ensures
            final(self)@ == (LogPanelView { visible: !old(self)@.visible, ..old(self)@ }),
            r == !old(self)@.visible,
    {
        let visible = !self.visible;
        self.set_visible(visible)
    }

    pub fn is_visible(&self) -> (r: bool)
        ensures
            r == self@.visible,
    {
        self.visible
    }

    /// The lines on show.
    pub fn lines(&self) -> (r: &Vec<String>)
        ensures
            r@.map_values(|l: String| l@) == self@.lines,
    {
        &self.lines
    }
}

} // verus!
