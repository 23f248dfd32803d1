//! The git segment: from what the git commands answered to the state of the
//! working tree, and from there to the content of the segment.

use super::{Metadata, SegmentData, SegmentDataView};
use crate::config::SegmentId;
use crate::string_map::StringMap;
use crate::text::{
    char_is_whitespace, decimal, decimal_digits, is_whitespace, join2, owned, parse_u32,
    parsed_u32, trim, trimmed,
};
use vstd::prelude::*;
use vstd::string::*;

verus! {

/// The state of the working tree.
#[derive(Clone, Copy, Debug, PartialEq, Eq, Structural)]
pub enum GitStatus {
    Clean,
    Dirty,
    Conflicts,
}

/// What is known of a repository.
#[derive(Debug)]
pub struct GitInfo {
    pub branch: String,
    pub status: GitStatus,
    pub ahead: u32,
    pub behind: u32,
    pub sha: Option<String>,
    pub dirty_count: u32,
}

/// What a [`GitInfo`] holds.
pub struct GitInfoView {
    pub branch: Seq<char>,
    pub status: GitStatus,
    pub ahead: u32,
    pub behind: u32,
    pub sha: Option<Seq<char>>,
    pub dirty_count: u32,
}

impl View for GitInfo {
    type V = GitInfoView;

    open spec fn view(&self) -> GitInfoView {
        GitInfoView {
            branch: self.branch@,
            status: self.status,
            ahead: self.ahead,
            behind: self.behind,
            sha: match self.sha {
                Some(s) => Some(s@),
                None => None,
            },
            dirty_count: self.dirty_count,
        }
    }
}

/// What one git command answered.
#[derive(Debug)]
pub enum CommandOutput {
    /// The command did not run, or ended in failure.
    Failed,
    /// The command succeeded, and what it printed is no text.
    NotText,
    /// The command succeeded and printed this.
    Text(String),
}

/// What a [`CommandOutput`] holds.
pub enum CommandOutputView {
    Failed,
    NotText,
    Text(Seq<char>),
}

impl View for CommandOutput {
    type V = CommandOutputView;

    open spec fn view(&self) -> CommandOutputView {
        match self {
            CommandOutput::Failed => CommandOutputView::Failed,
            CommandOutput::NotText => CommandOutputView::NotText,
            CommandOutput::Text(t) => CommandOutputView::Text(t@),
        }
    }
}

/// The answers of the git commands for one directory.
pub struct GitProbe {
    /// Whether the directory lies in a repository.
    pub is_repository: bool,
    /// The current branch, as `git branch --show-current` prints it.
    pub current_branch: CommandOutput,
    /// The branch that `HEAD` points to, as `git symbolic-ref` prints it.
    pub symbolic_ref: CommandOutput,
    /// The changed files, as `git status --porcelain` prints them.
    pub status: CommandOutput,
    /// The number of commits that the upstream lacks.
    pub ahead: CommandOutput,
    /// The number of commits that the upstream has more.
    pub behind: CommandOutput,
    /// The short hash of `HEAD`.
    pub sha: CommandOutput,
}

/// What a [`GitProbe`] holds.
pub struct GitProbeView {
    pub is_repository: bool,
    pub current_branch: CommandOutputView,
    pub symbolic_ref: CommandOutputView,
    pub status: CommandOutputView,
    pub ahead: CommandOutputView,
    pub behind: CommandOutputView,
    pub sha: CommandOutputView,
}

impl View for GitProbe {
    type V = GitProbeView;

    open spec fn view(&self) -> GitProbeView {
        GitProbeView {
            is_repository: self.is_repository,
            current_branch: self.current_branch@,
            symbolic_ref: self.symbolic_ref@,
            status: self.status@,
            ahead: self.ahead@,
            behind: self.behind@,
            sha: self.sha@,
        }
    }
}

/// The git segment.
pub struct GitSegment {
    show_sha: bool,
    show_dirty_count: bool,
}

/// Tells whether the part of a line that is still open at the end of `text`
/// holds a character that is no whitespace.
pub open spec fn open_line_has_ink(text: Seq<char>) -> bool
    decreases text.len(),
{
    if text.len() == 0 {
        false
    } else if text.last() == '\n' {
        false
    } else if !char_is_whitespace(text.last()) {
        true
    } else {
        open_line_has_ink(text.drop_last())
    }
}

/// The number of lines of `text` that hold more than whitespace.
pub open spec fn nonblank_lines(text: Seq<char>) -> nat
    decreases text.len(),
{
    if text.len() == 0 {
        0
    } else {
        nonblank_lines(text.drop_last()) + if text.last() != '\n' && !char_is_whitespace(
            text.last(),
        ) && !open_line_has_ink(text.drop_last()) {
            1nat
        } else {
            0nat
        }
    }
}

/// Tells whether `letter` stands twice in a row somewhere in `text`.
pub open spec fn has_doubled(text: Seq<char>, letter: char) -> bool {
    exists|i: int| 0 <= i < text.len() - 1 && #[trigger] text[i] == letter && text[i + 1] == letter
}

/// Tells whether a status listing shows a conflict: `UU`, `AA` or `DD`
/// anywhere in it.
pub open spec fn shows_conflict(text: Seq<char>) -> bool {
    has_doubled(text, 'U') || has_doubled(text, 'A') || has_doubled(text, 'D')
}

/// The state that a status listing shows, with the number of changed
/// files: one for each line that holds more than whitespace, cut to 32
/// bits. No changed file is a clean tree.
pub open spec fn listed_status(text: Seq<char>) -> (GitStatus, u32) {
    let count = nonblank_lines(text) as u32;
    if count == 0 {
        (GitStatus::Clean, 0)
    } else if shows_conflict(text) {
        (GitStatus::Conflicts, count)
    } else {
        (GitStatus::Dirty, count)
    }
}

/// The text that a command printed, where it succeeded and printed text;
/// the empty text else.
pub open spec fn printed(output: CommandOutputView) -> Seq<char> {
    match output {
        CommandOutputView::Text(t) => t,
        _ => Seq::empty(),
    }
}

/// The state of the working tree by the answer of the status command: a
/// clean tree where the command failed.
pub open spec fn probed_status(output: CommandOutputView) -> (GitStatus, u32) {
    match output {
        CommandOutputView::Failed => (GitStatus::Clean, 0),
        _ => listed_status(printed(output)),
    }
}

/// The name that a command printed: what it printed without the whitespace
/// around it, where that is not empty.
pub open spec fn printed_name(output: CommandOutputView) -> Option<Seq<char>> {
    match output {
        CommandOutputView::Text(t) => if trimmed(t).len() > 0 {
            Some(trimmed(t))
        } else {
            None
        },
        _ => None,
    }
}

/// The branch by the answers of the two branch commands: the current
/// branch where the first command names one, else what the second names.
/// Where the first command printed what is no text, the second is not
/// asked.
pub open spec fn probed_branch(
    current: CommandOutputView,
    symbolic: CommandOutputView,
) -> Option<Seq<char>> {
    if printed_name(current) is Some {
        printed_name(current)
    } else if current is NotText {
        None
    } else {
        printed_name(symbolic)
    }
}

/// The count that a counting command printed; zero where it failed or
/// printed no number.
pub open spec fn probed_count(output: CommandOutputView) -> u32 {
    match output {
        CommandOutputView::Text(t) => match parsed_u32(trimmed(t)) {
            Some(n) => n,
            None => 0,
        },
        _ => 0,
    }
}

/// What the answers of the git commands say of the repository; nothing
/// outside a repository. A repository without a branch name is `detached`.
/// The hash is taken only where the segment shows it.
pub open spec fn probed_info(show_sha: bool, probe: GitProbeView) -> Option<GitInfoView> {
    if !probe.is_repository {
        None
    } else {
        Some(
            GitInfoView {
                branch: match probed_branch(probe.current_branch, probe.symbolic_ref) {
                    Some(name) => name,
                    None => "detached"@,
                },
                status: probed_status(probe.status).0,
                ahead: probed_count(probe.ahead),
                behind: probed_count(probe.behind),
                sha: if show_sha {
                    printed_name(probe.sha)
                } else {
                    None
                },
                dirty_count: probed_status(probe.status).1,
            },
        )
    }
}

/// The name of a state.
pub open spec fn status_name(status: GitStatus) -> Seq<char> {
    match status {
        GitStatus::Clean => "Clean"@,
        GitStatus::Dirty => "Dirty"@,
        GitStatus::Conflicts => "Conflicts"@,
    }
}

/// `mark`, followed by the number of changed files where the segment shows
/// it and there are any.
pub open spec fn counted_mark(
    mark: Seq<char>,
    show_dirty_count: bool,
    dirty_count: u32,
) -> Seq<char> {
    if show_dirty_count && dirty_count > 0 {
        mark + decimal_digits(dirty_count as nat)
    } else {
        mark
    }
}

/// The mark of the state of the tree.
pub open spec fn status_mark(show_dirty_count: bool, info: GitInfoView) -> Seq<char> {
    match info.status {
        GitStatus::Clean => "✓"@,
        GitStatus::Dirty => counted_mark("●"@, show_dirty_count, info.dirty_count),
        GitStatus::Conflicts => counted_mark("⚠"@, show_dirty_count, info.dirty_count),
    }
}

/// `text` with a space and `arrow` and `count` behind it, where the count
/// is not zero.
pub open spec fn with_count(text: Seq<char>, arrow: Seq<char>, count: u32) -> Seq<char> {
    if count > 0 {
        text + " "@ + arrow + decimal_digits(count as nat)
    } else {
        text
    }
}

/// The secondary text of the segment: the mark of the state, the commits
/// ahead, the commits behind and the hash, each where there is one, with a
/// space between.
pub open spec fn git_secondary(show_dirty_count: bool, info: GitInfoView) -> Seq<char> {
    let counted = with_count(
        with_count(status_mark(show_dirty_count, info), "↑"@, info.ahead),
        "↓"@,
        info.behind,
    );
    match info.sha {
        Some(sha) => counted + " "@ + sha,
        None => counted,
    }
}

/// The metadata of the segment.
pub open spec fn git_metadata(info: GitInfoView) -> Map<Seq<char>, Seq<char>> {
    let base = Map::empty().insert("branch"@, info.branch).insert(
        "status"@,
        status_name(info.status),
    ).insert("ahead"@, decimal_digits(info.ahead as nat)).insert(
        "behind"@,
        decimal_digits(info.behind as nat),
    ).insert("dirty_count"@, decimal_digits(info.dirty_count as nat));
    match info.sha {
        Some(sha) => base.insert("sha"@, sha),
        None => base,
    }
}

/// The content of the segment for a repository: the branch as primary
/// text.
pub open spec fn git_data(show_dirty_count: bool, info: GitInfoView) -> SegmentDataView {
    SegmentDataView {
        primary: info.branch,
        secondary: git_secondary(show_dirty_count, info),
        metadata: git_metadata(info),
    }
}

/// Reads the state of the working tree off a status listing.
pub fn parse_status(text: &str) -> (r: (GitStatus, u32))
    ensures
        r == listed_status(text@),
{
    let mut count: usize = 0;
    let mut ink = false;
    let mut conflict = false;
    let mut previous: Option<char> = None;
    let len = text.unicode_len();
    let mut i: usize = 0;
    for c in it: text.chars()
        invariant
            it.seq() == text@,
            len == text@.len(),
            i == it.index(),
            i <= len,
            count <= i,
            count == nonblank_lines(text@.take(i as int)),
            ink == open_line_has_ink(text@.take(i as int)),
            conflict == shows_conflict(text@.take(i as int)),
            match previous {
                Some(p) => i > 0 && p == text@[i - 1],
                None => i == 0,
            },
    {
        let ghost before = text@.take(i as int);
        let ghost after = text@.take(i + 1);
        proof {
            assert(after.drop_last() =~= before);
            assert(after.last() == c);
        }
        let blank = is_whitespace(c);
        if c == '\n' {
            ink = false;
        } else if !blank {
            if !ink {
                count = count + 1;
            }
            ink = true;
        }
        let doubled = match previous {
            Some(p) => p == c && (c == 'U' || c == 'A' || c == 'D'),
            None => false,
        };
        proof {
            doubled_grows(before, c, 'U');
            doubled_grows(before, c, 'A');
            doubled_grows(before, c, 'D');
            assert(before.push(c) =~= after);
            if i > 0 {
                assert(before.last() == text@[i - 1]);
            }
        }
        conflict = conflict || doubled;
        previous = Some(c);
        i += 1;
    }
    proof {
        assert(text@.take(len as int) =~= text@);
    }
    let changed = #[verifier::truncate]
    (count as u32);
    if changed == 0 {
        (GitStatus::Clean, 0)
    } else if conflict {
        (GitStatus::Conflicts, changed)
    } else {
        (GitStatus::Dirty, changed)
    }
}

/// A text with one more character holds a doubled letter where the text
/// did, or where the character doubles its last.
proof fn doubled_grows(text: Seq<char>, c: char, letter: char)
    ensures
        has_doubled(text.push(c), letter) <==> has_doubled(text, letter) || (text.len() > 0
            && text.last() == letter && c == letter),
{
    let longer = text.push(c);
    if has_doubled(text, letter) {
        let i = choose|i: int|
            0 <= i < text.len() - 1 && #[trigger] text[i] == letter && text[i + 1] == letter;
        assert(longer[i] == letter && longer[i + 1] == letter);
    }
    if text.len() > 0 && text.last() == letter && c == letter {
        let i = text.len() - 1;
        assert(longer[i] == letter && longer[i + 1] == letter);
    }
    if has_doubled(longer, letter) {
        let i = choose|i: int|
            0 <= i < longer.len() - 1 && #[trigger] longer[i] == letter && longer[i + 1] == letter;
        if i < text.len() - 1 {
            assert(text[i] == letter && text[i + 1] == letter);
        } else {
            assert(longer[i] == text.last());
        }
    }
}

fn status_of(output: &CommandOutput) -> (r: (GitStatus, u32))
    ensures
        r == probed_status(output@),
{
    match output {
        CommandOutput::Failed => (GitStatus::Clean, 0),
        CommandOutput::NotText => {
            proof {
                reveal_strlit("");
                assert(""@ =~= Seq::<char>::empty());
            }
            parse_status("")
        },
        CommandOutput::Text(t) => parse_status(t.as_str()),
    }
}

fn name_of(output: &CommandOutput) -> (r: Option<String>)
    ensures
        match r {
            Some(name) => printed_name(output@) == Some(name@),
            None => printed_name(output@) is None,
        },
{
    match output {
        CommandOutput::Text(t) => {
            let name = trim(t.as_str());
            if name.as_str().is_empty() {
                None
            } else {
                Some(name)
            }
        },
        _ => None,
    }
}

fn count_of(output: &CommandOutput) -> (r: u32)
    ensures
        r == probed_count(output@),
{
    match output {
        CommandOutput::Text(t) => match parse_u32(trim(t.as_str()).as_str()) {
            Some(n) => n,
            None => 0,
        },
        _ => 0,
    }
}

impl GitSegment {
    /// Whether the segment shows the short hash of `HEAD`.
    pub closed spec fn shows_sha(&self) -> bool {
        self.show_sha
    }

    /// Whether the segment shows the number of changed files.
    pub closed spec fn shows_dirty_count(&self) -> bool {
        self.show_dirty_count
    }

    /// A segment that shows neither the hash nor the number of changed
    /// files.
    pub fn new() -> (r: Self)
        ensures
            !r.shows_sha(),
            !r.shows_dirty_count(),
    {
        GitSegment { show_sha: false, show_dirty_count: false }
    }

    /// The segment with the hash shown or not.
    pub fn with_sha(self, show_sha: bool) -> (r: Self)
        ensures
            r.shows_sha() == show_sha,
            r.shows_dirty_count() == self.shows_dirty_count(),
    {
        GitSegment { show_sha, show_dirty_count: self.show_dirty_count }
    }

    /// The segment with the number of changed files shown or not.
    pub fn with_dirty_count(self, show_dirty_count: bool) -> (r: Self)
        ensures
            r.shows_sha() == self.shows_sha(),
            r.shows_dirty_count() == show_dirty_count,
    {
        GitSegment { show_sha: self.show_sha, show_dirty_count }
    }

    /// Whether the hash is wanted, so that the caller asks git for it.
    pub fn wants_sha(&self) -> (r: bool)
        ensures
            r == self.shows_sha(),
    {
        self.show_sha
    }

    /// The kind of the segment.
    pub fn id(&self) -> (r: SegmentId)
        ensures
            r == SegmentId::Git,
    {
        SegmentId::Git
    }

    /// Tells from the answer of the first command whether the directory
    /// lies in a repository.
    pub fn is_git_repository(&self, probe: &GitProbe) -> (r: bool)
        ensures
            r == probe@.is_repository,
    {
        probe.is_repository
    }

    /// The branch by the answers of the two branch commands.
    pub fn get_branch(&self, probe: &GitProbe) -> (r: Option<String>)
        ensures
            match r {
                Some(name) => probed_branch(probe@.current_branch, probe@.symbolic_ref) == Some(
                    name@,
                ),
                None => probed_branch(probe@.current_branch, probe@.symbolic_ref) is None,
            },
    {
        match name_of(&probe.current_branch) {
            Some(name) => Some(name),
            None => match &probe.current_branch {
                CommandOutput::NotText => None,
                _ => name_of(&probe.symbolic_ref),
            },
        }
    }

    /// The state of the working tree and the number of changed files.
    pub fn get_status(&self, probe: &GitProbe) -> (r: (GitStatus, u32))
        ensures
            r == probed_status(probe@.status),
    {
        status_of(&probe.status)
    }

    /// The commits ahead of the upstream and behind it.
    pub fn get_ahead_behind(&self, probe: &GitProbe) -> (r: (u32, u32))
        ensures
            r == (probed_count(probe@.ahead), probed_count(probe@.behind)),
    {
        (self.get_commit_count(&probe.ahead), self.get_commit_count(&probe.behind))
    }

    /// The count that a counting command printed.
    pub fn get_commit_count(&self, output: &CommandOutput) -> (r: u32)
        ensures
            r == probed_count(output@),
    {
        count_of(output)
    }

    /// The short hash of `HEAD`.
    pub fn get_sha(&self, probe: &GitProbe) -> (r: Option<String>)
        ensures
            match r {
                Some(sha) => printed_name(probe@.sha) == Some(sha@),
                None => printed_name(probe@.sha) is None,
            },
    {
        name_of(&probe.sha)
    }

    /// What the answers of the git commands say of the repository.
    pub fn get_git_info(&self, probe: &GitProbe) -> (r: Option<GitInfo>)
        ensures
            match r {
                Some(info) => probed_info(self.shows_sha(), probe@) == Some(info@),
                None => probed_info(self.shows_sha(), probe@) is None,
            },
    {
        if !self.is_git_repository(probe) {
            return None;
        }
        let branch = match self.get_branch(probe) {
            Some(name) => name,
            None => owned("detached"),
        };
        let (status, dirty_count) = self.get_status(probe);
        let (ahead, behind) = self.get_ahead_behind(probe);
        let sha = if self.show_sha {
            self.get_sha(probe)
        } else {
            None
        };
        Some(GitInfo { branch, status, ahead, behind, sha, dirty_count })
    }

    /// The content of the segment for a repository.
    pub fn segment_data(&self, git_info: &GitInfo) -> (data: SegmentData)
        ensures
            data@ == git_data(self.shows_dirty_count(), git_info@),
    {
        let mut metadata: Metadata = StringMap::new();
        metadata.insert(owned("branch"), git_info.branch.clone());
        metadata.insert(
            owned("status"),
            owned(
                match git_info.status {
                    GitStatus::Clean => "Clean",
                    GitStatus::Dirty => "Dirty",
                    GitStatus::Conflicts => "Conflicts",
                },
            ),
        );
        metadata.insert(owned("ahead"), decimal(git_info.ahead as u64));
        metadata.insert(owned("behind"), decimal(git_info.behind as u64));
        metadata.insert(owned("dirty_count"), decimal(git_info.dirty_count as u64));
        match &git_info.sha {
            Some(sha) => {
                metadata.insert(owned("sha"), sha.clone());
            },
            None => {},
        }
        let counted = self.show_dirty_count && git_info.dirty_count > 0;
        let mut secondary = match git_info.status {
            GitStatus::Clean => owned("✓"),
            GitStatus::Dirty => if counted {
                join2("●", decimal(git_info.dirty_count as u64).as_str())
            } else {
                owned("●")
            },
            GitStatus::Conflicts => if counted {
                join2("⚠", decimal(git_info.dirty_count as u64).as_str())
            } else {
                owned("⚠")
            },
        };
        if git_info.ahead > 0 {
            secondary.append(" ");
            secondary.append("↑");
            secondary.append(decimal(git_info.ahead as u64).as_str());
        }
        if git_info.behind > 0 {
            secondary.append(" ");
            secondary.append("↓");
            secondary.append(decimal(git_info.behind as u64).as_str());
        }
        match &git_info.sha {
            Some(sha) => {
                secondary.append(" ");
                secondary.append(sha.as_str());
            },
            None => {},
        }
        SegmentData { primary: git_info.branch.clone(), secondary, metadata }
    }

    /// The content of the segment by the answers of the git commands;
    /// nothing outside a repository.
    pub fn collect(&self, probe: &GitProbe) -> (r: Option<SegmentData>)
        ensures
            match r {
                Some(data) => match probed_info(self.shows_sha(), probe@) {
                    Some(info) => data@ == git_data(self.shows_dirty_count(), info),
                    None => false,
                },
                None => probed_info(self.shows_sha(), probe@) is None,
            },
    {
        match self.get_git_info(probe) {
            Some(info) => Some(self.segment_data(&info)),
            None => None,
        }
    }
}

impl Default for GitSegment {
    fn default() -> (r: Self)
        ensures
            !r.shows_sha(),
            !r.shows_dirty_count(),
    {
        GitSegment::new()
    }
}

} // verus!
