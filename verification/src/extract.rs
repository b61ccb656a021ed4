//! Extraction of an archive into an install directory, as a plan: the
//! directories and files to create, in the order of the archive's entries.
//!
//! The plan is made before anything is written. An entry whose name starts at
//! the root or climbs above the install directory refuses the whole plan;
//! every other name is planned as it stands. Which characters separate the
//! parts of a name is the platform's matter: `/` does everywhere, `\` only
//! where the target says so.
//!
//! Carrying out a plan is the caller's part: step by step, in order, ending
//! at the first step that fails, with [`FsAction::failure`] as the error.
//! Nothing is rolled back then: what the steps before have created or written
//! stays on disk.

use crate::archive::{
    archive_listing, entries_of, entry_views, read_entries, ArchiveEntry, ArchiveEntryView,
};
use crate::error::{fails_with, InstallError, InstallErrorView};
use vstd::prelude::*;
use vstd::string::{StrSliceExecFns, StringExecFns};

verus! {

/// The directory that an archive is extracted into.
#[derive(Debug, Clone, PartialEq, Eq)]
pub struct InstallTarget {
    pub path: String,
    /// Whether the directory is there already. One that is not is created
    /// first, without its ancestors.
    pub exists: bool,
    /// Whether the platform that carries out the plan reads `\` in a path as
    /// a separator, as it reads `/`. Where it does not, a backslash is a
    /// character of a name like any other.
    pub backslash_separates: bool,
}

/// The mathematical value of an [`InstallTarget`].
pub struct InstallTargetView {
    pub path: Seq<char>,
    pub exists: bool,
    pub backslash_separates: bool,
}

impl View for InstallTarget {
    type V = InstallTargetView;

    open spec fn view(&self) -> InstallTargetView {
        InstallTargetView {
            path: self.path@,
            exists: self.exists,
            backslash_separates: self.backslash_separates,
        }
    }
}

/// One step of an extraction. Paths are written with `/` between the install
/// directory and the entry's name, and hold the name as the archive gives it.
#[derive(Debug, Clone, PartialEq, Eq)]
pub enum FsAction {
    /// Create the directory `path`; its parent is expected to exist.
    CreateDir { path: String },
    /// Create the directory `path` and every ancestor of it that is missing.
    /// A directory that is there already is no failure.
    CreateDirAll { path: String },
    /// Create the file `path`, or empty it if it exists, and write `data`.
    WriteFile { path: String, data: Vec<u8> },
}

/// The mathematical value of an [`FsAction`].
pub enum FsActionView {
    CreateDir { path: Seq<char> },
    CreateDirAll { path: Seq<char> },
    WriteFile { path: Seq<char>, data: Seq<u8> },
}

impl View for FsAction {
    type V = FsActionView;

    open spec fn view(&self) -> FsActionView {
        match self {
            FsAction::CreateDir { path } => FsActionView::CreateDir { path: path@ },
            FsAction::CreateDirAll { path } => FsActionView::CreateDirAll { path: path@ },
            FsAction::WriteFile { path, data } => FsActionView::WriteFile {
                path: path@,
                data: data@,
            },
        }
    }
}

/// The path that `action` creates or writes.
pub open spec fn path_of(action: FsActionView) -> Seq<char> {
    match action {
        FsActionView::CreateDir { path } => path,
        FsActionView::CreateDirAll { path } => path,
        FsActionView::WriteFile { path, .. } => path,
    }
}

impl FsAction {
    /// The path that this step creates or writes.
    pub fn path(&self) -> (path: &String)
        ensures
            path@ == path_of(self@),
    {
        match self {
            FsAction::CreateDir { path } => path,
            FsAction::CreateDirAll { path } => path,
            FsAction::WriteFile { path, .. } => path,
        }
    }

    /// The error that ends an extraction in which this step failed.
    pub fn failure(&self) -> (error: InstallError)
        ensures
            error@ == (InstallErrorView::FilesystemError { path: path_of(self@) }),
    {
        InstallError::FilesystemError { path: self.path().clone() }
    }
}

/// The values of `actions`, one by one.
pub open spec fn action_views(actions: Seq<FsAction>) -> Seq<FsActionView> {
    actions.map_values(|action: FsAction| action@)
}

/// Whether `c` separates the parts of a path: `/` always, `\` where
/// `backslash_separates` is set.
pub open spec fn separates(c: char, backslash_separates: bool) -> bool {
    c == '/' || (backslash_separates && c == '\\')
}

/// The parts of `name` between its separators, in order. A name without a
/// separator is one part, and two separators in a row hold an empty part
/// between them.
pub open spec fn parts_of(name: Seq<char>, backslash_separates: bool) -> Seq<Seq<char>>
    decreases name.len(),
{
    if name.len() == 0 {
        seq![Seq::<char>::empty()]
    } else {
        let before = parts_of(name.drop_last(), backslash_separates);
        if separates(name.last(), backslash_separates) {
            before.push(Seq::<char>::empty())
        } else {
            before.update(before.len() - 1, before.last().push(name.last()))
        }
    }
}

/// The depth below the install directory after walking into `part` from
/// `depth`: an empty part and `.` stay, `..` climbs, any other part descends.
/// `None` where `..` would climb above the install directory.
pub open spec fn walk(depth: Option<nat>, part: Seq<char>) -> Option<nat> {
    match depth {
        None => None,
        Some(d) => if part.len() == 0 || part == seq!['.'] {
            Some(d)
        } else if part == seq!['.', '.'] {
            if d == 0 {
                None
            } else {
                Some((d - 1) as nat)
            }
        } else {
            Some(d + 1)
        },
    }
}

/// The depth below the install directory after walking `parts` in order.
pub open spec fn depth_after(parts: Seq<Seq<char>>) -> Option<nat>
    decreases parts.len(),
{
    if parts.len() == 0 {
        Some(0)
    } else {
        walk(depth_after(parts.drop_last()), parts.last())
    }
}

/// An entry's name stays inside the install directory when it is relative,
/// that is, does not start with a separator, and never climbs above the
/// install directory on the way through its parts.
pub open spec fn stays_inside(name: Seq<char>, backslash_separates: bool) -> bool {
    &&& !(name.len() > 0 && separates(name[0], backslash_separates))
    &&& depth_after(parts_of(name, backslash_separates)) is Some
}

/// `target`, ready to be put in front of a name: with a slash at its end,
/// unless it is empty or has one.
pub open spec fn base_of(target: Seq<char>) -> Seq<char> {
    if target.len() == 0 || target.last() == '/' {
        target
    } else {
        target.push('/')
    }
}

/// The path of the entry `name` below `target`: the name as it stands, behind
/// the target and a slash. An empty target leaves the name as it is.
pub open spec fn joined(target: Seq<char>, name: Seq<char>) -> Seq<char> {
    base_of(target) + name
}

/// The position of the last separator of `name`.
pub open spec fn last_separator(name: Seq<char>, backslash_separates: bool) -> Option<int>
    decreases name.len(),
{
    if name.len() == 0 {
        None
    } else if separates(name.last(), backslash_separates) {
        Some(name.len() - 1)
    } else {
        last_separator(name.drop_last(), backslash_separates)
    }
}

/// The name of the directory that holds the entry `name`: what stands before
/// the last separator, and nothing for a name without one.
pub open spec fn parent_of(name: Seq<char>, backslash_separates: bool) -> Seq<char> {
    match last_separator(name, backslash_separates) {
        Some(at) => name.take(at),
        None => Seq::<char>::empty(),
    }
}

/// The path of the directory that holds the entry `name` below `target`: the
/// target itself for a name without a parent.
pub open spec fn folder_of(target: Seq<char>, name: Seq<char>, backslash_separates: bool) -> Seq<
    char,
> {
    if parent_of(name, backslash_separates).len() == 0 {
        target
    } else {
        joined(target, parent_of(name, backslash_separates))
    }
}

/// The steps that extract one entry: a directory is created with its
/// ancestors; for a file the directory that holds it is created with its
/// ancestors, then the file is written.
pub open spec fn entry_actions(target: InstallTargetView, entry: ArchiveEntryView) -> Seq<
    FsActionView,
> {
    if entry.is_dir {
        seq![FsActionView::CreateDirAll { path: joined(target.path, entry.name) }]
    } else {
        seq![
            FsActionView::CreateDirAll {
                path: folder_of(target.path, entry.name, target.backslash_separates),
            },
            FsActionView::WriteFile { path: joined(target.path, entry.name), data: entry.data },
        ]
    }
}

/// The steps that extract `entries` below `target`, entry by entry in the
/// given order; or the refusal of the first entry whose name does not stay
/// inside, with the path that it asked for. Whether the target exists plays
/// no part here.
pub open spec fn planned(target: InstallTargetView, entries: Seq<ArchiveEntryView>) -> Result<
    Seq<FsActionView>,
    InstallErrorView,
>
    decreases entries.len(),
{
    if entries.len() == 0 {
        Ok(Seq::<FsActionView>::empty())
    } else {
        match planned(target, entries.drop_last()) {
            Err(refusal) => Err(refusal),
            Ok(actions) => if stays_inside(entries.last().name, target.backslash_separates) {
                Ok(actions + entry_actions(target, entries.last()))
            } else {
                Err(
                    InstallErrorView::FilesystemError {
                        path: joined(target.path, entries.last().name),
                    },
                )
            },
        }
    }
}

/// The whole plan of an extraction: the install directory is created first
/// where it is missing, then come the steps of the entries.
pub open spec fn extraction_plan(
    target: InstallTargetView,
    entries: Seq<ArchiveEntryView>,
) -> Result<Seq<FsActionView>, InstallErrorView> {
    match planned(target, entries) {
        Err(refusal) => Err(refusal),
        Ok(actions) => if target.exists {
            Ok(actions)
        } else {
            Ok(seq![FsActionView::CreateDir { path: target.path }] + actions)
        },
    }
}

/// The characters of `text`, one by one.
fn chars_of(text: &str) -> (chars: Vec<char>)
    ensures
        chars@ == text@,
{
    let mut chars: Vec<char> = Vec::new();
    for c in it: text.chars()
        invariant
            it.seq() == text@,
            chars@ == it.seq().take(it.index()),
    {
        chars.push(c);
    }
    chars
}

spec fn all_dots(part: Seq<char>) -> bool {
    forall|k: int| 0 <= k < part.len() ==> #[trigger] part[k] == '.'
}

proof fn dots_extend(part: Seq<char>, c: char)
    ensures
        all_dots(part.push(c)) <==> all_dots(part) && c == '.',
{
    let longer = part.push(c);
    if all_dots(longer) {
        assert(longer[part.len() as int] == '.');
        assert forall|k: int| 0 <= k < part.len() implies #[trigger] part[k] == '.' by {
            assert(longer[k] == '.');
        }
    }
}

proof fn dots_spell(part: Seq<char>)
    ensures
        part == seq!['.'] <==> all_dots(part) && part.len() == 1,
        part == seq!['.', '.'] <==> all_dots(part) && part.len() == 2,
{
    if all_dots(part) && part.len() == 1 {
        assert(part =~= seq!['.']);
    }
    if all_dots(part) && part.len() == 2 {
        assert(part =~= seq!['.', '.']);
    }
}

proof fn parts_are_not_empty(name: Seq<char>, backslash_separates: bool)
    ensures
        parts_of(name, backslash_separates).len() >= 1,
    decreases name.len(),
{
    if name.len() > 0 {
        parts_are_not_empty(name.drop_last(), backslash_separates);
    }
}

spec fn depth_of(depth: Option<usize>) -> Option<nat> {
    match depth {
        Some(d) => Some(d as nat),
        None => None,
    }
}

/// Walks from `depth` into a part of `len` characters, which are all dots
/// where `dots` is set.
fn walk_part(depth: Option<usize>, len: usize, dots: bool, Ghost(part): Ghost<Seq<char>>) -> (after:
    Option<usize>)
    requires
        part.len() == len,
        dots <==> all_dots(part),
        depth matches Some(d) ==> d < usize::MAX,
    ensures
        depth_of(after) == walk(depth_of(depth), part),
        after matches Some(d) ==> depth is Some && (d <= depth->0 || (d == depth->0 + 1 && len
            >= 1)),
{
    proof {
        dots_spell(part);
    }
    match depth {
        None => None,
        Some(d) => {
            if len == 0 || (dots && len == 1) {
                Some(d)
            } else if dots && len == 2 {
                if d == 0 {
                    None
                } else {
                    Some(d - 1)
                }
            } else {
                Some(d + 1)
            }
        },
    }
}

fn is_separator(c: char, backslash_separates: bool) -> (yes: bool)
    ensures
        yes == separates(c, backslash_separates),
{
    c == '/' || (backslash_separates && c == '\\')
}

fn chars_stay_inside(name: &Vec<char>, backslash_separates: bool) -> (inside: bool)
    ensures
        inside == stays_inside(name@, backslash_separates),
{
    // The depth after the parts that are complete, then what is known of the
    // part in progress: its length, and whether it holds dots only.
    let mut depth: Option<usize> = Some(0);
    let mut len: usize = 0;
    let mut dots: bool = true;
    let mut at: usize = 0;
    while at < name.len()
        invariant
            at <= name.len(),
            len <= at,
            depth matches Some(d) ==> 2 * d + len <= at,
            parts_of(name@.take(at as int), backslash_separates).len() >= 1,
            depth_of(depth) == depth_after(
                parts_of(name@.take(at as int), backslash_separates).drop_last(),
            ),
            parts_of(name@.take(at as int), backslash_separates).last().len() == len,
            dots <==> all_dots(parts_of(name@.take(at as int), backslash_separates).last()),
        decreases name.len() - at,
    {
        let c = name[at];
        let ghost before = name@.take(at as int);
        let ghost after = name@.take(at + 1);
        let ghost part = parts_of(before, backslash_separates).last();
        proof {
            assert(after.drop_last() =~= before);
            parts_are_not_empty(after, backslash_separates);
        }
        if is_separator(c, backslash_separates) {
            proof {
                assert(parts_of(after, backslash_separates).drop_last() =~= parts_of(
                    before,
                    backslash_separates,
                ));
            }
            depth = walk_part(depth, len, dots, Ghost(part));
            len = 0;
            dots = true;
        } else {
            proof {
                assert(parts_of(after, backslash_separates).drop_last() =~= parts_of(
                    before,
                    backslash_separates,
                ).drop_last());
                dots_extend(part, c);
            }
            len = len + 1;
            dots = dots && c == '.';
        }
        at = at + 1;
    }
    proof {
        assert(name@.take(at as int) =~= name@);
    }
    let landed = walk_part(
        depth,
        len,
        dots,
        Ghost(parts_of(name@, backslash_separates).last()),
    );
    let rooted = name.len() > 0 && is_separator(name[0], backslash_separates);
    !rooted && landed.is_some()
}

fn find_last_separator(name: &Vec<char>, backslash_separates: bool) -> (found: Option<usize>)
    ensures
        match found {
            Some(at) => last_separator(name@, backslash_separates) == Some(at as int) && at
                < name@.len(),
            None => last_separator(name@, backslash_separates) is None,
        },
{
    let mut found: Option<usize> = None;
    let mut at: usize = 0;
    while at < name.len()
        invariant
            at <= name.len(),
            match found {
                Some(seen) => last_separator(name@.take(at as int), backslash_separates) == Some(
                    seen as int,
                ) && seen < at,
                None => last_separator(name@.take(at as int), backslash_separates) is None,
            },
        decreases name.len() - at,
    {
        proof {
            assert(name@.take(at + 1).drop_last() =~= name@.take(at as int));
        }
        if is_separator(name[at], backslash_separates) {
            found = Some(at);
        }
        at = at + 1;
    }
    proof {
        assert(name@.take(at as int) =~= name@);
    }
    found
}

/// Whether the entry name `name` stays inside the install directory, on a
/// platform that reads `\` as a separator where `backslash_separates` is set.
pub fn name_stays_inside(name: &str, backslash_separates: bool) -> (inside: bool)
    ensures
        inside == stays_inside(name@, backslash_separates),
{
    let chars = chars_of(name);
    chars_stay_inside(&chars, backslash_separates)
}

fn base_path(target: &str) -> (base: String)
    ensures
        base@ == base_of(target@),
{
    let chars = chars_of(target);
    let mut base = String::from_str(target);
    if chars.len() > 0 && chars[chars.len() - 1] != '/' {
        base.append("/");
        proof {
            reveal_strlit("/");
        }
    }
    base
}

/// The path of the entry `name` below the directory `target`.
pub fn join_path(target: &str, name: &str) -> (path: String)
    ensures
        path@ == joined(target@, name@),
{
    let mut path = base_path(target);
    path.append(name);
    path
}

fn folder_below(
    target: &str,
    base: &String,
    name: &str,
    chars: &Vec<char>,
    backslash_separates: bool,
) -> (path: String)
    requires
        base@ == base_of(target@),
        chars@ == name@,
    ensures
        path@ == folder_of(target@, name@, backslash_separates),
{
    match find_last_separator(chars, backslash_separates) {
        Some(at) => {
            if at == 0 {
                String::from_str(target)
            } else {
                let mut path = base.clone();
                path.append(name.substring_char(0, at));
                path
            }
        },
        None => String::from_str(target),
    }
}

/// The path of the directory that holds the entry `name` below `target`, on a
/// platform that reads `\` as a separator where `backslash_separates` is set.
pub fn folder_path(target: &str, name: &str, backslash_separates: bool) -> (path: String)
    ensures
        path@ == folder_of(target@, name@, backslash_separates),
{
    let base = base_path(target);
    let chars = chars_of(name);
    folder_below(target, &base, name, &chars, backslash_separates)
}

proof fn refusal_stands(target: InstallTargetView, entries: Seq<ArchiveEntryView>, upto: int)
    requires
        0 <= upto <= entries.len(),
        planned(target, entries.take(upto)) is Err,
    ensures
        planned(target, entries) == planned(target, entries.take(upto)),
    decreases entries.len() - upto,
{
    if upto == entries.len() {
        assert(entries.take(upto) =~= entries);
    } else {
        assert(entries.drop_last().take(upto) =~= entries.take(upto));
        refusal_stands(target, entries.drop_last(), upto);
    }
}

/// Plans the extraction of `entries` into `target`.
///
/// The plan creates the install directory where it is missing, then takes the
/// entries in the order given: a directory entry is created with its
/// ancestors; for a file entry the directory that holds it is created with
/// its ancestors, then the file is written with the entry's bytes. Names are
/// put behind the target's path as they are, backslashes included.
///
/// Where an entry's name starts with a separator or climbs above the install
/// directory, there is no plan: the outcome is
/// [`InstallError::FilesystemError`] with the path that the first such entry
/// asked for. No other name is refused.
pub fn plan_extraction(target: &InstallTarget, entries: Vec<ArchiveEntry>) -> (outcome: Result<
    Vec<FsAction>,
    InstallError,
>)
    ensures
        match extraction_plan(target@, entry_views(entries@)) {
            Ok(actions) => outcome matches Ok(plan) && action_views(plan@) == actions,
            Err(refusal) => fails_with(outcome, refusal),
        },
{
    let ghost all = entry_views(entries@);
    let ghost given = entries@;
    let ghost lead = if target.exists {
        Seq::<FsActionView>::empty()
    } else {
        seq![FsActionView::CreateDir { path: target.path@ }]
    };
    let backslash_separates = target.backslash_separates;
    let mut plan: Vec<FsAction> = Vec::new();
    if !target.exists {
        plan.push(FsAction::CreateDir { path: target.path.clone() });
    }
    let base = base_path(target.path.as_str());
    for entry in it: entries
        invariant
            it.seq() == given,
            all == entry_views(given),
            base@ == base_of(target.path@),
            backslash_separates == target.backslash_separates,
            !target.exists ==> lead == seq![FsActionView::CreateDir { path: target.path@ }],
            target.exists ==> lead == Seq::<FsActionView>::empty(),
            planned(target@, all.take(it.index())) is Ok,
            action_views(plan@) == lead + planned(target@, all.take(it.index()))->Ok_0,
    {
        let ghost at = it.index();
        let ghost before = planned(target@, all.take(at))->Ok_0;
        let ghost listed = action_views(plan@);
        proof {
            assert(all.take(at + 1).drop_last() =~= all.take(at));
        }
        let ArchiveEntry { name, is_dir, data } = entry;
        let chars = chars_of(name.as_str());
        let mut path = base.clone();
        path.append(name.as_str());
        if !chars_stay_inside(&chars, backslash_separates) {
            proof {
                refusal_stands(target@, all, at + 1);
            }
            return Err(InstallError::FilesystemError { path });
        }
        if is_dir {
            plan.push(FsAction::CreateDirAll { path });
        } else {
            let folder = folder_below(
                target.path.as_str(),
                &base,
                name.as_str(),
                &chars,
                backslash_separates,
            );
            plan.push(FsAction::CreateDirAll { path: folder });
            plan.push(FsAction::WriteFile { path, data });
        }
        proof {
            assert(listed + entry_actions(target@, entry@) =~= lead + (before + entry_actions(
                target@,
                entry@,
            )));
        }
    }
    proof {
        assert(all.take(given.len() as int) =~= all);
    }
    Ok(plan)
}

/// Plans the extraction of the ZIP archive `archive` into `target`: reads
/// every entry, then plans as [`plan_extraction`] does.
///
/// Fails with [`InstallError::CorruptArchive`] where the archive or one of its
/// entries cannot be read, and with [`InstallError::FilesystemError`] where an
/// entry's name starts with a separator or climbs above the install
/// directory.
pub fn extract_zip(archive: Vec<u8>, target: &InstallTarget) -> (outcome: Result<
    Vec<FsAction>,
    InstallError,
>)
    ensures
        match entries_of(archive_listing(archive@, usize::BITS)) {
            None => fails_with(outcome, InstallErrorView::CorruptArchive),
            Some(entries) => match extraction_plan(target@, entries) {
                Ok(actions) => outcome matches Ok(plan) && action_views(plan@) == actions,
                Err(refusal) => fails_with(outcome, refusal),
            },
        },
{
    match read_entries(archive) {
        Err(error) => Err(error),
        Ok(entries) => plan_extraction(target, entries),
    }
}

/// `path` lies inside `target`: it is the target itself, or it stands below
/// the target under a name that stays inside.
pub open spec fn lies_inside(target: InstallTargetView, path: Seq<char>) -> bool {
    path == target.path || exists|name: Seq<char>|
        stays_inside(name, target.backslash_separates) && path == joined(target.path, name)
}

proof fn parts_before_last_separator(name: Seq<char>, backslash_separates: bool)
    requires
        last_separator(name, backslash_separates) is Some,
    ensures
        0 <= last_separator(name, backslash_separates)->0 < name.len(),
        separates(name[last_separator(name, backslash_separates)->0], backslash_separates),
        parts_of(name, backslash_separates).drop_last() == parts_of(
            name.take(last_separator(name, backslash_separates)->0),
            backslash_separates,
        ),
    decreases name.len(),
{
    let at = last_separator(name, backslash_separates)->0;
    let shorter = name.drop_last();
    parts_are_not_empty(shorter, backslash_separates);
    if separates(name.last(), backslash_separates) {
        assert(name.take(at) =~= shorter);
    } else {
        parts_before_last_separator(shorter, backslash_separates);
        assert(shorter.take(at) =~= name.take(at));
        assert(parts_of(name, backslash_separates).drop_last() =~= parts_of(
            shorter,
            backslash_separates,
        ).drop_last());
    }
}

/// The directory that holds an entry whose name stays inside has a name that
/// stays inside too.
pub proof fn parent_stays_inside(name: Seq<char>, backslash_separates: bool)
    requires
        stays_inside(name, backslash_separates),
    ensures
        stays_inside(parent_of(name, backslash_separates), backslash_separates),
{
    match last_separator(name, backslash_separates) {
        None => {
            // Nothing stands before a separator: the parent is the empty name.
            reveal_with_fuel(depth_after, 2);
        },
        Some(at) => {
            // The parts of the parent are the parts of the name without the
            // last, and the parent starts as the name starts.
            parts_before_last_separator(name, backslash_separates);
            parts_are_not_empty(name, backslash_separates);
        },
    }
}

proof fn walking_without_climbing(parts: Seq<Seq<char>>)
    requires
        forall|i: int| 0 <= i < parts.len() ==> #[trigger] parts[i] != seq!['.', '.'],
    ensures
        depth_after(parts) is Some,
    decreases parts.len(),
{
    if parts.len() > 0 {
        walking_without_climbing(parts.drop_last());
    }
}

/// No name is refused for anything but where it starts and where it climbs:
/// a name that does not start with a separator and has no part `..` stays
/// inside, whatever else it holds. Where `\` does not separate, that is every
/// such name with a backslash in it.
pub proof fn names_that_never_climb_stay_inside(name: Seq<char>, backslash_separates: bool)
    requires
        name.len() == 0 || !separates(name[0], backslash_separates),
        forall|i: int|
            0 <= i < parts_of(name, backslash_separates).len() ==> #[trigger] parts_of(
                name,
                backslash_separates,
            )[i] != seq!['.', '.'],
    ensures
        stays_inside(name, backslash_separates),
{
    walking_without_climbing(parts_of(name, backslash_separates));
}

proof fn entry_steps_stay_inside(target: InstallTargetView, entries: Seq<ArchiveEntryView>)
    requires
        planned(target, entries) is Ok,
    ensures
        forall|i: int|
            0 <= i < planned(target, entries)->Ok_0.len() ==> {
                let action = #[trigger] planned(target, entries)->Ok_0[i];
                lies_inside(target, path_of(action)) && !(action is CreateDir)
            },
    decreases entries.len(),
{
    if entries.len() > 0 {
        let name = entries.last().name;
        entry_steps_stay_inside(target, entries.drop_last());
        parent_stays_inside(name, target.backslash_separates);
    }
}

/// Entries are planned one after the other, in their order: the steps for
/// `first` followed by `then` are the steps for `first`, then the steps for
/// `then`. A refusal among `first` comes before one among `then`.
pub proof fn plans_follow_the_entries(
    target: InstallTargetView,
    first: Seq<ArchiveEntryView>,
    then: Seq<ArchiveEntryView>,
)
    ensures
        planned(target, first + then) == match planned(target, first) {
            Err(refusal) => Err(refusal),
            Ok(steps) => match planned(target, then) {
                Err(refusal) => Err(refusal),
                Ok(more) => Ok(steps + more),
            },
        },
    decreases then.len(),
{
    if then.len() == 0 {
        assert(first + then =~= first);
        if planned(target, first) is Ok {
            assert(planned(target, first)->Ok_0 + Seq::<FsActionView>::empty() =~= planned(
                target,
                first,
            )->Ok_0);
        }
    } else {
        plans_follow_the_entries(target, first, then.drop_last());
        assert((first + then).drop_last() =~= first + then.drop_last());
        if planned(target, first) is Ok && planned(target, then.drop_last()) is Ok {
            let steps = planned(target, first)->Ok_0;
            let more = planned(target, then.drop_last())->Ok_0;
            let last = entry_actions(target, then.last());
            assert((steps + more) + last =~= steps + (more + last));
        }
    }
}

/// Every entry whose name stays inside is planned: where each name of
/// `entries` stays inside, there is a plan, and it holds the steps of every
/// entry, one entry after the other in the order given.
pub proof fn names_that_stay_inside_are_planned(
    target: InstallTargetView,
    entries: Seq<ArchiveEntryView>,
)
    requires
        forall|i: int|
            0 <= i < entries.len() ==> stays_inside(
                (#[trigger] entries[i]).name,
                target.backslash_separates,
            ),
    ensures
        planned(target, entries) is Ok,
        extraction_plan(target, entries) is Ok,
        entries.len() > 0 ==> planned(target, entries)->Ok_0 == planned(
            target,
            entries.drop_last(),
        )->Ok_0 + entry_actions(target, entries.last()),
    decreases entries.len(),
{
    if entries.len() > 0 {
        names_that_stay_inside_are_planned(target, entries.drop_last());
    }
}

/// No plan leaves the install directory: every path that a plan creates or
/// writes is the install directory itself or lies below it, under a name that
/// does not start with a separator and never climbs above the install
/// directory.
pub proof fn plan_stays_inside(target: InstallTargetView, entries: Seq<ArchiveEntryView>)
    requires
        extraction_plan(target, entries) is Ok,
    ensures
        forall|i: int|
            0 <= i < extraction_plan(target, entries)->Ok_0.len() ==> lies_inside(
                target,
                path_of(#[trigger] extraction_plan(target, entries)->Ok_0[i]),
            ),
{
    entry_steps_stay_inside(target, entries);
}

/// Extracting again repeats the plan. Once the install directory exists, the
/// plan for the same entries is the first plan without its first step, the
/// creation of the install directory: the same steps with the same bytes in
/// the same order, and none of them is `CreateDir`, the one step that fails
/// on a directory that is there already. A plan that is refused is refused
/// again, for the same reason.
pub proof fn second_run_repeats_the_plan(target: InstallTargetView, entries: Seq<ArchiveEntryView>)
    ensures
        ({
            let first = extraction_plan(InstallTargetView { exists: false, ..target }, entries);
            let again = extraction_plan(InstallTargetView { exists: true, ..target }, entries);
            &&& first is Err ==> again == first
            &&& first is Ok ==> again is Ok
            &&& first is Ok ==> first->Ok_0 == seq![
                FsActionView::CreateDir { path: target.path },
            ] + again->Ok_0
            &&& first is Ok ==> forall|i: int|
                0 <= i < again->Ok_0.len() ==> !(#[trigger] again->Ok_0[i] is CreateDir)
        }),
{
    let missing = InstallTargetView { exists: false, ..target };
    let present = InstallTargetView { exists: true, ..target };
    target_presence_plays_no_part(missing, present, entries);
    if planned(present, entries) is Ok {
        entry_steps_stay_inside(present, entries);
    }
}

proof fn target_presence_plays_no_part(
    one: InstallTargetView,
    other: InstallTargetView,
    entries: Seq<ArchiveEntryView>,
)
    requires
        one.path == other.path,
        one.backslash_separates == other.backslash_separates,
    ensures
        planned(one, entries) == planned(other, entries),
    decreases entries.len(),
{
    if entries.len() > 0 {
        target_presence_plays_no_part(one, other, entries.drop_last());
    }
}

} // verus!
