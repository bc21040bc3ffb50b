//! Directories that have to be secure all the way down.

use vstd::prelude::*;
use vstd::string::*;

use crate::text;
use crate::paths;
use crate::paths::{absolute_path, segments_of};
use crate::text::chars_of;

verus! {

/// The path of the first `k` segments below the root.
pub open spec fn rooted_prefix(segments: Seq<Seq<char>>, k: int) -> Seq<char>
    decreases k,
{
    if k <= 0 {
        Seq::empty()
    } else {
        rooted_prefix(segments, k - 1).push('/') + segments[k - 1]
    }
}

/// An absolute path that never leads to a parent directory.
pub open spec fn is_descending_path(s: Seq<char>) -> bool {
    paths::is_absolute_path(s) && !paths::path_segments(s).contains(seq!['.', '.'])
}

/// Every directory that leads to `s`, from the root down, `s` itself last.
pub open spec fn leading_directories(s: Seq<char>) -> Seq<Seq<char>> {
    Seq::new(paths::path_segments(s).len(), |i: int| rooted_prefix(paths::path_segments(s), i + 1))
}

/// The directories that lead to a path, down to the first step back to a parent directory.
#[derive(Debug, PartialEq, Eq)]
pub struct DirectoryDescent {
    pub directories: Vec<String>,
    /// The path is absolute and never steps back.
    pub complete: bool,
}

/// `descent` goes down to `path` as far as that is safe: nowhere for a relative path, else to the
/// first step back, or to the end.
pub open spec fn descends_to(descent: DirectoryDescent, path: Seq<char>) -> bool {
    let names = paths::path_segments(path);
    let k = descent.directories@.len();
    &&& k <= names.len()
    &&& text::texts(descent.directories@) == leading_directories(path).take(k as int)
    &&& forall|j: int| 0 <= j < k ==> #[trigger] names[j] != seq!['.', '.']
    &&& if paths::is_absolute_path(path) {
        k == names.len() || names[k as int] == seq!['.', '.']
    } else {
        k == 0
    }
    &&& descent.complete == is_descending_path(path)
}

/// Lists the directories that lead to a path.
pub fn directories_to_secure(path: &str) -> (descent: DirectoryDescent)
    ensures
        descends_to(descent, path@),
{
    let ghost names = paths::path_segments(path@);
    let ghost all = leading_directories(path@);
    let mut list: Vec<String> = Vec::new();
    assert(text::texts(list@) =~= all.take(0));
    if !absolute_path(path) {
        return DirectoryDescent { directories: list, complete: false };
    }
    let segments = segments_of(path);
    let mut prefix = String::new();
    let mut i: usize = 0;
    while i < segments.len()
        invariant
            i <= segments@.len(),
            paths::is_absolute_path(path@),
            names == paths::path_segments(path@),
            text::texts(segments@) == names,
            all == leading_directories(path@),
            prefix@ == rooted_prefix(names, i as int),
            list@.len() == i,
            text::texts(list@) == all.take(i as int),
            forall|j: int| 0 <= j < i ==> #[trigger] names[j] != seq!['.', '.'],
        decreases segments@.len() - i,
    {
        let chars = chars_of(segments[i].as_str());
        assert(names[i as int] == segments@[i as int]@);
        if chars.len() == 2 && chars[0] == '.' && chars[1] == '.' {
            assert(names[i as int] =~= seq!['.', '.']);
            return DirectoryDescent { directories: list, complete: false };
        }
        assert(names[i as int] != seq!['.', '.']) by {
            if names[i as int] == seq!['.', '.'] {
                assert(chars@.len() == 2);
            }
        }
        prefix.push('/');
        prefix.append(segments[i].as_str());
        let ghost before = text::texts(list@);
        list.push(prefix.clone());
        proof {
            assert(text::texts(list@) =~= before.push(prefix@));
            assert(all.take(i + 1) =~= all.take(i as int).push(all[i as int]));
        }
        i += 1;
    }
    DirectoryDescent { directories: list, complete: true }
}

/// What the file system says of a path, links not followed.
#[derive(Debug, PartialEq, Eq)]
pub enum PathStatus {
    /// Nothing is there; the file system's own words for that.
    Absent(String),
    /// The path could not be looked at.
    Unreadable(String),
    Directory,
    /// A link, a file or anything else.
    Other,
}

/// What follows for one directory on the way.
#[derive(Debug, PartialEq, Eq)]
pub enum DirectoryVerdict {
    Accept,
    Create,
    Refuse,
    Fail(String),
}

/// `verdict` is what follows from the status of a directory that may be created or not.
pub open spec fn is_directory_verdict(
    verdict: DirectoryVerdict,
    status: PathStatus,
    may_create: bool,
) -> bool {
    match status {
        PathStatus::Directory => verdict is Accept,
        PathStatus::Other => verdict is Refuse,
        PathStatus::Unreadable(source) => {
            verdict matches DirectoryVerdict::Fail(s) && s@ == source@
        },
        PathStatus::Absent(source) => if may_create {
            verdict is Create
        } else {
            verdict matches DirectoryVerdict::Fail(s) && s@ == source@
        },
    }
}

/// Judges one directory on the way. A directory that was created is judged again, without leave to
/// create it.
pub fn judge_directory(status: &PathStatus, may_create: bool) -> (verdict: DirectoryVerdict)
    ensures
        is_directory_verdict(verdict, *status, may_create),
{
    match status {
        PathStatus::Directory => DirectoryVerdict::Accept,
        PathStatus::Other => DirectoryVerdict::Refuse,
        PathStatus::Unreadable(source) => DirectoryVerdict::Fail(source.clone()),
        PathStatus::Absent(source) => {
            if may_create {
                DirectoryVerdict::Create
            } else {
                DirectoryVerdict::Fail(source.clone())
            }
        },
    }
}

/// A path descends exactly where it starts at the root and no segment is `..`. The directories on
/// its way are as many as its segments, and each is the one before it, a slash and the next segment.
pub proof fn way_down_adds_one_segment_at_a_time(s: Seq<char>, i: int)
    ensures
        is_descending_path(s) <==> {
            &&& s.len() > 0 && s[0] == '/'
            &&& forall|j: int|
                0 <= j < paths::path_segments(s).len() ==> #[trigger] paths::path_segments(s)[j]
                    != seq!['.', '.']
        },
        leading_directories(s).len() == paths::path_segments(s).len(),
        paths::path_segments(s).len() > 0 ==> leading_directories(s)[0] == seq!['/']
            + paths::path_segments(s)[0],
        0 < i < leading_directories(s).len() ==> leading_directories(s)[i]
            == leading_directories(s)[i - 1] + seq!['/'] + paths::path_segments(s)[i],
{
    let segments = paths::path_segments(s);
    reveal_with_fuel(rooted_prefix, 2);
    if segments.contains(seq!['.', '.']) {
        let j = choose|j: int| 0 <= j < segments.len() && segments[j] == seq!['.', '.'];
        assert(segments[j] == seq!['.', '.']);
    } else {
        assert forall|j: int| 0 <= j < segments.len() implies #[trigger] segments[j] != seq![
            '.',
            '.',
        ] by {
            assert(segments.contains(segments[j]));
        }
    }
    if segments.len() > 0 {
        assert(leading_directories(s)[0] =~= seq!['/'] + segments[0]);
    }
    if 0 < i < segments.len() {
        assert(leading_directories(s)[i] =~= leading_directories(s)[i - 1] + seq!['/']
            + segments[i]);
    }
}

/// A real directory is entered, a missing one is made where that is allowed, something else is
/// refused, and anything that cannot be looked at fails with its reason.
pub proof fn verdict_follows_from_what_stands_there(
    verdict: DirectoryVerdict,
    status: PathStatus,
    may_create: bool,
)
    requires
        is_directory_verdict(verdict, status, may_create),
    ensures
        verdict is Accept <==> status is Directory,
        verdict is Create <==> status is Absent && may_create,
        verdict is Refuse <==> status is Other,
        verdict is Fail <==> status is Unreadable || (status is Absent && !may_create),
{
}

/// A descent lists the directories that lead to the path, from the root down, and ends in front of
/// the first step back. It is complete exactly where the path starts at the root and never steps
/// back, and then lists all of them.
pub proof fn descent_ends_in_front_of_a_step_back(descent: DirectoryDescent, path: Seq<char>)
    requires
        descends_to(descent, path),
    ensures
        ({
            let names = paths::path_segments(path);
            let k = descent.directories@.len();
            &&& k <= names.len()
            &&& forall|i: int|
                0 <= i < k ==> (#[trigger] descent.directories@[i])@ == leading_directories(path)[i]
            &&& forall|i: int| 0 <= i < k ==> #[trigger] names[i] != seq!['.', '.']
            &&& k < names.len() && path.len() > 0 && path[0] == '/' ==> names[k as int] == seq![
                '.',
                '.',
            ]
            &&& !(path.len() > 0 && path[0] == '/') ==> k == 0
            &&& descent.complete ==> k == names.len() && path.len() > 0 && path[0] == '/'
            &&& path.len() > 0 && path[0] == '/' && k == names.len() ==> descent.complete
        }),
{
    let names = paths::path_segments(path);
    let k = descent.directories@.len();
    assert forall|i: int| 0 <= i < k implies (#[trigger] descent.directories@[i])@
        == leading_directories(path)[i] by {
        assert(text::texts(descent.directories@)[i] == leading_directories(path).take(k as int)[i]);
    }
    if descent.complete && k < names.len() {
        assert(names.contains(names[k as int]));
    }
    if path.len() > 0 && path[0] == '/' && k == names.len() {
        if names.contains(seq!['.', '.']) {
            let j = choose|j: int| 0 <= j < names.len() && names[j] == seq!['.', '.'];
            assert(names[j] != seq!['.', '.']);
        }
    }
}

} // verus!
