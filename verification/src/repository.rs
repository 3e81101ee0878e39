//! The name of the repository that a session works in.

use crate::text::{slice_text_of, text_of};
use vstd::prelude::*;

verus! {

/// The characters that separate the parts of a path, on one system or another.
pub open spec fn is_separator(c: char) -> bool {
    c == '/' || c == '\\'
}

/// `path` without the separators at its end.
pub open spec fn without_trailing_separators(path: Seq<char>) -> Seq<char>
    decreases path.len(),
{
    if path.len() > 0 && is_separator(path.last()) {
        without_trailing_separators(path.drop_last())
    } else {
        path
    }
}

/// The two ways in which systems take a path apart.
pub ghost enum PathSystem {
    /// At slashes.
    Unix,
    /// At slashes and backslashes, after the letter and colon of a drive or after the server and
    /// the share of a network path.
    Windows,
}

/// `c` separates the parts of a path on `system`.
pub open spec fn separates(system: PathSystem, c: char) -> bool {
    c == '/' || system is Windows && c == '\\'
}

/// What follows the last separator of `path`.
pub open spec fn last_part(system: PathSystem, path: Seq<char>) -> Seq<char>
    decreases path.len(),
{
    if path.len() == 0 || separates(system, path.last()) {
        Seq::empty()
    } else {
        last_part(system, path.drop_last()).push(path.last())
    }
}

/// The name that `path`, which names no drive and no share, ends with. Separators and single dots at the end
/// are passed over; there is no name at the root, in the directory that the path starts from, or
/// after two dots.
pub open spec fn end_name(system: PathSystem, path: Seq<char>) -> Option<Seq<char>>
    decreases path.len(),
{
    if path.len() == 0 || path == "."@ || last_part(system, path) == ".."@ {
        None
    } else if separates(system, path.last()) || last_part(system, path) == "."@ {
        end_name(system, path.drop_last())
    } else {
        Some(last_part(system, path))
    }
}

/// `c` is a letter that a drive can have.
pub open spec fn is_drive_letter(c: char) -> bool {
    'a' <= c <= 'z' || 'A' <= c <= 'Z'
}

/// `path` without the letter and colon of a drive.
pub open spec fn without_drive(path: Seq<char>) -> Seq<char> {
    if path.len() >= 2 && is_drive_letter(path[0]) && path[1] == ':' {
        path.skip(2)
    } else {
        path
    }
}

/// `path` starts with two separators.
pub open spec fn starts_with_two_separators(path: Seq<char>) -> bool {
    path.len() >= 2 && is_separator(path[0]) && is_separator(path[1])
}

/// The number of characters before the first separator of `path`.
pub open spec fn first_part_len(path: Seq<char>) -> nat
    decreases path.len(),
{
    if path.len() == 0 || is_separator(path[0]) {
        0
    } else {
        1 + first_part_len(path.drop_first())
    }
}

/// What follows the server and the share of a network path: two separators, a server, a separator
/// and a share. A path that lacks one of the two names no share, and is left as it is.
pub open spec fn without_share(path: Seq<char>) -> Seq<char> {
    let server_len = first_part_len(path.skip(2));
    let share_start = 2 + server_len + 1;
    if server_len == 0 || share_start >= path.len() {
        path
    } else {
        let share_len = first_part_len(path.skip(share_start as int));
        if share_len == 0 {
            path
        } else {
            path.skip((share_start + share_len) as int)
        }
    }
}

/// `path` without the drive or the share that it starts with.
pub open spec fn without_prefix(path: Seq<char>) -> Seq<char> {
    if starts_with_two_separators(path) {
        without_share(path)
    } else {
        without_drive(path)
    }
}

/// The name that `path` ends with on `system`.
pub open spec fn file_name_on(system: PathSystem, path: Seq<char>) -> Option<Seq<char>> {
    match system {
        PathSystem::Unix => end_name(system, path),
        PathSystem::Windows => end_name(system, without_prefix(path)),
    }
}

/// `path` starts with two separators and a question mark or a dot, which on Windows name a device
/// or start a verbatim path.
pub open spec fn may_name_a_device(system: PathSystem, path: Seq<char>) -> bool {
    &&& system is Windows
    &&& starts_with_two_separators(path)
    &&& path.len() >= 3
    &&& path[2] == '?' || path[2] == '.'
}

/// `name` is a piece of `path`, and not empty.
pub open spec fn is_piece(path: Seq<char>, name: Seq<char>) -> bool {
    &&& name.len() > 0
    &&& exists|start: int|
        0 <= start <= path.len() - name.len() && name == #[trigger] path.subrange(
            start,
            start + name.len(),
        )
}

/// `name` is the one that `path` ends with on `system`. Of a path that may name a device it is
/// only said that the name is a piece of it.
pub open spec fn names_end_of(
    system: PathSystem,
    path: Seq<char>,
    name: Option<Seq<char>>,
) -> bool {
    if may_name_a_device(system, path) {
        name matches Some(name) ==> is_piece(path, name)
    } else {
        name == file_name_on(system, path)
    }
}

/// Calls `std::path::Path::file_name`. Claims that the name is the one that the path ends with, on
/// a system of one kind or the other: on Windows after its drive, or after its server and share.
/// Which kind the machine has is not said, nor how Windows takes apart the name of a device or a
/// verbatim path.
#[verifier::external_body]
fn path_file_name(path: &str) -> (name: Option<String>)
    ensures
        exists|system: PathSystem| names_end_of(system, path@, text_of(name)),
{
    std::path::Path::new(path).file_name().and_then(|name| name.to_str()).map(|name| name.to_string())
}

/// `path` without the separators at its end.
fn trim_separators(path: &str) -> (rest: &str)
    ensures
        rest@ == without_trailing_separators(path@),
{
    let mut end: usize = path.unicode_len();
    assert(path@.take(end as int) =~= path@);
    while end > 0 && (path.get_char(end - 1) == '/' || path.get_char(end - 1) == '\\')
        invariant
            end <= path@.len(),
            without_trailing_separators(path@) == without_trailing_separators(
                path@.take(end as int),
            ),
        decreases end,
    {
        assert(path@.take(end as int).drop_last() =~= path@.take(end - 1));
        end = end - 1;
    }
    assert(path@.take(end as int) =~= path@.subrange(0, end as int));
    path.substring_char(0, end)
}

/// `name` is the one that the repository in `cwd` has on `system`. There is none without a
/// directory, nor for a path of separators alone.
pub open spec fn names_repository(
    system: PathSystem,
    cwd: Option<Seq<char>>,
    name: Option<Seq<char>>,
) -> bool {
    match cwd {
        Some(cwd) if without_trailing_separators(cwd).len() > 0 => names_end_of(
            system,
            without_trailing_separators(cwd),
            name,
        ),
        _ => name is None,
    }
}

/// `name` is the one that the repository in `cwd` has, on a system of one kind or the other.
pub open spec fn may_name_repository(cwd: Option<Seq<char>>, name: Option<Seq<char>>) -> bool {
    exists|system: PathSystem| names_repository(system, cwd, name)
}

/// The directory `cwd` lies on a device, or may.
pub open spec fn lies_on_a_device(system: PathSystem, cwd: Seq<char>) -> bool {
    may_name_a_device(system, without_trailing_separators(cwd))
}

/// A repository has one name on a system, whenever it is asked for, unless it lies on a device.
pub proof fn a_repository_has_one_name(
    system: PathSystem,
    cwd: Seq<char>,
    first: Option<Seq<char>>,
    second: Option<Seq<char>>,
)
    requires
        !lies_on_a_device(system, cwd),
        names_repository(system, Some(cwd), first),
        names_repository(system, Some(cwd), second),
    ensures
        first == second,
{
}

/// Separators at the end of a directory do not change the name of its repository.
pub proof fn trailing_separators_do_not_matter(
    system: PathSystem,
    cwd: Seq<char>,
    separator: char,
    name: Option<Seq<char>>,
)
    requires
        is_separator(separator),
    ensures
        names_repository(system, Some(cwd.push(separator)), name) <==> names_repository(
            system,
            Some(cwd),
            name,
        ),
        forall|other: Option<Seq<char>>|
            !lies_on_a_device(system, cwd) && names_repository(system, Some(cwd), name)
                && #[trigger] names_repository(system, Some(cwd.push(separator)), other) ==> other
                == name,
{
    assert(cwd.push(separator).drop_last() =~= cwd);
}

proof fn what_follows_a_slash_is_the_last_part(
    system: PathSystem,
    directory: Seq<char>,
    name: Seq<char>,
)
    requires
        forall|i: int| 0 <= i < name.len() ==> #[trigger] name[i] != '/' && name[i] != '\\',
    ensures
        last_part(system, directory.push('/') + name) == name,
    decreases name.len(),
{
    let path = directory.push('/') + name;
    if name.len() > 0 {
        assert(name[name.len() - 1] != '/');
        assert(path.drop_last() =~= directory.push('/') + name.drop_last());
        what_follows_a_slash_is_the_last_part(system, directory, name.drop_last());
        assert(name.drop_last().push(name.last()) =~= name);
    } else {
        assert(path =~= directory.push('/'));
        assert(last_part(system, path) =~= name);
    }
}

/// The repository in a directory has the name of that directory: what follows its last slash, if it
/// has neither separators nor colons and is not made of one or two dots. So it is on every system,
/// unless the directory starts with two separators.
pub proof fn a_repository_has_the_name_of_its_directory(
    system: PathSystem,
    parent: Seq<char>,
    directory: Seq<char>,
    name: Option<Seq<char>>,
)
    requires
        directory.len() > 0,
        directory != "."@,
        directory != ".."@,
        forall|i: int|
            0 <= i < directory.len() ==> #[trigger] directory[i] != '/' && directory[i] != '\\'
                && directory[i] != ':',
        !starts_with_two_separators(parent.push('/') + directory),
        names_repository(system, Some(parent.push('/') + directory), name),
    ensures
        name == Some(directory),
{
    let path = parent.push('/') + directory;
    assert(directory[directory.len() - 1] == path.last());
    assert(without_trailing_separators(path) == path);
    what_follows_a_slash_is_the_last_part(system, parent, directory);
    let rest = without_drive(path);
    if rest != path {
        assert(path[1] == ':');
        assert(parent.len() >= 2) by {
            if parent.len() == 1 {
                assert(path[1] == '/');
            } else if parent.len() == 0 {
                assert(path[1] == directory[0]);
            }
        }
        assert(rest =~= parent.skip(2).push('/') + directory);
        what_follows_a_slash_is_the_last_part(system, parent.skip(2), directory);
        reveal_strlit(".");
        assert(rest.len() >= 2);
        assert(rest.last() == directory.last());
    }
    reveal_strlit(".");
    assert(path.len() >= 2 && "."@.len() == 1);
    assert(!is_separator(path.last()));
}

/// The name of a repository is never empty, and a directory of separators alone has none.
pub proof fn repository_names_are_not_empty(cwd: Seq<char>, name: Option<Seq<char>>)
    requires
        may_name_repository(Some(cwd), name),
    ensures
        name matches Some(name) ==> name.len() > 0,
        (forall|i: int| 0 <= i < cwd.len() ==> is_separator(#[trigger] cwd[i])) ==> name is None,
{
    let system = choose|system: PathSystem| names_repository(system, Some(cwd), name);
    let path = without_trailing_separators(cwd);
    end_names_are_not_empty(system, path);
    end_names_are_not_empty(system, without_prefix(path));
    if forall|i: int| 0 <= i < cwd.len() ==> is_separator(#[trigger] cwd[i]) {
        separators_alone_leave_nothing(cwd);
    }
}

proof fn end_names_are_not_empty(system: PathSystem, path: Seq<char>)
    ensures
        end_name(system, path) matches Some(name) ==> name.len() > 0,
    decreases path.len(),
{
    if path.len() > 0 {
        end_names_are_not_empty(system, path.drop_last());
    }
}

proof fn separators_alone_leave_nothing(path: Seq<char>)
    requires
        forall|i: int| 0 <= i < path.len() ==> is_separator(#[trigger] path[i]),
    ensures
        without_trailing_separators(path).len() == 0,
    decreases path.len(),
{
    if path.len() > 0 {
        assert(is_separator(path[path.len() - 1]));
        separators_alone_leave_nothing(path.drop_last());
    }
}

/// Every system takes `path` apart in the same way: at its slashes.
pub open spec fn is_portable(path: Seq<char>) -> bool {
    &&& !starts_with_two_separators(path)
    &&& forall|i: int| 0 <= i < path.len() ==> #[trigger] path[i] != '\\' && path[i] != ':'
}

/// A portable directory gives its repository the same name on every system.
pub proof fn portable_directories_have_one_name(
    cwd: Seq<char>,
    first: Option<Seq<char>>,
    second: Option<Seq<char>>,
)
    requires
        is_portable(without_trailing_separators(cwd)),
        may_name_repository(Some(cwd), first),
        may_name_repository(Some(cwd), second),
    ensures
        first == second,
{
    let path = without_trailing_separators(cwd);
    assert(without_prefix(path) == path) by {
        if path.len() >= 2 {
            assert(path[1] != ':');
        }
    }
    slashes_are_common(path);
}

proof fn slashes_are_common(path: Seq<char>)
    requires
        forall|i: int| 0 <= i < path.len() ==> #[trigger] path[i] != '\\',
    ensures
        last_part(PathSystem::Unix, path) == last_part(PathSystem::Windows, path),
        end_name(PathSystem::Unix, path) == end_name(PathSystem::Windows, path),
    decreases path.len(),
{
    if path.len() > 0 {
        assert(path[path.len() - 1] != '\\');
        slashes_are_common(path.drop_last());
    }
}

/// The name of the repository in the directory `cwd`: that of the directory.
pub fn repo_name_from_cwd(cwd: Option<&str>) -> (name: Option<String>)
    ensures
        may_name_repository(slice_text_of(cwd), text_of(name)),
        name matches Some(name) ==> name@.len() > 0,
        cwd is None ==> name is None,
{
    match cwd {
        Some(cwd) => {
            let trimmed = trim_separators(cwd);
            if trimmed.is_empty() {
                assert(names_repository(PathSystem::Unix, Some(cwd@), None));
                return None;
            }
            let name = path_file_name(trimmed);
            proof {
                let system = choose|system: PathSystem|
                    names_end_of(system, trimmed@, text_of(name));
                assert(names_repository(system, Some(cwd@), text_of(name)));
                repository_names_are_not_empty(cwd@, text_of(name));
            }
            name
        },
        None => {
            assert(names_repository(PathSystem::Unix, None, None));
            None
        },
    }
}

} // verus!
