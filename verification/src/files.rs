//! A model of the files that a run writes, and what the plans of this
//! library guarantee about them. A file system is a map from a path to the
//! bytes of the file at that path.
use vstd::prelude::*;
use crate::events::{has_name, Entries};
use crate::objects::object_destinations;
use crate::config::{mode_of_flag, BuildMode};
use crate::staging::{
    binary_names_of, install_steps_of, stages_of, stub_destinations_of, Stage,
};

verus! {

/// The files by path.
pub type Files = Map<Seq<char>, Seq<u8>>;

/// The files after an empty file was written at each path in turn.
pub open spec fn after_stubs(files: Files, paths: Seq<Seq<char>>) -> Files
    decreases paths.len(),
{
    if paths.len() == 0 {
        files
    } else {
        after_stubs(files, paths.drop_last()).insert(paths.last(), Seq::empty())
    }
}

/// The files after each copy was made in turn; a copy is a pair of the path
/// read and the path written. It describes a run in which every copy finds
/// its source.
pub open spec fn after_copies(files: Files, copies: Seq<(Seq<char>, Seq<char>)>) -> Files
    decreases copies.len(),
{
    if copies.len() == 0 {
        files
    } else {
        let before = after_copies(files, copies.drop_last());
        before.insert(copies.last().1, before[copies.last().0])
    }
}

/// Whether every path that the copies read is a file.
pub open spec fn sources_exist(files: Files, copies: Seq<(Seq<char>, Seq<char>)>) -> bool {
    forall|i: int| 0 <= i < copies.len() ==> files.contains_key((#[trigger] copies[i]).0)
}

/// Whether no copy reads a path that a copy writes.
pub open spec fn sources_apart(copies: Seq<(Seq<char>, Seq<char>)>) -> bool {
    forall|i: int, j: int|
        0 <= i < copies.len() && 0 <= j < copies.len() ==> (#[trigger] copies[i]).0
            != (#[trigger] copies[j]).1
}

/// Whether some copy writes `path`.
pub open spec fn is_written(copies: Seq<(Seq<char>, Seq<char>)>, path: Seq<char>) -> bool {
    exists|i: int| 0 <= i < copies.len() && (#[trigger] copies[i]).1 == path
}

/// After the placeholders are written, every path among them is a file of
/// length zero, whatever was there before.
pub proof fn stubs_are_empty_files(files: Files, paths: Seq<Seq<char>>, at: int)
    requires
        0 <= at < paths.len(),
    ensures
        after_stubs(files, paths).contains_key(paths[at]),
        after_stubs(files, paths)[paths[at]].len() == 0,
    decreases paths.len(),
{
    if at < paths.len() - 1 {
        stubs_are_empty_files(files, paths.drop_last(), at);
    }
}

/// A stub run leaves an empty file for every destination of the object
/// tables and for every declared binary.
pub proof fn stub_run_covers_every_destination(
    files: Files,
    targets: Seq<(Seq<char>, Seq<Seq<char>>)>,
    name: Seq<char>,
)
    requires
        object_destinations().contains(name) || binary_names_of(targets).contains(name),
    ensures
        after_stubs(files, stub_destinations_of(targets)).contains_key(name),
        after_stubs(files, stub_destinations_of(targets))[name].len() == 0,
{
    let all = stub_destinations_of(targets);
    let objects = object_destinations();
    let binaries = binary_names_of(targets);
    if objects.contains(name) {
        let at = choose|i: int| 0 <= i < objects.len() && objects[i] == name;
        assert(all[at] == name);
        stubs_are_empty_files(files, all, at);
    } else {
        let at = choose|i: int| 0 <= i < binaries.len() && binaries[i] == name;
        assert(all[objects.len() + at] == name);
        stubs_are_empty_files(files, all, objects.len() + at);
    }
}

/// Placeholders leave every other path as it was.
pub proof fn stubs_keep_other_files(files: Files, paths: Seq<Seq<char>>, path: Seq<char>)
    requires
        !paths.contains(path),
    ensures
        after_stubs(files, paths).contains_key(path) == files.contains_key(path),
        after_stubs(files, paths)[path] == files[path],
    decreases paths.len(),
{
    if paths.len() > 0 {
        let rest = paths.drop_last();
        assert(paths[paths.len() - 1] != path);
        assert forall|i: int| 0 <= i < rest.len() implies rest[i] != path by {
            assert(paths[i] != path);
        }
        stubs_keep_other_files(files, rest, path);
    }
}

/// With the switch unset the run is a stub run, whose one step writes the
/// placeholders; in an output directory that held nothing, the files are
/// then exactly the destinations of the object tables and the declared
/// binaries, each of length zero.
pub proof fn unset_switch_leaves_exactly_the_placeholders(
    targets: Seq<(Seq<char>, Seq<Seq<char>>)>,
    path: Seq<char>,
)
    ensures
        mode_of_flag(None) == Some(BuildMode::Stub),
        stages_of(BuildMode::Stub) == seq![Stage::WriteStubs],
        after_stubs(Map::empty(), stub_destinations_of(targets)).contains_key(path) <==> (
        object_destinations().contains(path) || binary_names_of(targets).contains(path)),
        after_stubs(Map::empty(), stub_destinations_of(targets)).contains_key(path) ==> after_stubs(
            Map::empty(),
            stub_destinations_of(targets),
        )[path].len() == 0,
{
    let nothing = Map::<Seq<char>, Seq<u8>>::empty();
    let all = stub_destinations_of(targets);
    let objects = object_destinations();
    let binaries = binary_names_of(targets);
    if objects.contains(path) || binaries.contains(path) {
        stub_run_covers_every_destination(nothing, targets, path);
    } else {
        assert forall|i: int| 0 <= i < all.len() implies all[i] != path by {
            if i < objects.len() {
                assert(objects[i] == all[i]);
            } else {
                assert(binaries[i - objects.len()] == all[i]);
            }
        }
        stubs_keep_other_files(nothing, all, path);
    }
}

/// Copies leave every path that none of them writes as it was.
pub proof fn copies_keep_other_files(
    files: Files,
    copies: Seq<(Seq<char>, Seq<char>)>,
    path: Seq<char>,
)
    requires
        !is_written(copies, path),
    ensures
        after_copies(files, copies).contains_key(path) == files.contains_key(path),
        after_copies(files, copies)[path] == files[path],
    decreases copies.len(),
{
    if copies.len() > 0 {
        let rest = copies.drop_last();
        assert(copies[copies.len() - 1].1 != path);
        assert forall|i: int| 0 <= i < rest.len() implies (#[trigger] rest[i]).1 != path by {
            assert(copies[i].1 != path);
        }
        copies_keep_other_files(files, rest, path);
    }
}

/// What the copies write depends on what they read alone: from two states of
/// the files that agree on every source, they leave the same bytes at every
/// path that they write, whatever else differs. So a run that is made again
/// while the sources are as they were writes what the first run wrote.
pub proof fn written_files_follow_sources(
    left: Files,
    right: Files,
    copies: Seq<(Seq<char>, Seq<char>)>,
    path: Seq<char>,
)
    requires
        sources_apart(copies),
        forall|i: int| 0 <= i < copies.len() ==> left[(#[trigger] copies[i]).0] == right[copies[i].0],
        is_written(copies, path),
    ensures
        after_copies(left, copies).contains_key(path),
        after_copies(right, copies).contains_key(path),
        after_copies(left, copies)[path] == after_copies(right, copies)[path],
    decreases copies.len(),
{
    let rest = copies.drop_last();
    let last = copies[copies.len() - 1];
    assert forall|i: int, j: int| 0 <= i < rest.len() && 0 <= j < rest.len() implies (
    #[trigger] rest[i]).0 != (#[trigger] rest[j]).1 by {
        assert(copies[i].0 != copies[j].1);
    }
    if last.1 == path {
        assert forall|i: int| 0 <= i < rest.len() implies (#[trigger] rest[i]).1 != last.0 by {
            assert(copies[copies.len() - 1].0 != copies[i].1);
        }
        copies_keep_other_files(left, rest, last.0);
        copies_keep_other_files(right, rest, last.0);
    } else {
        let at = choose|i: int| 0 <= i < copies.len() && (#[trigger] copies[i]).1 == path;
        assert(rest[at].1 == path);
        assert forall|i: int| 0 <= i < rest.len() implies left[(#[trigger] rest[i]).0]
            == right[rest[i].0] by {
            assert(left[copies[i].0] == right[copies[i].0]);
        }
        written_files_follow_sources(left, right, rest, path);
    }
}

/// Installing is idempotent: where no copy reads what a copy writes, making
/// the same copies a second time leaves every file as the first run left
/// it.
pub proof fn copies_are_idempotent(files: Files, copies: Seq<(Seq<char>, Seq<char>)>)
    requires
        sources_exist(files, copies),
        sources_apart(copies),
    ensures
        after_copies(after_copies(files, copies), copies) == after_copies(files, copies),
{
    let once = after_copies(files, copies);
    let twice = after_copies(once, copies);
    assert forall|i: int| 0 <= i < copies.len() implies once[(#[trigger] copies[i]).0]
        == files[copies[i].0] by {
        assert forall|j: int| 0 <= j < copies.len() implies (#[trigger] copies[j]).1
            != copies[i].0 by {
            assert(copies[i].0 != copies[j].1);
        }
        copies_keep_other_files(files, copies, copies[i].0);
    }
    assert forall|path: Seq<char>| #[trigger]
        twice.dom().contains(path) == once.dom().contains(path) by {
        if is_written(copies, path) {
            written_files_follow_sources(once, files, copies, path);
            written_files_follow_sources(files, files, copies, path);
        } else {
            copies_keep_other_files(once, copies, path);
        }
    }
    assert forall|path: Seq<char>| once.dom().contains(path) implies #[trigger] twice[path]
        == once[path] by {
        if is_written(copies, path) {
            written_files_follow_sources(once, files, copies, path);
        } else {
            copies_keep_other_files(once, copies, path);
        }
    }
    assert(twice =~= once);
}

/// A set that names a component installs a file under that name: among the
/// copies that install the entries, one writes the component's name.
pub proof fn recorded_names_are_installed(entries: Entries, name: Seq<char>)
    requires
        has_name(entries, name),
    ensures
        is_written(install_steps_of(entries), name),
{
    let at = choose|i: int| 0 <= i < entries.len() && (#[trigger] entries[i]).0 == name;
    assert(install_steps_of(entries)[at].1 == name);
}

} // verus!
