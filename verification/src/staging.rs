//! What is placed in the output directory: the stages of a run, the
//! placeholders of a stub run, and the copies that end a full run. Every
//! destination is a file name directly under the output directory.
use vstd::prelude::*;
use crate::config::BuildMode;
use crate::events::ArtifactSet;
use crate::objects::{c_bpf_objects, c_btf_objects, object_destinations, CObjectSpec};
use crate::text::{same_text, texts};

verus! {

/// One step of a run.
#[derive(Clone, Copy, Debug, PartialEq, Eq, Structural)]
pub enum Stage {
    WriteStubs,
    InstallHeaders,
    CompileObjects,
    ExtractSections,
    CrossBuild,
    InstallArtifacts,
}

/// The steps of a run, in order: a stub run only writes placeholders; a
/// full run installs the headers, compiles, extracts, cross-builds and
/// installs, and writes no placeholder.
pub open spec fn stages_of(mode: BuildMode) -> Seq<Stage> {
    match mode {
        BuildMode::Stub => seq![Stage::WriteStubs],
        BuildMode::Full => seq![
            Stage::InstallHeaders,
            Stage::CompileObjects,
            Stage::ExtractSections,
            Stage::CrossBuild,
            Stage::InstallArtifacts,
        ],
    }
}

/// The steps that a run in `mode` takes.
pub fn stages(mode: BuildMode) -> (steps: Vec<Stage>)
    ensures
        steps@ == stages_of(mode),
{
    let mut steps: Vec<Stage> = Vec::new();
    match mode {
        BuildMode::Stub => {
            steps.push(Stage::WriteStubs);
        },
        BuildMode::Full => {
            steps.push(Stage::InstallHeaders);
            steps.push(Stage::CompileObjects);
            steps.push(Stage::ExtractSections);
            steps.push(Stage::CrossBuild);
            steps.push(Stage::InstallArtifacts);
        },
    }
    assert(steps@ =~= stages_of(mode));
    steps
}

/// A stub run starts no tool: its only step is to write the placeholders.
/// A full run writes no placeholder, and installs the headers before it
/// compiles, compiles before it cross-builds, and installs last.
pub proof fn runs_are_apart_and_ordered()
    ensures
        forall|i: int|
            0 <= i < stages_of(BuildMode::Stub).len() ==> stages_of(BuildMode::Stub)[i]
                == Stage::WriteStubs,
        !stages_of(BuildMode::Full).contains(Stage::WriteStubs),
        stages_of(BuildMode::Full).index_of(Stage::InstallHeaders) < stages_of(
            BuildMode::Full,
        ).index_of(Stage::CompileObjects) < stages_of(BuildMode::Full).index_of(
            Stage::ExtractSections,
        ) < stages_of(BuildMode::Full).index_of(Stage::CrossBuild) < stages_of(
            BuildMode::Full,
        ).index_of(Stage::InstallArtifacts),
{
    let full = stages_of(BuildMode::Full);
    assert(full[0] == Stage::InstallHeaders);
    assert(full[1] == Stage::CompileObjects);
    assert(full[2] == Stage::ExtractSections);
    assert(full[3] == Stage::CrossBuild);
    assert(full[4] == Stage::InstallArtifacts);
    assert(full.index_of(Stage::InstallHeaders) == 0);
    assert(full.index_of(Stage::CompileObjects) == 1);
    assert(full.index_of(Stage::ExtractSections) == 2);
    assert(full.index_of(Stage::CrossBuild) == 3);
    assert(full.index_of(Stage::InstallArtifacts) == 4);
}

/// A target that a component declares: its name and its kinds.
#[derive(Clone, Debug, PartialEq, Eq)]
pub struct TargetInfo {
    pub name: String,
    pub kinds: Vec<String>,
}

impl View for TargetInfo {
    type V = (Seq<char>, Seq<Seq<char>>);

    open spec fn view(&self) -> (Seq<char>, Seq<Seq<char>>) {
        (self.name@, texts(self.kinds@))
    }
}

/// The views of a list of targets, in order.
pub open spec fn target_views(targets: Seq<TargetInfo>) -> Seq<(Seq<char>, Seq<Seq<char>>)> {
    targets.map_values(|target: TargetInfo| target@)
}

/// Whether the kinds are those of a binary: the one kind `bin`.
pub open spec fn is_binary_kinds(kinds: Seq<Seq<char>>) -> bool {
    kinds.len() == 1 && kinds[0] == "bin"@
}

/// The names of the binaries among the targets, in order.
pub open spec fn binary_names_of(targets: Seq<(Seq<char>, Seq<Seq<char>>)>) -> Seq<Seq<char>>
    decreases targets.len(),
{
    if targets.len() == 0 {
        Seq::empty()
    } else {
        let before = binary_names_of(targets.drop_last());
        if is_binary_kinds(targets.last().1) {
            before.push(targets.last().0)
        } else {
            before
        }
    }
}

/// Every file that a stub run writes: the destinations of the two object
/// tables, then one file for each declared binary.
pub open spec fn stub_destinations_of(targets: Seq<(Seq<char>, Seq<Seq<char>>)>) -> Seq<Seq<char>> {
    object_destinations() + binary_names_of(targets)
}

impl TargetInfo {
    /// Whether this target is a binary.
    pub fn is_binary(&self) -> (binary: bool)
        ensures
            binary == is_binary_kinds(self@.1),
    {
        self.kinds.len() == 1 && same_text(self.kinds[0].as_str(), "bin")
    }
}

/// The names of the declared binaries, in order.
pub fn binary_names(targets: &Vec<TargetInfo>) -> (names: Vec<String>)
    ensures
        texts(names@) == binary_names_of(target_views(targets@)),
{
    let mut names: Vec<String> = Vec::new();
    let ghost views = target_views(targets@);
    let mut at: usize = 0;
    assert(texts(names@) =~= binary_names_of(views.take(0)));
    while at < targets.len()
        invariant
            at <= targets@.len(),
            views == target_views(targets@),
            texts(names@) == binary_names_of(views.take(at as int)),
        decreases targets@.len() - at,
    {
        let ghost before = texts(names@);
        proof {
            assert(views.take(at + 1).drop_last() =~= views.take(at as int));
            assert(views.take(at + 1).last() == targets@[at as int]@);
        }
        if targets[at].is_binary() {
            names.push(targets[at].name.clone());
            assert(texts(names@) =~= before.push(targets@[at as int].name@));
        }
        at += 1;
    }
    assert(views.take(at as int) =~= views);
    names
}

fn push_destinations(list: &mut Vec<String>, specs: &Vec<CObjectSpec>)
    ensures
        texts(final(list)@) == texts(old(list)@) + specs@.map_values(
            |spec: CObjectSpec| spec.destination@,
        ),
{
    let ghost wanted = specs@.map_values(|spec: CObjectSpec| spec.destination@);
    let mut at: usize = 0;
    assert(texts(list@) =~= texts(old(list)@) + wanted.take(0));
    while at < specs.len()
        invariant
            at <= specs@.len(),
            wanted == specs@.map_values(|spec: CObjectSpec| spec.destination@),
            texts(list@) == texts(old(list)@) + wanted.take(at as int),
        decreases specs@.len() - at,
    {
        let ghost before = texts(list@);
        list.push(specs[at].destination.clone());
        assert(texts(list@) =~= before.push(wanted[at as int]));
        assert(wanted.take(at + 1) =~= wanted.take(at as int).push(wanted[at as int]));
        assert(texts(list@) =~= texts(old(list)@) + wanted.take(at + 1));
        at += 1;
    }
    assert(wanted.take(at as int) =~= wanted);
}

/// Every file that a stub run writes, each to be left empty, whatever was
/// there before.
pub fn stub_destinations(targets: &Vec<TargetInfo>) -> (destinations: Vec<String>)
    ensures
        texts(destinations@) == stub_destinations_of(target_views(targets@)),
{
    let plain = c_bpf_objects();
    let sections = c_btf_objects();
    let mut destinations: Vec<String> = Vec::new();
    assert(texts(destinations@) =~= Seq::<Seq<char>>::empty());
    push_destinations(&mut destinations, &plain);
    push_destinations(&mut destinations, &sections);
    let mut names = binary_names(targets);
    let ghost names_before = texts(names@);
    let ghost objects_before = texts(destinations@);
    proof {
        let plain_views = crate::objects::spec_views(plain@);
        let section_views = crate::objects::spec_views(sections@);
        assert(plain@.map_values(|spec: CObjectSpec| spec.destination@) =~= plain_views.map_values(
            |pair: (Seq<char>, Seq<char>)| pair.1,
        ));
        assert(sections@.map_values(|spec: CObjectSpec| spec.destination@)
            =~= section_views.map_values(|pair: (Seq<char>, Seq<char>)| pair.1));
        assert(objects_before =~= object_destinations());
    }
    destinations.append(&mut names);
    assert(texts(destinations@) =~= objects_before + names_before);
    destinations
}

/// One copy: from a file anywhere to a file name under the output
/// directory.
#[derive(Clone, Debug, PartialEq, Eq)]
pub struct CopyStep {
    pub source: String,
    pub destination: String,
}

impl View for CopyStep {
    type V = (Seq<char>, Seq<char>);

    open spec fn view(&self) -> (Seq<char>, Seq<char>) {
        (self.source@, self.destination@)
    }
}

/// The copies that install the entries: each executable goes to the file
/// named like its component.
pub open spec fn install_steps_of(entries: Seq<(Seq<char>, Seq<char>)>) -> Seq<(Seq<char>, Seq<char>)> {
    entries.map_values(|entry: (Seq<char>, Seq<char>)| (entry.1, entry.0))
}

/// The copies that install a set of executables, in order of arrival.
pub fn install_steps(set: &ArtifactSet) -> (steps: Vec<CopyStep>)
    ensures
        steps@.map_values(|step: CopyStep| step@) == install_steps_of(set@),
{
    let mut steps: Vec<CopyStep> = Vec::new();
    let mut at: usize = 0;
    while at < set.len()
        invariant
            at <= set@.len(),
            steps@.len() == at,
            forall|i: int| 0 <= i < at ==> (#[trigger] steps@[i])@ == (set@[i].1, set@[i].0),
        decreases set@.len() - at,
    {
        match set.entry(at) {
            Some(artifact) => {
                steps.push(CopyStep { source: artifact.path, destination: artifact.name });
            },
            None => {},
        }
        at += 1;
    }
    assert(steps@.map_values(|step: CopyStep| step@) =~= install_steps_of(set@));
    steps
}

} // verus!
