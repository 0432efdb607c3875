//! The structured events of the cross build and the set of executables that
//! they report.
use vstd::prelude::*;
use crate::text::{all_distinct, join_text, same_text, texts};

verus! {

/// One record of the cross build's structured output.
#[derive(Clone, Debug, PartialEq, Eq)]
pub enum BuildEvent {
    /// A target of a component was built. Only binaries carry an executable.
    CompilerArtifact { name: String, executable: Option<String> },
    /// The compiler said something about the code.
    CompilerMessage { message: String },
    /// A line that is no structured record.
    TextLine { line: String },
    /// Any other record.
    Other,
}

/// What an event holds, as characters.
pub enum EventView {
    CompilerArtifact { name: Seq<char>, executable: Option<Seq<char>> },
    CompilerMessage { message: Seq<char> },
    TextLine { line: Seq<char> },
    Other,
}

impl View for BuildEvent {
    type V = EventView;

    open spec fn view(&self) -> EventView {
        match self {
            BuildEvent::CompilerArtifact { name, executable } => EventView::CompilerArtifact {
                name: name@,
                executable: match executable {
                    Some(path) => Some(path@),
                    None => None,
                },
            },
            BuildEvent::CompilerMessage { message } => EventView::CompilerMessage {
                message: message@,
            },
            BuildEvent::TextLine { line } => EventView::TextLine { line: line@ },
            BuildEvent::Other => EventView::Other,
        }
    }
}

/// The views of a list of events, in order.
pub open spec fn event_views(events: Seq<BuildEvent>) -> Seq<EventView> {
    events.map_values(|event: BuildEvent| event@)
}

/// One executable: the name of its component and where it lies.
#[derive(Clone, Debug, PartialEq, Eq)]
pub struct Artifact {
    pub name: String,
    pub path: String,
}

impl View for Artifact {
    type V = (Seq<char>, Seq<char>);

    open spec fn view(&self) -> (Seq<char>, Seq<char>) {
        (self.name@, self.path@)
    }
}

/// Entries as (name, path) pairs, in the order in which the names arrived.
pub type Entries = Seq<(Seq<char>, Seq<char>)>;

/// Whether some entry has this name.
pub open spec fn has_name(entries: Entries, name: Seq<char>) -> bool {
    exists|i: int| 0 <= i < entries.len() && (#[trigger] entries[i]).0 == name
}

/// Whether no two entries share a name.
pub open spec fn names_distinct(entries: Entries) -> bool {
    forall|i: int, j: int|
        0 <= i < j < entries.len() ==> (#[trigger] entries[i]).0 != (#[trigger] entries[j]).0
}

/// Whether the entries are as many as the declared names and each declared
/// name has an entry.
pub open spec fn holds_each(entries: Entries, declared: Seq<Seq<char>>) -> bool {
    entries.len() == declared.len() && forall|k: int|
        0 <= k < declared.len() ==> has_name(entries, #[trigger] declared[k])
}

/// Whether the entries are exactly the declared names: no declared name
/// occurs twice, each has an entry, and there is no entry besides.
pub open spec fn holds_exactly(entries: Entries, declared: Seq<Seq<char>>) -> bool {
    holds_each(entries, declared) && declared.no_duplicates()
}

/// A place at which the entries hold `name`, where they hold it.
pub open spec fn place_of(entries: Entries, name: Seq<char>) -> int {
    choose|i: int| 0 <= i < entries.len() && (#[trigger] entries[i]).0 == name
}

/// The entries after `name` was reported at `path`: a known name keeps its
/// place and takes the new path, a new name goes to the end.
pub open spec fn recorded(entries: Entries, name: Seq<char>, path: Seq<char>) -> Entries {
    if has_name(entries, name) {
        entries.update(place_of(entries, name), (name, path))
    } else {
        entries.push((name, path))
    }
}

/// The entries after one event: an artifact with a non-empty executable
/// path is recorded, and nothing else changes the entries.
pub open spec fn after_event(entries: Entries, event: EventView) -> Entries {
    match event {
        EventView::CompilerArtifact { name, executable: Some(path) } => if path.len() > 0 {
            recorded(entries, name, path)
        } else {
            entries
        },
        _ => entries,
    }
}

/// The entries after a run of events, taken in order.
pub open spec fn after_events(entries: Entries, events: Seq<EventView>) -> Entries
    decreases events.len(),
{
    if events.len() == 0 {
        entries
    } else {
        after_event(after_events(entries, events.drop_last()), events.last())
    }
}

/// The text that an event asks to forward, if any: compiler messages and
/// plain lines are forwarded as they are.
pub open spec fn diagnostic_of(event: EventView) -> Option<Seq<char>> {
    match event {
        EventView::CompilerMessage { message } => Some(message),
        EventView::TextLine { line } => Some(line),
        _ => None,
    }
}

/// The texts that a run of events asks to forward, in order.
pub open spec fn diagnostics_of(events: Seq<EventView>) -> Seq<Seq<char>>
    decreases events.len(),
{
    if events.len() == 0 {
        Seq::empty()
    } else {
        let before = diagnostics_of(events.drop_last());
        match diagnostic_of(events.last()) {
            Some(text) => before.push(text),
            None => before,
        }
    }
}

/// The line by which a diagnostic is handed to the enclosing build system.
pub open spec fn warning_line_of(text: Seq<char>) -> Seq<char> {
    "cargo:warning="@ + text
}

/// The view of an optional owned string.
pub open spec fn text_view(text: Option<String>) -> Option<Seq<char>> {
    match text {
        Some(inner) => Some(inner@),
        None => None,
    }
}

/// The executables that a cross build has reported so far, one per
/// component name.
#[derive(Clone, Debug, PartialEq, Eq)]
pub struct ArtifactSet {
    entries: Vec<Artifact>,
}

impl View for ArtifactSet {
    type V = Entries;

    closed spec fn view(&self) -> Entries {
        self.entries@.map_values(|entry: Artifact| entry@)
    }
}

impl ArtifactSet {
    /// The invariant of the set: no name occurs twice.
    pub open spec fn wf(&self) -> bool {
        names_distinct(self@)
    }

    /// A set without entries.
    pub fn new() -> (set: ArtifactSet)
        ensures
            set@ == Seq::<(Seq<char>, Seq<char>)>::empty(),
            set.wf(),
    {
        let set = ArtifactSet { entries: Vec::new() };
        assert(set@ =~= Seq::<(Seq<char>, Seq<char>)>::empty());
        set
    }

    /// The number of entries.
    pub fn len(&self) -> (count: usize)
        ensures
            count == self@.len(),
    {
        self.entries.len()
    }

    /// The entry at `index`, in order of arrival.
    pub fn entry(&self, index: usize) -> (found: Option<Artifact>)
        ensures
            match found {
                Some(artifact) => index < self@.len() && artifact@ == self@[index as int],
                None => index >= self@.len(),
            },
    {
        if index < self.entries.len() {
            let entry = &self.entries[index];
            Some(Artifact { name: entry.name.clone(), path: entry.path.clone() })
        } else {
            None
        }
    }

    /// The place of `name` among the entries, if it has one.
    pub fn position(&self, name: &str) -> (found: Option<usize>)
        ensures
            match found {
                Some(at) => at < self@.len() && self@[at as int].0 == name@ && forall|i: int|
                    0 <= i < at ==> (#[trigger] self@[i]).0 != name@,
                None => !has_name(self@, name@),
            },
    {
        let mut at: usize = 0;
        while at < self.entries.len()
            invariant
                at <= self.entries.len(),
                forall|i: int| 0 <= i < at ==> (#[trigger] self@[i]).0 != name@,
            decreases self.entries.len() - at,
        {
            if same_text(self.entries[at].name.as_str(), name) {
                return Some(at);
            }
            at += 1;
        }
        None
    }

    /// The path recorded for `name`, if any.
    pub fn path_of(&self, name: &str) -> (found: Option<String>)
        ensures
            match found {
                Some(path) => exists|at: int|
                    0 <= at < self@.len() && #[trigger] self@[at] == (name@, path@) && forall|
                        i: int,
                    | 0 <= i < at ==> (#[trigger] self@[i]).0 != name@,
                None => !has_name(self@, name@),
            },
    {
        match self.position(name) {
            Some(at) => Some(self.entries[at].path.clone()),
            None => None,
        }
    }

    /// Records that the component `name` has its executable at `path`.
    pub fn record(&mut self, name: &str, path: &str)
        requires
            old(self).wf(),
        ensures
            final(self)@ == recorded(old(self)@, name@, path@),
            final(self).wf(),
    {
        let entry = Artifact { name: String::from_str(name), path: String::from_str(path) };
        match self.position(name) {
            Some(at) => {
                self.entries[at] = entry;
                assert(has_name(old(self)@, name@));
                assert(self@ =~= recorded(old(self)@, name@, path@));
            },
            None => {
                self.entries.push(entry);
                assert(self@ =~= recorded(old(self)@, name@, path@));
            },
        }
    }

    /// Takes one event in: records an artifact that carries a non-empty
    /// executable path, and returns the text to forward for a compiler
    /// message or a plain line.
    pub fn handle_event(&mut self, event: &BuildEvent) -> (diagnostic: Option<String>)
        requires
            old(self).wf(),
        ensures
            final(self)@ == after_event(old(self)@, event@),
            final(self).wf(),
            text_view(diagnostic) == diagnostic_of(event@),
    {
        match event {
            BuildEvent::CompilerArtifact { name, executable } => {
                match executable {
                    Some(path) => {
                        if path.as_str().unicode_len() > 0 {
                            self.record(name.as_str(), path.as_str());
                        }
                    },
                    None => {},
                }
                None
            },
            BuildEvent::CompilerMessage { message } => Some(message.clone()),
            BuildEvent::TextLine { line } => Some(line.clone()),
            BuildEvent::Other => None,
        }
    }

    /// Whether the set holds exactly the declared names: one entry for each,
    /// and none besides. A list that declares a name twice is never met.
    pub fn is_complete(&self, declared: &Vec<String>) -> (complete: bool)
        ensures
            complete == holds_exactly(self@, texts(declared@)),
    {
        if self.entries.len() != declared.len() {
            return false;
        }
        if !all_distinct(declared) {
            return false;
        }
        let mut k: usize = 0;
        while k < declared.len()
            invariant
                k <= declared@.len(),
                self@.len() == declared@.len(),
                forall|i: int| 0 <= i < k ==> has_name(self@, #[trigger] texts(declared@)[i]),
            decreases declared@.len() - k,
        {
            if self.position(declared[k].as_str()).is_none() {
                assert(!has_name(self@, texts(declared@)[k as int]));
                return false;
            }
            k += 1;
        }
        true
    }
}

/// The line that hands `text` to the enclosing build system as a warning.
pub fn warning_line(text: &str) -> (line: String)
    ensures
        line@ == warning_line_of(text@),
{
    join_text("cargo:warning=", text)
}

/// Takes a whole run of events in, starting from nothing: returns the
/// executables that it reports and the texts to forward, in order.
pub fn collect_artifacts(events: &Vec<BuildEvent>) -> (collected: (ArtifactSet, Vec<String>))
    ensures
        collected.0@ == after_events(Seq::empty(), event_views(events@)),
        collected.0.wf(),
        collected.1@.map_values(|text: String| text@) == diagnostics_of(event_views(events@)),
{
    let mut set = ArtifactSet::new();
    let mut diagnostics: Vec<String> = Vec::new();
    let ghost views = event_views(events@);
    let mut at: usize = 0;
    assert(diagnostics@.map_values(|text: String| text@) =~= diagnostics_of(views.take(0)));
    while at < events.len()
        invariant
            at <= events@.len(),
            views == event_views(events@),
            set.wf(),
            set@ == after_events(Seq::empty(), views.take(at as int)),
            diagnostics@.map_values(|text: String| text@) == diagnostics_of(views.take(at as int)),
        decreases events@.len() - at,
    {
        let ghost before = diagnostics@.map_values(|text: String| text@);
        proof {
            assert(views.take(at + 1).drop_last() =~= views.take(at as int));
            assert(views.take(at + 1).last() == events@[at as int]@);
        }
        match set.handle_event(&events[at]) {
            Some(text) => {
                diagnostics.push(text);
                assert(diagnostics@.map_values(|text: String| text@) =~= before.push(text@));
            },
            None => {},
        }
        at += 1;
    }
    assert(views.take(at as int) =~= views);
    (set, diagnostics)
}


/// Whether an event reports an executable for `name`.
pub open spec fn reports(event: EventView, name: Seq<char>) -> bool {
    match event {
        EventView::CompilerArtifact { name: reported, executable: Some(path) } => reported == name
            && path.len() > 0,
        _ => false,
    }
}

/// Whether some event of a run reports an executable for `name`.
pub open spec fn is_reported(events: Seq<EventView>, name: Seq<char>) -> bool {
    exists|i: int| 0 <= i < events.len() && reports(#[trigger] events[i], name)
}

/// Recording adds the recorded name to the names held and takes none away.
pub proof fn recording_adds_one_name(
    entries: Entries,
    name: Seq<char>,
    path: Seq<char>,
    other: Seq<char>,
)
    ensures
        has_name(recorded(entries, name, path), other) <==> has_name(entries, other) || other
            == name,
        recorded(entries, name, path).len() >= entries.len(),
{
    let after = recorded(entries, name, path);
    if has_name(entries, name) {
        let at = place_of(entries, name);
        assert(after[at].0 == name);
        if has_name(entries, other) {
            let i = choose|i: int| 0 <= i < entries.len() && (#[trigger] entries[i]).0 == other;
            assert(after[i].0 == other);
        }
        if has_name(after, other) {
            let i = choose|i: int| 0 <= i < after.len() && (#[trigger] after[i]).0 == other;
            if i != at {
                assert(entries[i].0 == other);
            }
        }
    } else {
        assert(after[entries.len() as int].0 == name);
        if has_name(entries, other) {
            let i = choose|i: int| 0 <= i < entries.len() && (#[trigger] entries[i]).0 == other;
            assert(after[i].0 == other);
        }
        if has_name(after, other) {
            let i = choose|i: int| 0 <= i < after.len() && (#[trigger] after[i]).0 == other;
            if i < entries.len() {
                assert(entries[i].0 == other);
            }
        }
    }
}

/// Recording keeps the names distinct.
pub proof fn recording_keeps_names_distinct(entries: Entries, name: Seq<char>, path: Seq<char>)
    requires
        names_distinct(entries),
    ensures
        names_distinct(recorded(entries, name, path)),
{
    let after = recorded(entries, name, path);
    if has_name(entries, name) {
        let at = place_of(entries, name);
        assert forall|i: int, j: int| 0 <= i < j < after.len() implies (#[trigger] after[i]).0 != (
        #[trigger] after[j]).0 by {
            assert(entries[i].0 != entries[j].0);
        }
    } else {
        assert forall|i: int, j: int| 0 <= i < j < after.len() implies (#[trigger] after[i]).0 != (
        #[trigger] after[j]).0 by {
            if j < entries.len() {
                assert(entries[i].0 != entries[j].0);
            } else {
                assert(entries[i].0 != name);
            }
        }
    }
}

/// Recording the same executable again changes nothing.
pub proof fn recording_twice_is_recording_once(entries: Entries, name: Seq<char>, path: Seq<char>)
    requires
        names_distinct(entries),
    ensures
        recorded(recorded(entries, name, path), name, path) == recorded(entries, name, path),
{
    let once = recorded(entries, name, path);
    recording_adds_one_name(entries, name, path, name);
    recording_keeps_names_distinct(entries, name, path);
    let at = place_of(once, name);
    if has_name(entries, name) {
        let first = place_of(entries, name);
        assert(once[first].0 == name);
        if at < first {
            assert(once[at].0 != once[first].0);
        }
        if first < at {
            assert(once[first].0 != once[at].0);
        }
    } else {
        let end = entries.len() as int;
        assert(once[end].0 == name);
        if at < end {
            assert(once[at].0 != once[end].0);
        }
    }
    assert(once.update(at, (name, path)) =~= once);
}

/// A run of events can be taken in two parts.
pub proof fn events_can_be_split(entries: Entries, first: Seq<EventView>, second: Seq<EventView>)
    ensures
        after_events(entries, first + second) == after_events(
            after_events(entries, first),
            second,
        ),
    decreases second.len(),
{
    if second.len() == 0 {
        assert(first + second =~= first);
    } else {
        assert((first + second).drop_last() =~= first + second.drop_last());
        assert((first + second).last() == second.last());
        events_can_be_split(entries, first, second.drop_last());
    }
}

/// Diagnostics do not disturb the collection: an event that reports no
/// executable, met anywhere in a run, leaves the outcome as it would be
/// without it.
pub proof fn diagnostics_change_no_artifact(
    entries: Entries,
    before: Seq<EventView>,
    event: EventView,
    after: Seq<EventView>,
)
    requires
        forall|name: Seq<char>| !reports(event, name),
    ensures
        after_events(entries, before + seq![event] + after) == after_events(
            entries,
            before + after,
        ),
{
    let middle = seq![event];
    events_can_be_split(entries, before + middle, after);
    events_can_be_split(entries, before, middle);
    events_can_be_split(entries, before, after);
    let reached = after_events(entries, before);
    assert(middle.drop_last() =~= Seq::<EventView>::empty());
    assert(after_events(reached, middle.drop_last()) == reached);
    assert(middle.last() == event);
    match event {
        EventView::CompilerArtifact { name, executable: Some(path) } => {
            assert(!reports(event, name));
        },
        _ => {},
    }
    assert(after_event(reached, event) == reached);
}

/// After a run, the set holds exactly the names that it held before and
/// those for which the run reported an executable: none is lost and none
/// is made up.
pub proof fn held_names_are_the_reported_ones(
    entries: Entries,
    events: Seq<EventView>,
    name: Seq<char>,
)
    ensures
        has_name(after_events(entries, events), name) <==> has_name(entries, name) || is_reported(
            events,
            name,
        ),
    decreases events.len(),
{
    if events.len() > 0 {
        let rest = events.drop_last();
        let last = events.last();
        let reached = after_events(entries, rest);
        held_names_are_the_reported_ones(entries, rest, name);
        match last {
            EventView::CompilerArtifact { name: reported, executable: Some(path) } => {
                if path.len() > 0 {
                    recording_adds_one_name(reached, reported, path, name);
                }
            },
            _ => {},
        }
        assert(has_name(after_event(reached, last), name) <==> has_name(reached, name) || reports(
            last,
            name,
        ));
        if is_reported(rest, name) {
            let i = choose|i: int| 0 <= i < rest.len() && reports(#[trigger] rest[i], name);
            assert(reports(events[i], name));
        }
        if reports(last, name) {
            assert(reports(events[events.len() - 1], name));
        }
        if is_reported(events, name) {
            let i = choose|i: int| 0 <= i < events.len() && reports(#[trigger] events[i], name);
            if i < rest.len() {
                assert(reports(rest[i], name));
            }
        }
    }
}

/// A complete set holds the declared binaries and nothing else: a name has
/// an entry exactly if it is declared.
pub proof fn complete_set_holds_exactly_the_declared(
    entries: Entries,
    declared: Seq<Seq<char>>,
    name: Seq<char>,
)
    requires
        names_distinct(entries),
        holds_exactly(entries, declared),
    ensures
        has_name(entries, name) <==> declared.contains(name),
{
    broadcast use vstd::seq_lib::seq_to_set_is_finite;

    let names = entries.map_values(|entry: (Seq<char>, Seq<char>)| entry.0);
    assert forall|i: int, j: int| 0 <= i < names.len() && 0 <= j < names.len() && i != j implies names[i]
        != names[j] by {
        if i < j {
            assert(entries[i].0 != entries[j].0);
        } else {
            assert(entries[j].0 != entries[i].0);
        }
    }
    names.unique_seq_to_set();
    declared.unique_seq_to_set();
    assert forall|wanted: Seq<char>| declared.to_set().contains(wanted) implies names.to_set().contains(
        wanted,
    ) by {
        let k = choose|k: int| 0 <= k < declared.len() && declared[k] == wanted;
        assert(has_name(entries, declared[k]));
        let i = choose|i: int| 0 <= i < entries.len() && (#[trigger] entries[i]).0 == wanted;
        assert(names[i] == wanted);
    }
    vstd::set_lib::lemma_subset_equality(declared.to_set(), names.to_set());
    if has_name(entries, name) {
        let i = choose|i: int| 0 <= i < entries.len() && (#[trigger] entries[i]).0 == name;
        assert(names[i] == name);
        assert(names.to_set().contains(name));
        assert(declared.to_set().contains(name));
    }
    if declared.contains(name) {
        let k = choose|k: int| 0 <= k < declared.len() && declared[k] == name;
        assert(has_name(entries, declared[k]));
    }
}

/// Whether the entries hold `name` with `path`.
pub open spec fn holds_pair(entries: Entries, name: Seq<char>, path: Seq<char>) -> bool {
    exists|k: int| 0 <= k < entries.len() && #[trigger] entries[k] == (name, path)
}

/// What was recorded is held.
pub proof fn recording_holds_the_pair(entries: Entries, name: Seq<char>, path: Seq<char>)
    ensures
        holds_pair(recorded(entries, name, path), name, path),
{
    let after = recorded(entries, name, path);
    if has_name(entries, name) {
        let at = place_of(entries, name);
        assert(after[at] == (name, path));
    } else {
        assert(after[entries.len() as int] == (name, path));
    }
}

/// Events that report nothing for `name` leave its entry as it is.
pub proof fn other_events_keep_the_pair(
    entries: Entries,
    events: Seq<EventView>,
    name: Seq<char>,
    path: Seq<char>,
)
    requires
        holds_pair(entries, name, path),
        !is_reported(events, name),
    ensures
        holds_pair(after_events(entries, events), name, path),
    decreases events.len(),
{
    if events.len() > 0 {
        let rest = events.drop_last();
        let last = events.last();
        assert forall|i: int| 0 <= i < rest.len() implies !reports(#[trigger] rest[i], name) by {
            assert(!reports(events[i], name));
        }
        other_events_keep_the_pair(entries, rest, name, path);
        let reached = after_events(entries, rest);
        let k = choose|k: int| 0 <= k < reached.len() && #[trigger] reached[k] == (name, path);
        assert(!reports(events[events.len() - 1], name));
        match last {
            EventView::CompilerArtifact { name: reported, executable: Some(other) } => {
                if other.len() > 0 {
                    let after = recorded(reached, reported, other);
                    assert(reported != name);
                    if has_name(reached, reported) {
                        let at = place_of(reached, reported);
                        assert(at != k);
                    }
                    assert(after[k] == (name, path));
                }
            },
            _ => {},
        }
    }
}

/// The set holds each name with the path that was reported for it last.
pub proof fn held_path_is_the_last_reported(
    entries: Entries,
    events: Seq<EventView>,
    at: int,
    name: Seq<char>,
    path: Seq<char>,
)
    requires
        0 <= at < events.len(),
        events[at] == (EventView::CompilerArtifact { name, executable: Some(path) }),
        path.len() > 0,
        forall|later: int| at < later < events.len() ==> !reports(#[trigger] events[later], name),
    ensures
        holds_pair(after_events(entries, events), name, path),
{
    let upto = events.take(at + 1);
    let tail = events.skip(at + 1);
    assert(events =~= upto + tail);
    events_can_be_split(entries, upto, tail);
    assert(upto.last() == events[at]);
    let reached = after_events(entries, upto.drop_last());
    assert(after_events(entries, upto) == recorded(reached, name, path));
    recording_holds_the_pair(reached, name, path);
    assert forall|i: int| 0 <= i < tail.len() implies !reports(#[trigger] tail[i], name) by {
        assert(tail[i] == events[at + 1 + i]);
    }
    other_events_keep_the_pair(after_events(entries, upto), tail, name, path);
}

} // verus!
