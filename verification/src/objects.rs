//! The fixed tables of C sources and the object files made from them.
use vstd::prelude::*;

verus! {

/// One C source and the object file that is made from it. Both are file
/// names: the source lies in the sources directory, the object in the
/// output directory.
#[derive(Clone, Debug, PartialEq, Eq)]
pub struct CObjectSpec {
    pub source: String,
    pub destination: String,
}

impl View for CObjectSpec {
    type V = (Seq<char>, Seq<char>);

    open spec fn view(&self) -> (Seq<char>, Seq<char>) {
        (self.source@, self.destination@)
    }
}

/// The views of a list of specifications, in order.
pub open spec fn spec_views(specs: Seq<CObjectSpec>) -> Seq<(Seq<char>, Seq<char>)> {
    specs.map_values(|spec: CObjectSpec| spec@)
}

/// The sources that are compiled to plain objects, in build order.
pub open spec fn plain_table() -> Seq<(Seq<char>, Seq<char>)> {
    seq![
        ("ext.bpf.c"@, "ext.bpf.o"@),
        ("main.bpf.c"@, "main.bpf.o"@),
        ("multimap-btf.bpf.c"@, "multimap-btf.bpf.o"@),
        ("reloc.bpf.c"@, "reloc.bpf.o"@),
        ("text_64_64_reloc.c"@, "text_64_64_reloc.o"@),
    ]
}

/// The sources whose debug type section is extracted, in build order.
pub open spec fn btf_table() -> Seq<(Seq<char>, Seq<char>)> {
    seq![("reloc.btf.c"@, "reloc.btf.o"@)]
}

/// Every destination of the two tables: the plain objects, then the
/// extracted sections.
pub open spec fn object_destinations() -> Seq<Seq<char>> {
    (plain_table() + btf_table()).map_values(|pair: (Seq<char>, Seq<char>)| pair.1)
}

fn object_spec(source: &str, destination: &str) -> (spec: CObjectSpec)
    ensures
        spec@ == (source@, destination@),
{
    CObjectSpec { source: String::from_str(source), destination: String::from_str(destination) }
}

/// The table of plain objects.
pub fn c_bpf_objects() -> (specs: Vec<CObjectSpec>)
    ensures
        spec_views(specs@) == plain_table(),
{
    let mut specs: Vec<CObjectSpec> = Vec::new();
    specs.push(object_spec("ext.bpf.c", "ext.bpf.o"));
    specs.push(object_spec("main.bpf.c", "main.bpf.o"));
    specs.push(object_spec("multimap-btf.bpf.c", "multimap-btf.bpf.o"));
    specs.push(object_spec("reloc.bpf.c", "reloc.bpf.o"));
    specs.push(object_spec("text_64_64_reloc.c", "text_64_64_reloc.o"));
    assert(spec_views(specs@) =~= plain_table());
    specs
}

/// The table of objects whose debug type section is extracted.
pub fn c_btf_objects() -> (specs: Vec<CObjectSpec>)
    ensures
        spec_views(specs@) == btf_table(),
{
    let mut specs: Vec<CObjectSpec> = Vec::new();
    specs.push(object_spec("reloc.btf.c", "reloc.btf.o"));
    assert(spec_views(specs@) =~= btf_table());
    specs
}

/// No two entries of the tables share a destination, so no object file in
/// the output directory is written twice.
pub proof fn destinations_are_distinct()
    ensures
        object_destinations().len() == 6,
        forall|i: int, j: int|
            0 <= i < j < object_destinations().len() ==> object_destinations()[i]
                != object_destinations()[j],
{
    reveal_strlit("ext.bpf.o");
    reveal_strlit("main.bpf.o");
    reveal_strlit("multimap-btf.bpf.o");
    reveal_strlit("reloc.bpf.o");
    reveal_strlit("text_64_64_reloc.o");
    reveal_strlit("reloc.btf.o");
    let all = object_destinations();
    assert(all =~= seq![
        "ext.bpf.o"@,
        "main.bpf.o"@,
        "multimap-btf.bpf.o"@,
        "reloc.bpf.o"@,
        "text_64_64_reloc.o"@,
        "reloc.btf.o"@,
    ]);
    assert(all[0].len() == 9);
    assert(all[1].len() == 10);
    assert(all[2].len() == 18);
    assert(all[3].len() == 11);
    assert(all[4].len() == 18);
    assert(all[5].len() == 11);
    assert(all[2][0] != all[4][0]);
    assert(all[3][7] != all[5][7]);
}

} // verus!
