//! The command lines of the external tools, as plain values that the caller
//! runs: a program, its arguments in order, and the environment variables
//! that are taken away before it starts.
use vstd::prelude::*;
use crate::config::{arch_macro_of, target_name, triple_of, Endian};
use crate::text::{join_text, texts};

verus! {

/// A command line.
#[derive(Clone, Debug, PartialEq, Eq)]
pub struct CommandLine {
    pub program: String,
    pub args: Vec<String>,
    pub env_remove: Vec<String>,
}

/// What a command line holds, as characters.
pub struct CommandView {
    pub program: Seq<char>,
    pub args: Seq<Seq<char>>,
    pub env_remove: Seq<Seq<char>>,
}

impl View for CommandLine {
    type V = CommandView;

    open spec fn view(&self) -> CommandView {
        CommandView {
            program: self.program@,
            args: texts(self.args@),
            env_remove: texts(self.env_remove@),
        }
    }
}

/// The setting that tells the native build tool where to put the headers.
pub open spec fn include_dir_setting_of(headers_dir: Seq<char>) -> Seq<char> {
    "INCLUDEDIR="@ + headers_dir
}

/// The directive that tells the extraction utility to write the debug type
/// section to `destination`.
pub open spec fn section_dump_of(destination: Seq<char>) -> Seq<char> {
    ".BTF="@ + destination
}

/// The native build tool, told to install the headers of the upstream
/// sources under `headers_dir`.
pub open spec fn header_install_of(upstream_dir: Seq<char>, headers_dir: Seq<char>) -> CommandView {
    CommandView {
        program: "make"@,
        args: seq!["-C"@, upstream_dir, include_dir_setting_of(headers_dir), "install_headers"@],
        env_remove: seq![],
    }
}

/// The C compiler, told to compile `source` for `triple` into the file
/// `destination`, optimised and with debug symbols.
pub open spec fn compile_of(
    headers_dir: Seq<char>,
    triple: Seq<char>,
    arch_macro: Seq<char>,
    source: Seq<char>,
    destination: Seq<char>,
) -> CommandView {
    CommandView {
        program: "clang"@,
        args: seq![
            "-I"@,
            headers_dir,
            "-g"@,
            "-O2"@,
            "-target"@,
            triple,
            "-c"@,
            arch_macro,
            source,
            "-o"@,
            destination,
        ],
        env_remove: seq![],
    }
}

/// The C compiler, told to compile `source` for `triple` and to write the
/// object to its standard output, with debug symbols and without the
/// optimisation that would strip the section to extract.
pub open spec fn piped_compile_of(
    headers_dir: Seq<char>,
    triple: Seq<char>,
    arch_macro: Seq<char>,
    source: Seq<char>,
) -> CommandView {
    CommandView {
        program: "clang"@,
        args: seq![
            "-I"@,
            headers_dir,
            "-g"@,
            "-target"@,
            triple,
            "-c"@,
            arch_macro,
            source,
            "-o"@,
            "-"@,
        ],
        env_remove: seq![],
    }
}

/// The extraction utility that can read an object from its standard input,
/// told to write the debug type section to `destination`.
pub open spec fn extract_of(destination: Seq<char>) -> CommandView {
    CommandView {
        program: "llvm-objcopy"@,
        args: seq!["--dump-section"@, section_dump_of(destination), "-"@],
        env_remove: seq![],
    }
}

/// The component build tool, told to build every binary of the sibling
/// component for `triple`, optimised, in a target directory of its own,
/// reporting in structured form; the variables that would override its
/// choice of toolchain are taken away.
pub open spec fn cross_build_of(triple: Seq<char>, target_dir: Seq<char>) -> CommandView {
    CommandView {
        program: "cargo"@,
        args: seq![
            "build"@,
            "-Z"@,
            "build-std=core"@,
            "--bins"@,
            "--message-format=json"@,
            "--release"@,
            "--target"@,
            triple,
            "--target-dir"@,
            target_dir,
        ],
        env_remove: seq!["RUSTUP_TOOLCHAIN"@, "RUSTC"@],
    }
}

fn push_text(list: &mut Vec<String>, text: &str)
    ensures
        texts(final(list)@) == texts(old(list)@).push(text@),
{
    list.push(String::from_str(text));
    assert(texts(list@) =~= texts(old(list)@).push(text@));
}

fn empty_list() -> (list: Vec<String>)
    ensures
        texts(list@) == Seq::<Seq<char>>::empty(),
{
    let list: Vec<String> = Vec::new();
    assert(texts(list@) =~= Seq::<Seq<char>>::empty());
    list
}

/// Builds the command that installs the headers.
pub fn header_install_command(upstream_dir: &str, headers_dir: &str) -> (command: CommandLine)
    ensures
        command@ == header_install_of(upstream_dir@, headers_dir@),
{
    let setting = join_text("INCLUDEDIR=", headers_dir);
    let mut args = empty_list();
    push_text(&mut args, "-C");
    push_text(&mut args, upstream_dir);
    push_text(&mut args, setting.as_str());
    push_text(&mut args, "install_headers");
    let command = CommandLine { program: String::from_str("make"), args, env_remove: empty_list() };
    assert(command@.args =~= header_install_of(upstream_dir@, headers_dir@).args);
    assert(command@.env_remove =~= header_install_of(upstream_dir@, headers_dir@).env_remove);
    command
}

/// Builds the command that compiles one C source into an object file.
pub fn compile_command(
    headers_dir: &str,
    triple: &str,
    arch_macro: &str,
    source: &str,
    destination: &str,
) -> (command: CommandLine)
    ensures
        command@ == compile_of(headers_dir@, triple@, arch_macro@, source@, destination@),
{
    let mut args = empty_list();
    push_text(&mut args, "-I");
    push_text(&mut args, headers_dir);
    push_text(&mut args, "-g");
    push_text(&mut args, "-O2");
    push_text(&mut args, "-target");
    push_text(&mut args, triple);
    push_text(&mut args, "-c");
    push_text(&mut args, arch_macro);
    push_text(&mut args, source);
    push_text(&mut args, "-o");
    push_text(&mut args, destination);
    let command = CommandLine { program: String::from_str("clang"), args, env_remove: empty_list() };
    let ghost wanted = compile_of(headers_dir@, triple@, arch_macro@, source@, destination@);
    assert(command@.args =~= wanted.args);
    assert(command@.env_remove =~= wanted.env_remove);
    command
}

/// Builds the command that compiles one C source and writes the object to
/// the compiler's standard output.
pub fn piped_compile_command(headers_dir: &str, triple: &str, arch_macro: &str, source: &str) -> (command:
    CommandLine)
    ensures
        command@ == piped_compile_of(headers_dir@, triple@, arch_macro@, source@),
{
    let mut args = empty_list();
    push_text(&mut args, "-I");
    push_text(&mut args, headers_dir);
    push_text(&mut args, "-g");
    push_text(&mut args, "-target");
    push_text(&mut args, triple);
    push_text(&mut args, "-c");
    push_text(&mut args, arch_macro);
    push_text(&mut args, source);
    push_text(&mut args, "-o");
    push_text(&mut args, "-");
    let command = CommandLine { program: String::from_str("clang"), args, env_remove: empty_list() };
    let ghost wanted = piped_compile_of(headers_dir@, triple@, arch_macro@, source@);
    assert(command@.args =~= wanted.args);
    assert(command@.env_remove =~= wanted.env_remove);
    command
}

/// Builds the command that reads an object from its standard input and
/// writes the debug type section to `destination`.
pub fn extract_command(destination: &str) -> (command: CommandLine)
    ensures
        command@ == extract_of(destination@),
{
    let directive = join_text(".BTF=", destination);
    let mut args = empty_list();
    push_text(&mut args, "--dump-section");
    push_text(&mut args, directive.as_str());
    push_text(&mut args, "-");
    let command = CommandLine {
        program: String::from_str("llvm-objcopy"),
        args,
        env_remove: empty_list(),
    };
    assert(command@.args =~= extract_of(destination@).args);
    assert(command@.env_remove =~= extract_of(destination@).env_remove);
    command
}

/// Builds the command that cross-compiles the sibling component.
pub fn cross_build_command(triple: &str, target_dir: &str) -> (command: CommandLine)
    ensures
        command@ == cross_build_of(triple@, target_dir@),
{
    let mut args = empty_list();
    push_text(&mut args, "build");
    push_text(&mut args, "-Z");
    push_text(&mut args, "build-std=core");
    push_text(&mut args, "--bins");
    push_text(&mut args, "--message-format=json");
    push_text(&mut args, "--release");
    push_text(&mut args, "--target");
    push_text(&mut args, triple);
    push_text(&mut args, "--target-dir");
    push_text(&mut args, target_dir);
    let mut env_remove = empty_list();
    push_text(&mut env_remove, "RUSTUP_TOOLCHAIN");
    push_text(&mut env_remove, "RUSTC");
    let command = CommandLine { program: String::from_str("cargo"), args, env_remove };
    assert(command@.args =~= cross_build_of(triple@, target_dir@).args);
    assert(command@.env_remove =~= cross_build_of(triple@, target_dir@).env_remove);
    command
}

/// Every compiler is told the resolved target and the architecture macro:
/// whatever the byte order and the architecture, both C compiles name the
/// triple behind `-target` and carry the macro as one argument, and the
/// cross build names the same triple behind `--target`. The triple is the
/// target name of the byte order followed by the fixed suffix, and the two
/// byte orders have different triples.
pub proof fn commands_name_the_resolved_target(
    endian: Endian,
    arch: Seq<char>,
    headers_dir: Seq<char>,
    source: Seq<char>,
    destination: Seq<char>,
    target_dir: Seq<char>,
)
    ensures
        ({
            let triple = triple_of(target_name(endian));
            let definition = arch_macro_of(arch);
            let plain = compile_of(headers_dir, triple, definition, source, destination);
            let piped = piped_compile_of(headers_dir, triple, definition, source);
            let cross = cross_build_of(triple, target_dir);
            &&& plain.args[4] == "-target"@ && plain.args[5] == triple && plain.args[7]
                == definition
            &&& piped.args[3] == "-target"@ && piped.args[4] == triple && piped.args[6]
                == definition
            &&& cross.args[6] == "--target"@ && cross.args[7] == triple
            &&& triple.subrange(0, target_name(endian).len() as int) == target_name(endian)
            &&& triple.subrange(target_name(endian).len() as int, triple.len() as int)
                == "-unknown-none"@
        }),
        triple_of(target_name(Endian::Big)) != triple_of(target_name(Endian::Little)),
{
    let name = target_name(endian);
    let triple = triple_of(name);
    assert(triple.subrange(0, name.len() as int) =~= name);
    assert(triple.subrange(name.len() as int, triple.len() as int) =~= "-unknown-none"@);
    reveal_strlit("bpfeb");
    reveal_strlit("bpfel");
    let big = triple_of(target_name(Endian::Big));
    let little = triple_of(target_name(Endian::Little));
    assert(big[4] == 'b');
    assert(little[4] == 'l');
}

} // verus!
