//! What the build environment decides before any tool runs: the build mode,
//! the cross-compilation target and the architecture macro.
use vstd::prelude::*;
use crate::text::{join_text, same_text};

verus! {

/// Which of the two build strategies a run follows.
#[derive(Clone, Copy, Debug, PartialEq, Eq, Structural)]
pub enum BuildMode {
    /// Write empty placeholders and stop.
    Stub,
    /// Run the compilers and stage what they produce.
    Full,
}

/// Byte order of the machine the bytecode is compiled for.
#[derive(Clone, Copy, Debug, PartialEq, Eq, Structural)]
pub enum Endian {
    Big,
    Little,
}

/// A value of the environment that invalidates every later decision.
#[derive(Clone, Debug, PartialEq, Eq)]
pub enum ConfigError {
    /// The mode switch is set to something other than `true` or `false`.
    InvalidModeFlag { value: String },
    /// The reported byte order is neither `big` nor `little`.
    UnsupportedEndian { value: String },
}

/// The mode that a value of the switch selects; `None` where the value is
/// not a boolean. An unset switch selects the stub mode.
pub open spec fn mode_of_flag(flag: Option<Seq<char>>) -> Option<BuildMode> {
    match flag {
        None => Some(BuildMode::Stub),
        Some(text) => if text == "true"@ {
            Some(BuildMode::Full)
        } else if text == "false"@ {
            Some(BuildMode::Stub)
        } else {
            None
        },
    }
}

/// The byte order that a reported value names, if it names one.
pub open spec fn endian_of(text: Seq<char>) -> Option<Endian> {
    if text == "big"@ {
        Some(Endian::Big)
    } else if text == "little"@ {
        Some(Endian::Little)
    } else {
        None
    }
}

/// The target name for a byte order.
pub open spec fn target_name(endian: Endian) -> Seq<char> {
    match endian {
        Endian::Big => "bpfeb"@,
        Endian::Little => "bpfel"@,
    }
}

/// The full triple: the target name followed by the fixed OS/ABI suffix.
pub open spec fn triple_of(target: Seq<char>) -> Seq<char> {
    target + "-unknown-none"@
}

/// The kernel's name for a CPU architecture.
pub open spec fn kernel_arch(arch: Seq<char>) -> Seq<char> {
    if arch == "x86_64"@ {
        "x86"@
    } else if arch == "aarch64"@ {
        "arm64"@
    } else {
        arch
    }
}

/// The preprocessor definition that tells the C sources the architecture.
pub open spec fn arch_macro_of(arch: Seq<char>) -> Seq<char> {
    "-D__TARGET_ARCH_"@ + kernel_arch(arch)
}

/// The view of an optional string.
pub open spec fn flag_view(flag: Option<&str>) -> Option<Seq<char>> {
    match flag {
        None => None,
        Some(text) => Some(text@),
    }
}

/// Decides the build mode from the switch as the environment holds it.
/// Fails exactly where the switch is set and is not a boolean, and then
/// hands the offending value back.
pub fn select_mode(flag: Option<&str>) -> (mode: Result<BuildMode, ConfigError>)
    ensures
        match mode_of_flag(flag_view(flag)) {
            Some(selected) => mode == Ok::<BuildMode, ConfigError>(selected),
            None => mode matches Err(ConfigError::InvalidModeFlag { value })
                && Some(value@) == flag_view(flag),
        },
{
    match flag {
        None => Ok(BuildMode::Stub),
        Some(text) => {
            if same_text(text, "true") {
                Ok(BuildMode::Full)
            } else if same_text(text, "false") {
                Ok(BuildMode::Stub)
            } else {
                Err(ConfigError::InvalidModeFlag { value: String::from_str(text) })
            }
        },
    }
}

/// Reads the reported byte order. Fails exactly where it is neither `big`
/// nor `little`, and then hands the offending value back.
pub fn parse_endian(text: &str) -> (endian: Result<Endian, ConfigError>)
    ensures
        match endian_of(text@) {
            Some(known) => endian == Ok::<Endian, ConfigError>(known),
            None => endian matches Err(ConfigError::UnsupportedEndian { value })
                && value@ == text@,
        },
{
    if same_text(text, "big") {
        Ok(Endian::Big)
    } else if same_text(text, "little") {
        Ok(Endian::Little)
    } else {
        Err(ConfigError::UnsupportedEndian { value: String::from_str(text) })
    }
}

impl Endian {
    /// The target name that the compilers are given for this byte order.
    pub fn target(&self) -> (name: String)
        ensures
            name@ == target_name(*self),
    {
        match self {
            Endian::Big => String::from_str("bpfeb"),
            Endian::Little => String::from_str("bpfel"),
        }
    }
}

/// Derives the target name from the reported byte order: `bpfeb` for `big`,
/// `bpfel` for `little`, and an error for anything else.
pub fn resolve_target(endian: &str) -> (target: Result<String, ConfigError>)
    ensures
        match endian_of(endian@) {
            Some(known) => target matches Ok(name) && name@ == target_name(known),
            None => target matches Err(ConfigError::UnsupportedEndian { value })
                && value@ == endian@,
        },
{
    match parse_endian(endian) {
        Ok(known) => Ok(known.target()),
        Err(error) => Err(error),
    }
}

/// The triple that names the target to the component build tool.
pub fn target_triple(target: &str) -> (triple: String)
    ensures
        triple@ == triple_of(target@),
{
    join_text(target, "-unknown-none")
}

/// The architecture macro for the CPU architecture that the host reports.
pub fn arch_macro(arch: &str) -> (definition: String)
    ensures
        definition@ == arch_macro_of(arch@),
{
    if same_text(arch, "x86_64") {
        join_text("-D__TARGET_ARCH_", "x86")
    } else if same_text(arch, "aarch64") {
        join_text("-D__TARGET_ARCH_", "arm64")
    } else {
        join_text("-D__TARGET_ARCH_", arch)
    }
}

/// What the compilers are told about the machine the bytecode is for.
#[derive(Clone, Debug, PartialEq, Eq)]
pub struct ResolvedTarget {
    /// The target triple.
    pub triple: String,
    /// The architecture macro for the C sources.
    pub arch_macro: String,
}

/// Derives what the compilers are told from the byte order and the CPU
/// architecture that the environment reports. Fails exactly where the byte
/// order is neither `big` nor `little`; any architecture is accepted.
pub fn resolve(endian: &str, arch: &str) -> (resolved: Result<ResolvedTarget, ConfigError>)
    ensures
        match endian_of(endian@) {
            Some(known) => resolved matches Ok(found) && found.triple@ == triple_of(
                target_name(known),
            ) && found.arch_macro@ == arch_macro_of(arch@),
            None => resolved matches Err(ConfigError::UnsupportedEndian { value })
                && value@ == endian@,
        },
{
    match resolve_target(endian) {
        Ok(target) => Ok(
            ResolvedTarget { triple: target_triple(target.as_str()), arch_macro: arch_macro(arch) },
        ),
        Err(error) => Err(error),
    }
}

/// No byte order outside the two supported ones has a target, and the two
/// supported ones have distinct targets.
pub proof fn target_resolution_is_total_on_supported(text: Seq<char>)
    ensures
        text == "big"@ ==> endian_of(text) == Some(Endian::Big),
        text == "little"@ ==> endian_of(text) == Some(Endian::Little),
        text != "big"@ && text != "little"@ ==> endian_of(text).is_none(),
        target_name(Endian::Big) != target_name(Endian::Little),
{
    reveal_strlit("big");
    reveal_strlit("little");
    reveal_strlit("bpfeb");
    reveal_strlit("bpfel");
    assert("big"@.len() != "little"@.len());
    assert("bpfeb"@[4] != "bpfel"@[4]);
}

/// The two architectures that the kernel names otherwise are renamed, and
/// every other architecture goes into the macro as it is.
pub proof fn architectures_are_named_as_the_kernel_does(arch: Seq<char>)
    ensures
        arch_macro_of("x86_64"@) == "-D__TARGET_ARCH_x86"@,
        arch_macro_of("aarch64"@) == "-D__TARGET_ARCH_arm64"@,
        arch != "x86_64"@ && arch != "aarch64"@ ==> arch_macro_of(arch) == "-D__TARGET_ARCH_"@
            + arch,
{
    reveal_strlit("x86_64");
    reveal_strlit("aarch64");
    reveal_strlit("x86");
    reveal_strlit("arm64");
    reveal_strlit("-D__TARGET_ARCH_");
    reveal_strlit("-D__TARGET_ARCH_x86");
    reveal_strlit("-D__TARGET_ARCH_arm64");
    assert("aarch64"@[0] != "x86_64"@[0]);
    assert("-D__TARGET_ARCH_"@ + "x86"@ =~= "-D__TARGET_ARCH_x86"@);
    assert("-D__TARGET_ARCH_"@ + "arm64"@ =~= "-D__TARGET_ARCH_arm64"@);
}

} // verus!
