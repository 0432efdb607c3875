use bpf_artifacts::commands::{
    compile_command, cross_build_command, extract_command, header_install_command,
    piped_compile_command,
};
use bpf_artifacts::config::{
    arch_macro, resolve, resolve_target, select_mode, target_triple, BuildMode, ConfigError,
};
use bpf_artifacts::objects::{c_bpf_objects, c_btf_objects};
use bpf_artifacts::text::{all_distinct, join_text, same_text};

fn strings(items: &[&str]) -> Vec<String> {
    items.iter().map(|item| item.to_string()).collect()
}

#[test]
fn text_helpers_compare_and_join() {
    assert!(same_text("abc", "abc"));
    assert!(!same_text("abc", "abd"));
    assert!(!same_text("abc", "ab"));
    assert_eq!(join_text("ab", "cd"), "abcd");
    assert_eq!(join_text("", ""), "");
    assert!(all_distinct(&Vec::new()));
    assert!(all_distinct(&strings(&["a", "b", "c"])));
    assert!(!all_distinct(&strings(&["a", "b", "a"])));
    assert!(!all_distinct(&strings(&["a", "b", "b"])));
}

#[test]
fn header_install_runs_make_in_the_upstream_sources() {
    let command = header_install_command("/w/libbpf/src", "/out/libbpf_headers");
    assert_eq!(command.program, "make");
    assert_eq!(
        command.args,
        strings(&["-C", "/w/libbpf/src", "INCLUDEDIR=/out/libbpf_headers", "install_headers"])
    );
    assert!(command.env_remove.is_empty());
}

#[test]
fn plain_compile_writes_to_the_destination() {
    let command = compile_command(
        "/out/libbpf_headers",
        "bpfel-unknown-none",
        "-D__TARGET_ARCH_x86",
        "/w/bpf/main.bpf.c",
        "/out/main.bpf.o",
    );
    assert_eq!(command.program, "clang");
    assert_eq!(
        command.args,
        strings(&[
            "-I",
            "/out/libbpf_headers",
            "-g",
            "-O2",
            "-target",
            "bpfel-unknown-none",
            "-c",
            "-D__TARGET_ARCH_x86",
            "/w/bpf/main.bpf.c",
            "-o",
            "/out/main.bpf.o",
        ])
    );
    assert!(command.env_remove.is_empty());
}

#[test]
fn piped_compile_writes_to_standard_output_without_optimisation() {
    let command = piped_compile_command(
        "/out/libbpf_headers",
        "bpfel-unknown-none",
        "-D__TARGET_ARCH_x86",
        "/w/bpf/reloc.btf.c",
    );
    assert_eq!(command.program, "clang");
    assert_eq!(
        command.args,
        strings(&[
            "-I",
            "/out/libbpf_headers",
            "-g",
            "-target",
            "bpfel-unknown-none",
            "-c",
            "-D__TARGET_ARCH_x86",
            "/w/bpf/reloc.btf.c",
            "-o",
            "-",
        ])
    );
    assert!(!command.args.contains(&"-O2".to_string()));
}

#[test]
fn extraction_dumps_the_type_section_from_standard_input() {
    let command = extract_command("/out/reloc.btf.o");
    assert_eq!(command.program, "llvm-objcopy");
    assert_eq!(command.args, strings(&["--dump-section", ".BTF=/out/reloc.btf.o", "-"]));
    assert!(command.env_remove.is_empty());
}

#[test]
fn cross_build_asks_for_structured_output_and_drops_toolchain_overrides() {
    let command = cross_build_command("bpfel-unknown-none", "/out/integration-ebpf");
    assert_eq!(command.program, "cargo");
    assert_eq!(
        command.args,
        strings(&[
            "build",
            "-Z",
            "build-std=core",
            "--bins",
            "--message-format=json",
            "--release",
            "--target",
            "bpfel-unknown-none",
            "--target-dir",
            "/out/integration-ebpf",
        ])
    );
    assert_eq!(command.env_remove, strings(&["RUSTUP_TOOLCHAIN", "RUSTC"]));
}

#[test]
fn full_big_endian_aarch64_build_compiles_for_bpfeb_arm64() {
    assert_eq!(select_mode(Some("true")), Ok(BuildMode::Full));
    let target = resolve_target("big").unwrap();
    let resolved = resolve("big", "aarch64").unwrap();
    assert_eq!(resolved.triple, target_triple(&target));
    assert_eq!(resolved.arch_macro, arch_macro("aarch64"));
    let triple = resolved.triple;
    let definition = resolved.arch_macro;
    assert_eq!(triple, "bpfeb-unknown-none");
    assert_eq!(definition, "-D__TARGET_ARCH_arm64");
    for spec in c_bpf_objects() {
        let command = compile_command("/h", &triple, &definition, &spec.source, &spec.destination);
        assert_eq!(command.program, "clang");
        assert_eq!(command.args[4], "-target");
        assert_eq!(command.args[5], "bpfeb-unknown-none");
        assert_eq!(command.args[7], "-D__TARGET_ARCH_arm64");
    }
    for spec in c_btf_objects() {
        let command = piped_compile_command("/h", &triple, &definition, &spec.source);
        assert_eq!(command.args[3], "-target");
        assert_eq!(command.args[4], "bpfeb-unknown-none");
        assert_eq!(command.args[6], "-D__TARGET_ARCH_arm64");
    }
}

#[test]
fn object_tables_hold_the_fixed_entries_in_order() {
    let plain: Vec<(String, String)> =
        c_bpf_objects().into_iter().map(|spec| (spec.source, spec.destination)).collect();
    let expected: Vec<(String, String)> = [
        ("ext.bpf.c", "ext.bpf.o"),
        ("main.bpf.c", "main.bpf.o"),
        ("multimap-btf.bpf.c", "multimap-btf.bpf.o"),
        ("reloc.bpf.c", "reloc.bpf.o"),
        ("text_64_64_reloc.c", "text_64_64_reloc.o"),
    ]
    .iter()
    .map(|(source, destination)| (source.to_string(), destination.to_string()))
    .collect();
    assert_eq!(plain, expected);
    let sections: Vec<(String, String)> =
        c_btf_objects().into_iter().map(|spec| (spec.source, spec.destination)).collect();
    assert_eq!(sections, vec![("reloc.btf.c".to_string(), "reloc.btf.o".to_string())]);
}

#[test]
fn object_destinations_are_unique() {
    let mut destinations: Vec<String> = c_bpf_objects()
        .into_iter()
        .chain(c_btf_objects())
        .map(|spec| spec.destination)
        .collect();
    let count = destinations.len();
    destinations.sort();
    destinations.dedup();
    assert_eq!(count, 6);
    assert_eq!(destinations.len(), count);
}

#[test]
fn resolving_fails_only_on_the_byte_order() {
    assert_eq!(
        resolve("pdp", "x86_64"),
        Err(ConfigError::UnsupportedEndian { value: "pdp".to_string() })
    );
    let resolved = resolve("little", "x86_64").unwrap();
    assert_eq!(resolved.triple, "bpfel-unknown-none");
    assert_eq!(resolved.arch_macro, "-D__TARGET_ARCH_x86");
    let other = resolve("little", "mips").unwrap();
    assert_eq!(other.arch_macro, "-D__TARGET_ARCH_mips");
}
