use nvm_desktop::migrate::{
    conclude, default_executables, get_schema_version, is_executable_name, prepare,
    save_schema_version, update_schema, update_schema_from_basic, update_schema_to_last, FileOp, MigrationStep,
    Platform, CURRENT_MIGRATION_VERSION,
};

fn copy(source: &str, target: &str) -> FileOp {
    FileOp::Copy { source: source.to_string(), target: target.to_string() }
}

fn link(target: &str, name: &str) -> FileOp {
    FileOp::Link { target: target.to_string(), name: name.to_string() }
}

fn listing(names: &[&str]) -> Vec<String> {
    names.iter().map(|name| name.to_string()).collect()
}

#[test]
fn current_version_is_nineteen() {
    assert_eq!(CURRENT_MIGRATION_VERSION, 19);
}

#[test]
fn marker_with_letters_is_version_zero() {
    assert_eq!(get_schema_version(Some("abc")), 0);
}

#[test]
fn empty_marker_is_version_zero() {
    assert_eq!(get_schema_version(Some("")), 0);
}

#[test]
fn absent_marker_is_version_zero() {
    assert_eq!(get_schema_version(None), 0);
}

#[test]
fn marker_with_a_number_is_that_version() {
    assert_eq!(get_schema_version(Some("19")), 19);
    assert_eq!(get_schema_version(Some("0")), 0);
    assert_eq!(get_schema_version(Some("7")), 7);
    assert_eq!(get_schema_version(Some("0019")), 19);
}

#[test]
fn marker_with_a_sign() {
    assert_eq!(get_schema_version(Some("-5")), -5);
    assert_eq!(get_schema_version(Some("+7")), 7);
    assert_eq!(get_schema_version(Some("-0")), 0);
    assert_eq!(get_schema_version(Some("-")), 0);
    assert_eq!(get_schema_version(Some("+")), 0);
    assert_eq!(get_schema_version(Some("--1")), 0);
    assert_eq!(get_schema_version(Some("+-1")), 0);
    assert_eq!(get_schema_version(Some("1-")), 0);
}

#[test]
fn marker_at_the_limits_of_the_type() {
    assert_eq!(get_schema_version(Some("32767")), 32767);
    assert_eq!(get_schema_version(Some("32768")), 0);
    assert_eq!(get_schema_version(Some("-32768")), -32768);
    assert_eq!(get_schema_version(Some("-32769")), 0);
    assert_eq!(get_schema_version(Some("99999999999999999999999")), 0);
    assert_eq!(get_schema_version(Some("000000000000000000000032767")), 32767);
}

#[test]
fn marker_with_anything_but_digits_is_version_zero() {
    assert_eq!(get_schema_version(Some(" 19")), 0);
    assert_eq!(get_schema_version(Some("19\n")), 0);
    assert_eq!(get_schema_version(Some("1 9")), 0);
    assert_eq!(get_schema_version(Some("19.0")), 0);
    assert_eq!(get_schema_version(Some("0x13")), 0);
    assert_eq!(get_schema_version(Some("１９")), 0);
    assert_eq!(get_schema_version(Some("19é")), 0);
    assert_eq!(get_schema_version(Some("é")), 0);
}

#[test]
fn marker_reads_as_the_standard_parser_reads_it() {
    let mut value: i32 = -33000;
    while value <= 33000 {
        let text = value.to_string();
        let expected = text.parse::<i16>().unwrap_or(0);
        assert_eq!(get_schema_version(Some(&text)), expected);
        let signed = format!("+{}", text);
        assert_eq!(get_schema_version(Some(&signed)), signed.parse::<i16>().unwrap_or(0));
        value += 1;
    }
}

#[test]
fn odd_markers_read_as_the_standard_parser_reads_them() {
    let samples = [
        "", " ", "+", "-", "+0", "-0", "00", "1a", "a1", "12 ", "\t12", "+-3", "-+3", "3-", "١٢",
        "1_000", "1e3", "32767", "32768", "-32768", "-32769", "65536", "-65536", "000",
    ];
    for text in samples {
        assert_eq!(get_schema_version(Some(text)), text.parse::<i16>().unwrap_or(0));
    }
}

#[test]
fn version_zero_owes_both_steps() {
    assert_eq!(update_schema(0), vec![MigrationStep::FromBasic, MigrationStep::ToLast]);
}

#[test]
fn version_behind_owes_the_refresh_only() {
    assert_eq!(update_schema(1), vec![MigrationStep::ToLast]);
    assert_eq!(update_schema(18), vec![MigrationStep::ToLast]);
    assert_eq!(update_schema(-1), vec![MigrationStep::ToLast]);
    assert_eq!(update_schema(i16::MIN), vec![MigrationStep::ToLast]);
}

#[test]
fn version_current_or_beyond_owes_nothing() {
    assert!(update_schema(19).is_empty());
    assert!(update_schema(20).is_empty());
    assert!(update_schema(i16::MAX).is_empty());
}

#[test]
fn intercepted_names() {
    assert_eq!(default_executables(), listing(&["node", "npm", "npx", "corepack"]));
}

#[test]
fn first_operations_on_unix() {
    assert_eq!(prepare(Platform::Unix), vec![FileOp::CreateBinDir, copy("nvmd", "nvmd")]);
}

#[test]
fn first_operations_on_windows() {
    assert_eq!(
        prepare(Platform::Windows),
        vec![FileOp::CreateBinDir, copy("nvmd.exe", "nvmd.exe")]
    );
}

#[test]
fn fresh_install_on_unix() {
    assert_eq!(
        update_schema_from_basic(Platform::Unix),
        vec![
            FileOp::CreateBinDir,
            copy("nvmd", "nvmd"),
            link("nvmd", "node"),
            link("nvmd", "npm"),
            link("nvmd", "npx"),
            link("nvmd", "corepack"),
        ]
    );
}

#[test]
fn fresh_install_on_windows() {
    assert_eq!(
        update_schema_from_basic(Platform::Windows),
        vec![
            FileOp::CreateBinDir,
            copy("nvmd.exe", "nvmd.exe"),
            copy("nvmd.exe", "node.exe"),
            copy("nvmd.exe", "npm.exe"),
            copy("temp.cmd", "npm.cmd"),
            copy("nvmd.exe", "npx.exe"),
            copy("temp.cmd", "npx.cmd"),
            copy("nvmd.exe", "corepack.exe"),
            copy("temp.cmd", "corepack.cmd"),
        ]
    );
}

#[test]
fn fresh_install_does_not_write_the_marker() {
    for platform in [Platform::Unix, Platform::Windows] {
        for op in update_schema_from_basic(platform) {
            assert!(!matches!(op, FileOp::SaveVersion { .. }));
        }
    }
}

#[test]
fn refresh_on_unix_ignores_the_listing() {
    let expected =
        vec![FileOp::CreateBinDir, copy("nvmd", "nvmd"), FileOp::SaveVersion { version: 19 }];
    assert_eq!(update_schema_to_last(Platform::Unix, &Vec::new()), expected);
    assert_eq!(update_schema_to_last(Platform::Unix, &listing(&["yarn.exe", "node"])), expected);
}

#[test]
fn refresh_on_windows_copies_over_every_executable() {
    let entries = listing(&["node.exe", "npm.cmd", "yarn.exe", "notes.txt", "nvmd.exe", "pnpm.EXE"]);
    assert_eq!(
        update_schema_to_last(Platform::Windows, &entries),
        vec![
            FileOp::CreateBinDir,
            copy("nvmd.exe", "nvmd.exe"),
            copy("nvmd.exe", "node.exe"),
            copy("nvmd.exe", "yarn.exe"),
            copy("nvmd.exe", "nvmd.exe"),
            FileOp::SaveVersion { version: 19 },
        ]
    );
}

#[test]
fn refresh_on_windows_of_an_empty_directory() {
    assert_eq!(
        update_schema_to_last(Platform::Windows, &Vec::new()),
        vec![
            FileOp::CreateBinDir,
            copy("nvmd.exe", "nvmd.exe"),
            FileOp::SaveVersion { version: 19 },
        ]
    );
}

#[test]
fn refresh_writes_the_marker_last() {
    let entries = listing(&["a.exe", "b.exe"]);
    for platform in [Platform::Unix, Platform::Windows] {
        let ops = update_schema_to_last(platform, &entries);
        let last = ops.len() - 1;
        assert_eq!(ops[last], FileOp::SaveVersion { version: CURRENT_MIGRATION_VERSION });
        for op in &ops[..last] {
            assert!(!matches!(op, FileOp::SaveVersion { .. }));
        }
    }
}

#[test]
fn refresh_is_first_and_last_operations() {
    let entries = listing(&["a.exe", "b", "c.exe"]);
    for platform in [Platform::Unix, Platform::Windows] {
        let mut expected = prepare(platform);
        expected.extend(conclude(platform, &entries));
        assert_eq!(update_schema_to_last(platform, &entries), expected);
    }
}

#[test]
fn last_operations_on_unix() {
    assert_eq!(
        conclude(Platform::Unix, &listing(&["a.exe"])),
        vec![FileOp::SaveVersion { version: 19 }]
    );
}

#[test]
fn last_operations_on_windows() {
    assert_eq!(
        conclude(Platform::Windows, &listing(&["a.exe", "b.cmd"])),
        vec![copy("nvmd.exe", "a.exe"), FileOp::SaveVersion { version: 19 }]
    );
}

#[test]
fn executable_names() {
    assert!(is_executable_name("node.exe"));
    assert!(is_executable_name("a.exe"));
    assert!(is_executable_name("..exe"));
    assert!(is_executable_name("a.b.exe"));
    assert!(is_executable_name("é.exe"));
    assert!(!is_executable_name(".exe"));
    assert!(!is_executable_name("exe"));
    assert!(!is_executable_name(""));
    assert!(!is_executable_name("node"));
    assert!(!is_executable_name("node.EXE"));
    assert!(!is_executable_name("node.exe "));
    assert!(!is_executable_name("node.exe.bak"));
    assert!(!is_executable_name("nodeexe"));
    assert!(!is_executable_name("node.cmd"));
}

#[test]
fn executable_names_as_the_standard_library_sees_them() {
    let samples = [
        "node.exe", "a.exe", "..exe", ".exe", "exe", "node", "x.y.exe", "x.exe.y", "é.exe",
        "a.EXE", "...exe", "a..exe", ".a.exe", "nvmd.exe", "npm.cmd",
    ];
    for name in samples {
        let path = std::path::Path::new("bin").join(name);
        let expected = path.extension().and_then(|ext| ext.to_str()) == Some("exe");
        assert_eq!(is_executable_name(name), expected);
    }
}

#[test]
fn marker_text_of_some_versions() {
    assert_eq!(save_schema_version(19), "19");
    assert_eq!(save_schema_version(0), "0");
    assert_eq!(save_schema_version(7), "7");
    assert_eq!(save_schema_version(-5), "-5");
    assert_eq!(save_schema_version(100), "100");
    assert_eq!(save_schema_version(i16::MAX), "32767");
    assert_eq!(save_schema_version(i16::MIN), "-32768");
}

#[test]
fn marker_text_is_the_standard_decimal_text() {
    let mut version = i16::MIN;
    loop {
        assert_eq!(save_schema_version(version), version.to_string());
        if version == i16::MAX {
            break;
        }
        version += 1;
    }
}

#[test]
fn marker_text_reads_back_as_the_version_written() {
    let mut version = i16::MIN;
    loop {
        let text = save_schema_version(version);
        assert_eq!(get_schema_version(Some(&text)), version);
        if version == i16::MAX {
            break;
        }
        version += 1;
    }
}
