use streamshare::download::{directory, locate, named_directory, place, settle};
use streamshare::header::{filename_bounds, CharClass};
use streamshare::text::chars_of;
use streamshare::{
    plan_probe, resolve_target, suggested_filename, DownloadTarget, FilesystemProbe, PathKind,
    TransferError,
};

fn probe(entries: &[(&str, PathKind)]) -> FilesystemProbe {
    let mut probe = FilesystemProbe::new();
    for (path, kind) in entries {
        probe.record(path.to_string(), *kind);
    }
    probe
}

fn target(path: &str, create_dir: Option<&str>) -> DownloadTarget {
    DownloadTarget { path: path.to_string(), create_dir: create_dir.map(|d| d.to_string()) }
}

/// The file name as the standard library's string functions give it.
fn by_std(header: Option<&str>, file_identifier: &str) -> String {
    header
        .and_then(|value| {
            value.split(';').find_map(|part| {
                let trimmed = part.trim();
                if trimmed.starts_with("filename=") {
                    Some(trimmed.trim_start_matches("filename=").trim_matches('"').to_string())
                } else {
                    None
                }
            })
        })
        .unwrap_or_else(|| format!("{}.unknown", file_identifier))
}

#[test]
fn file_name_is_taken_from_the_header() {
    assert_eq!(
        suggested_filename(Some("attachment; filename=\"report.pdf\""), "f-1"),
        "report.pdf"
    );
    assert_eq!(suggested_filename(Some("attachment; filename=report.pdf"), "f-1"), "report.pdf");
    assert_eq!(suggested_filename(Some("filename=\"a b.txt\""), "f-1"), "a b.txt");
    assert_eq!(
        suggested_filename(Some("inline;filename=\"x.bin\";size=3"), "f-1"),
        "x.bin"
    );
}

#[test]
fn file_name_falls_back_to_the_identifier() {
    assert_eq!(suggested_filename(None, "f-1"), "f-1.unknown");
    assert_eq!(suggested_filename(Some("attachment"), "f-1"), "f-1.unknown");
    assert_eq!(suggested_filename(Some(""), "abc"), "abc.unknown");
    assert_eq!(suggested_filename(Some("attachment; name=\"x\""), ""), ".unknown");
    assert_eq!(
        suggested_filename(Some("attachment; filename*=UTF-8''x.txt"), "f-1"),
        "f-1.unknown"
    );
    assert_eq!(suggested_filename(Some("attachment; FILENAME=\"x\""), "f-1"), "f-1.unknown");
    assert_eq!(suggested_filename(Some("attachment; filename =\"x\""), "f-1"), "f-1.unknown");
}

#[test]
fn file_name_parts_are_trimmed_and_unquoted() {
    assert_eq!(suggested_filename(Some("a ;\t filename=\"x.txt\" \t; b"), "f"), "x.txt");
    assert_eq!(suggested_filename(Some("filename=\"\"x.txt\"\"\""), "f"), "x.txt");
    assert_eq!(suggested_filename(Some("filename=x\"y\".txt"), "f"), "x\"y\".txt");
    assert_eq!(suggested_filename(Some("filename=filename=x.txt"), "f"), "x.txt");
    assert_eq!(suggested_filename(Some("filename=\"filename=x.txt\""), "f"), "filename=x.txt");
    assert_eq!(suggested_filename(Some("filename=\"\""), "f"), "");
    assert_eq!(suggested_filename(Some("filename="), "f"), "");
    assert_eq!(suggested_filename(Some("filename=\" x \""), "f"), " x ");
    assert_eq!(suggested_filename(Some("\u{2003}filename=ü.txt\u{a0}"), "f"), "ü.txt");
    assert_eq!(suggested_filename(Some("filename=a.txt; filename=b.txt"), "f"), "a.txt");
    assert_eq!(suggested_filename(Some("x=filename=a; filename=b.txt"), "f"), "b.txt");
    assert_eq!(suggested_filename(Some("filename=\"a;b.txt\""), "f"), "a");
}

#[test]
fn file_name_agrees_with_the_standard_string_functions() {
    let pieces = [
        "", " ", "\t", ";", "\"", "filename=", "filename", "=", "a", "x.txt", "\u{2009}",
        "attachment", "é",
    ];
    let mut count = 0;
    for a in pieces {
        for b in pieces {
            for c in pieces {
                for d in pieces {
                    let header = format!("{}{}{}{}", a, b, c, d);
                    assert_eq!(
                        suggested_filename(Some(&header), "id"),
                        by_std(Some(&header), "id"),
                        "{:?}",
                        header
                    );
                    count += 1;
                }
            }
        }
    }
    assert_eq!(count, 13 * 13 * 13 * 13);
    assert_eq!(suggested_filename(None, "id"), by_std(None, "id"));
}

#[test]
fn bounds_of_the_file_name_lie_within_the_header() {
    let header: Vec<char> = "attachment; filename=\"report.pdf\"".chars().collect();
    assert_eq!(filename_bounds(&header), Some((22, 32)));
    let header: Vec<char> = "attachment".chars().collect();
    assert_eq!(filename_bounds(&header), None);
    assert_eq!(filename_bounds(&[]), None);
}

#[test]
fn whitespace_is_what_unicode_says() {
    let mut spaces = 0;
    for code in 0..=0x10FFFFu32 {
        if let Some(c) = char::from_u32(code) {
            assert_eq!(CharClass::Whitespace.contains(c), c.is_whitespace(), "U+{:04X}", code);
            assert_eq!(CharClass::Quote.contains(c), c == '"');
            if c.is_whitespace() {
                spaces += 1;
            }
        }
    }
    assert_eq!(spaces, 25);
}

#[test]
fn text_helpers_read_characters() {
    assert_eq!(chars_of("aé;"), vec!['a', 'é', ';']);
    assert!(chars_of("").is_empty());
}

#[test]
fn empty_destination_resolves_to_the_suggested_name() {
    let nothing = FilesystemProbe::new();
    assert_eq!(
        resolve_target("report.pdf", "", false, &nothing),
        Ok(target("report.pdf", None))
    );
    assert_eq!(resolve_target("report.pdf", "", true, &nothing), Ok(target("report.pdf", None)));
}

#[test]
fn directory_destination_resolves_to_the_name_inside_it() {
    let seen = probe(&[("/tmp/downloads", PathKind::Directory)]);
    assert_eq!(
        resolve_target("report.pdf", "/tmp/downloads", false, &seen),
        Ok(target("/tmp/downloads/report.pdf", None))
    );
    let seen = probe(&[("downloads/", PathKind::Directory), ("downloads", PathKind::Directory)]);
    assert_eq!(
        resolve_target("report.pdf", "downloads/", false, &seen),
        Ok(target("downloads/report.pdf", None))
    );
}

#[test]
fn existing_file_is_not_replaced_unasked() {
    let seen = probe(&[("/tmp/out.bin", PathKind::File), ("/tmp", PathKind::Directory)]);
    assert_eq!(
        resolve_target("report.pdf", "/tmp/out.bin", false, &seen),
        Err(TransferError::AlreadyExists("/tmp/out.bin".to_string()))
    );
    assert_eq!(
        resolve_target("report.pdf", "/tmp/out.bin", true, &seen),
        Ok(target("/tmp/out.bin", None))
    );
}

#[test]
fn existing_suggested_name_is_not_replaced_unasked() {
    let seen = probe(&[("report.pdf", PathKind::File)]);
    assert_eq!(
        resolve_target("report.pdf", "", false, &seen),
        Err(TransferError::AlreadyExists("report.pdf".to_string()))
    );
    assert_eq!(resolve_target("report.pdf", "", true, &seen), Ok(target("report.pdf", None)));
    let seen = probe(&[
        ("/tmp/downloads", PathKind::Directory),
        ("/tmp/downloads/report.pdf", PathKind::File),
    ]);
    assert_eq!(
        resolve_target("report.pdf", "/tmp/downloads", false, &seen),
        Err(TransferError::AlreadyExists("/tmp/downloads/report.pdf".to_string()))
    );
    assert_eq!(
        resolve_target("report.pdf", "/tmp/downloads", true, &seen),
        Ok(target("/tmp/downloads/report.pdf", None))
    );
}

#[test]
fn destination_without_its_directory_is_parent_missing() {
    let nothing = FilesystemProbe::new();
    assert_eq!(
        resolve_target("report.pdf", "/no/such/dir/out.bin", false, &nothing),
        Err(TransferError::ParentMissing("/no/such/dir".to_string()))
    );
    assert_eq!(
        resolve_target("report.pdf", "/no/such/dir/out.bin", true, &nothing),
        Err(TransferError::ParentMissing("/no/such/dir".to_string()))
    );
    // A file where the directory should be is no better.
    let seen = probe(&[("/tmp/file", PathKind::File)]);
    assert_eq!(
        resolve_target("report.pdf", "/tmp/file/out.bin", false, &seen),
        Err(TransferError::ParentMissing("/tmp/file".to_string()))
    );
}

#[test]
fn new_file_in_an_existing_directory_is_taken_as_given() {
    let seen = probe(&[("/tmp", PathKind::Directory)]);
    assert_eq!(
        resolve_target("report.pdf", "/tmp/out.bin", false, &seen),
        Ok(target("/tmp/out.bin", None))
    );
}

#[test]
fn bare_name_is_taken_as_given() {
    let nothing = FilesystemProbe::new();
    assert_eq!(resolve_target("report.pdf", "out.bin", false, &nothing), Ok(target("out.bin", None)));
}

#[test]
fn destination_that_is_neither_file_nor_directory_is_invalid() {
    let seen = probe(&[("/dev/null", PathKind::Other), ("/dev", PathKind::Directory)]);
    assert_eq!(
        resolve_target("report.pdf", "/dev/null", false, &seen),
        Err(TransferError::InvalidDestination("/dev/null".to_string()))
    );
    assert_eq!(
        resolve_target("report.pdf", "/dev/null", true, &seen),
        Err(TransferError::InvalidDestination("/dev/null".to_string()))
    );
}

#[test]
fn missing_directory_of_the_target_is_named_for_creation() {
    let seen = probe(&[("/tmp/downloads", PathKind::Directory)]);
    assert_eq!(
        resolve_target("2024/report.pdf", "/tmp/downloads", false, &seen),
        Ok(target("/tmp/downloads/2024/report.pdf", Some("/tmp/downloads/2024")))
    );
    let nothing = FilesystemProbe::new();
    assert_eq!(
        resolve_target("a/b.txt", "", false, &nothing),
        Ok(target("a/b.txt", Some("a")))
    );
    let seen = probe(&[("a", PathKind::Directory)]);
    assert_eq!(resolve_target("a/b.txt", "", false, &seen), Ok(target("a/b.txt", None)));
}

#[test]
fn pieces_of_the_resolution_decide_by_kind() {
    let dir = Some("/tmp".to_string());
    assert_eq!(
        place("/tmp/x", PathKind::Directory, "/tmp/x/n".to_string(), dir.clone(), PathKind::Directory),
        Ok("/tmp/x/n".to_string())
    );
    assert_eq!(
        place("/tmp/x", PathKind::File, "/tmp/x/n".to_string(), dir.clone(), PathKind::Directory),
        Ok("/tmp/x".to_string())
    );
    assert_eq!(
        place("/tmp/x", PathKind::Other, "/tmp/x/n".to_string(), dir.clone(), PathKind::Directory),
        Err(TransferError::InvalidDestination("/tmp/x".to_string()))
    );
    assert_eq!(
        place("/tmp/x", PathKind::Missing, "/tmp/x/n".to_string(), dir.clone(), PathKind::Directory),
        Ok("/tmp/x".to_string())
    );
    for kind in [PathKind::Missing, PathKind::File, PathKind::Other] {
        assert_eq!(
            place("/tmp/x", PathKind::Missing, "/tmp/x/n".to_string(), dir.clone(), kind),
            Err(TransferError::ParentMissing("/tmp".to_string()))
        );
    }
    assert_eq!(
        place("x", PathKind::Missing, "x/n".to_string(), None, PathKind::Missing),
        Ok("x".to_string())
    );

    for kind in [PathKind::File, PathKind::Directory, PathKind::Other] {
        assert_eq!(
            settle("/tmp/x".to_string(), kind, false, dir.clone(), PathKind::Directory),
            Err(TransferError::AlreadyExists("/tmp/x".to_string()))
        );
        assert_eq!(
            settle("/tmp/x".to_string(), kind, true, dir.clone(), PathKind::Directory),
            Ok(target("/tmp/x", None))
        );
    }
    assert_eq!(
        settle("/tmp/x".to_string(), PathKind::Missing, false, dir.clone(), PathKind::Missing),
        Ok(target("/tmp/x", Some("/tmp")))
    );
    assert_eq!(
        settle("x".to_string(), PathKind::Missing, false, None, PathKind::Missing),
        Ok(target("x", None))
    );
}

#[test]
fn locate_does_not_ask_whether_the_path_is_taken() {
    let seen = probe(&[("/tmp/out.bin", PathKind::File)]);
    assert_eq!(locate("report.pdf", "/tmp/out.bin", &seen), Ok("/tmp/out.bin".to_string()));
    assert_eq!(locate("report.pdf", "", &seen), Ok("report.pdf".to_string()));
}

#[test]
fn directory_of_a_path_is_its_parent_unless_empty() {
    assert_eq!(directory("/tmp/downloads/report.pdf"), Some("/tmp/downloads".to_string()));
    assert_eq!(directory("downloads/report.pdf"), Some("downloads".to_string()));
    assert_eq!(directory("/report.pdf"), Some("/".to_string()));
    assert_eq!(directory("report.pdf"), None);
    assert_eq!(directory("/"), None);
    assert_eq!(directory(""), None);
    assert_eq!(named_directory(Some(String::new())), None);
    assert_eq!(named_directory(Some("a".to_string())), Some("a".to_string()));
    assert_eq!(named_directory(None), None);
}

#[test]
fn probe_keeps_the_latest_record() {
    let mut seen = FilesystemProbe::new();
    assert_eq!(seen.len(), 0);
    assert_eq!(seen.kind_of("/tmp"), PathKind::Missing);
    seen.record("/tmp".to_string(), PathKind::File);
    seen.record("/var".to_string(), PathKind::Other);
    seen.record("/tmp".to_string(), PathKind::Directory);
    assert_eq!(seen.len(), 3);
    assert_eq!(seen.kind_of("/tmp"), PathKind::Directory);
    assert_eq!(seen.kind_of("/var"), PathKind::Other);
    assert_eq!(seen.kind_of("/tmp/"), PathKind::Missing);
    assert_eq!(seen.kind_of(""), PathKind::Missing);
}

#[test]
fn plan_lists_the_paths_that_decide() {
    let plan = plan_probe("report.pdf", "");
    assert_eq!(plan.destination, "");
    assert_eq!(plan.paths, vec!["report.pdf".to_string()]);

    let plan = plan_probe("sub/report.pdf", "");
    assert_eq!(plan.paths, vec!["sub/report.pdf".to_string(), "sub".to_string()]);

    let plan = plan_probe("report.pdf", "/tmp/downloads");
    assert_eq!(plan.destination, "/tmp/downloads");
    assert_eq!(
        plan.paths,
        vec![
            "/tmp/downloads".to_string(),
            "/tmp".to_string(),
            "/tmp/downloads/report.pdf".to_string(),
            "/tmp/downloads".to_string(),
        ]
    );

    let plan = plan_probe("report.pdf", "out.bin");
    assert_eq!(
        plan.paths,
        vec!["out.bin".to_string(), "out.bin/report.pdf".to_string(), "out.bin".to_string()]
    );
}

#[test]
fn plan_expands_only_a_leading_tilde() {
    assert_eq!(plan_probe("n", "/tmp/~/x").destination, "/tmp/~/x");
    assert_eq!(plan_probe("n", "a~").destination, "a~");
    assert_eq!(plan_probe("n", "~someone/x").destination, "~someone/x");
    let expanded = plan_probe("n", "~/downloads/x.bin").destination;
    assert!(expanded.ends_with("/downloads/x.bin"));
    let expanded = plan_probe("n", "~").destination;
    assert!(!expanded.is_empty());
}

#[test]
fn plan_expands_the_tilde_as_the_shell_does() {
    for path in ["~", "~/", "~/x", "~/a/b.bin", "~\\x", "~user", "~user/x", "x/~", "~~", "", "/~"] {
        assert_eq!(plan_probe("n", path).destination, shellexpand::tilde(path).into_owned());
    }
}

#[test]
fn resolution_reads_nothing_but_the_planned_paths() {
    let plan = plan_probe("report.pdf", "/tmp/downloads");
    let mut seen = FilesystemProbe::new();
    for path in &plan.paths {
        let kind = if path == "/tmp/downloads" || path == "/tmp" {
            PathKind::Directory
        } else {
            PathKind::Missing
        };
        seen.record(path.clone(), kind);
    }
    let mut more = probe(&[("/elsewhere", PathKind::File), ("report.pdf", PathKind::File)]);
    for path in &plan.paths {
        more.record(path.clone(), seen.kind_of(path));
    }
    assert_eq!(
        resolve_target("report.pdf", &plan.destination, false, &seen),
        resolve_target("report.pdf", &plan.destination, false, &more)
    );
    assert_eq!(
        resolve_target("report.pdf", &plan.destination, false, &seen),
        Ok(target("/tmp/downloads/report.pdf", None))
    );
}
