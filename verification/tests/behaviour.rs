use taste::rules::glob_match;
use taste::{
    all_languages, detect_buffer, detect_file, detect_language, detect_path, detect_path_name,
    detect_token, get_shebang_executable, language_by_token, path_parts, path_rules,
    BlockComment, Color, CommentStyle, Confidence, DetectionSource, Icon, Language, PathRule,
};

#[test]
fn normalization_collapses_and_converts_separators() {
    let p = path_parts("a//b\\\\c/d.TXT");
    assert_eq!(p.normalized.as_deref(), Some("a/b/c/d.TXT"));
    assert_eq!(p.filename.as_deref(), Some("d.TXT"));
    assert_eq!(p.extension.as_deref(), Some("txt"));
}

#[test]
fn normalization_is_idempotent_on_examples() {
    for raw in ["a//b", "\\\\server\\share\\x.rs", "/", "", "a/b/", "//x//y//"] {
        let once = path_parts(raw).normalized.unwrap();
        let twice = path_parts(&once).normalized.unwrap();
        assert_eq!(once, twice, "path {raw:?}");
        assert!(!once.contains('\\'));
        assert!(!once.contains("//"));
    }
}

#[test]
fn dotfiles_and_trailing_separators() {
    let p = path_parts(".bashrc");
    assert_eq!(p.filename.as_deref(), Some(".bashrc"));
    assert!(p.extension.is_none());
    let d = detect_path(".bashrc").unwrap();
    assert_eq!(d.language, Language::SHELL);
    assert_eq!(d.source, DetectionSource::ExactFilename);

    let p = path_parts("dir/");
    assert!(p.filename.is_none());
    assert!(p.extension.is_none());

    let p = path_parts("archive.");
    assert_eq!(p.extension.as_deref(), Some(""));
    assert!(detect_path("archive.").is_none());

    let p = path_parts("a.b.PY");
    assert_eq!(p.extension.as_deref(), Some("py"));
}

#[test]
fn confidence_follows_source() {
    let exact = detect_path("Makefile").unwrap();
    assert_eq!(exact.confidence, Confidence::Exact);
    let special_exact = detect_path("etc/crontab").unwrap();
    assert_eq!(special_exact.source, DetectionSource::SpecialPath);
    assert_eq!(special_exact.confidence, Confidence::Exact);
    let special_fuzzy = detect_path("repo/.git/config").unwrap();
    assert_eq!(special_fuzzy.source, DetectionSource::SpecialPath);
    assert_eq!(special_fuzzy.confidence, Confidence::High);
    let ext = detect_path("x.go").unwrap();
    assert_eq!(ext.confidence, Confidence::Medium);
    let shebang = detect_buffer(None, b"#!/bin/sh\n").unwrap();
    assert_eq!(shebang.source, DetectionSource::Shebang);
    assert_eq!(shebang.confidence, Confidence::High);
    let token = detect_token("golang").unwrap();
    assert_eq!(token.language, Language::GO);
    assert_eq!(token.source, DetectionSource::Token);
    assert_eq!(token.confidence, Confidence::High);
    assert!(token.alternatives.is_empty());
    assert!(Confidence::Low < Confidence::Medium && Confidence::High < Confidence::Exact);
}

#[test]
fn path_outranks_shebang_outranks_extension() {
    let d = detect_buffer(Some("Makefile"), b"#!/bin/bash\n").unwrap();
    assert_eq!(d.language, Language::MAKEFILE);
    assert_eq!(d.source, DetectionSource::ExactFilename);

    let d = detect_buffer(Some("/x/.git/config"), b"#!/usr/bin/env python\n").unwrap();
    assert_eq!(d.language, Language::GIT_CONFIG);

    let d = detect_buffer(Some("tool.py"), b"#!/bin/bash\n").unwrap();
    assert_eq!(d.language, Language::SHELL);
    assert_eq!(d.source, DetectionSource::Shebang);

    // An unknown interpreter leaves the decision to the extension.
    let d = detect_buffer(Some("tool.py"), b"#!/usr/bin/unknown\n").unwrap();
    assert_eq!(d.language, Language::PYTHON);
    assert_eq!(d.source, DetectionSource::Extension);

    assert!(detect_buffer(None::<&str>, b"plain text\n").is_none());
}

#[test]
fn file_detection_agrees_with_buffer_detection() {
    let cases: [(&str, &[u8]); 4] = [
        ("run", b"#!/usr/bin/env perl\n"),
        ("a.h", b""),
        ("Dockerfile", b"#!/bin/sh\n"),
        ("noext", b"no shebang"),
    ];
    for (path, head) in cases {
        assert_eq!(detect_file(path, head), detect_buffer(Some(path), head), "path {path}");
    }
    assert_eq!(detect_file("run", b"#!/usr/bin/env perl\n").unwrap().language, Language::PERL);
}

#[test]
fn path_name_detection_stops_before_content() {
    assert_eq!(detect_path_name("Makefile").unwrap().language, Language::MAKEFILE);
    assert_eq!(detect_path_name("etc/crontab").unwrap().language, Language::CRONTAB);
    assert!(detect_path_name("main.rs").is_none());
}

#[test]
fn extension_and_token_lookup_ignore_case() {
    let h = detect_path("X.H").unwrap();
    assert_eq!(h.language, Language::C);
    assert_eq!(h.alternatives, &[Language::CPP, Language::OBJECTIVE_C]);
    assert_eq!(detect_path("Q.Tsx").unwrap().language, Language::TYPESCRIPT);
    assert_eq!(detect_token("PY").unwrap().language, Language::PYTHON);
    assert_eq!(detect_token("pY").unwrap().language, Language::PYTHON);
    assert_eq!(language_by_token("C++"), Some(Language::CPP));
    assert_eq!(language_by_token("nothing"), None);
}

#[test]
fn detect_language_is_detect_path_language() {
    for p in ["main.rs", "Makefile", "noext", "etc/crontab"] {
        assert_eq!(detect_language(p), detect_path(p).map(|d| d.language));
    }
}

#[test]
fn shebang_executables() {
    assert_eq!(get_shebang_executable("#!/bin/bash"), Some("bash"));
    assert_eq!(get_shebang_executable("#!/usr/bin/env python"), Some("python"));
    assert_eq!(
        get_shebang_executable("#!/usr/bin/env -S VAR=1 python3 -u"),
        Some("python3")
    );
    assert_eq!(get_shebang_executable("#! /bin/sh -e"), Some("sh"));
    assert_eq!(get_shebang_executable("#!\tperl\t-w"), Some("perl"));
    assert_eq!(get_shebang_executable("#!/usr/bin/"), Some(""));
    assert_eq!(get_shebang_executable("#!/usr/bin/env"), None);
    assert_eq!(get_shebang_executable("#!/usr/bin/env -i"), None);
    assert_eq!(get_shebang_executable("#!"), None);
    assert_eq!(get_shebang_executable("# !/bin/sh"), None);
    assert_eq!(get_shebang_executable("echo hi"), None);
}

#[test]
fn shebang_needs_a_valid_first_line() {
    // Invalid UTF-8 in the first line hides the shebang.
    assert!(detect_buffer(None::<&str>, b"#!/bin/bash \xff\n").is_none());
    // Invalid bytes after the first line do not matter.
    let d = detect_buffer(None::<&str>, b"#!/bin/bash\n\xff").unwrap();
    assert_eq!(d.language, Language::SHELL);
    // Non-ASCII text on the line is fine.
    let d = detect_buffer(None::<&str>, "#!/usr/bin/env python3 # caf\u{e9}\n".as_bytes()).unwrap();
    assert_eq!(d.language, Language::PYTHON);
}

#[test]
fn glob_edge_cases() {
    assert!(glob_match("src/main.rs", "src/main.rs"));
    assert!(!glob_match("src/main.rs", "src/main.rs2"));
    assert!(glob_match("*", "anything"));
    assert!(!glob_match("*", "a/b"));
    assert!(glob_match("**", "a/b/c"));
    assert!(glob_match("**", ""));
    assert!(glob_match("nginx/**/x.conf", "nginx/x.conf"));
    assert!(glob_match("a/*/c", "a/b/c"));
    assert!(!glob_match("a/*/c", "a/b/d/c"));
    assert!(glob_match("a/**/c", "a/b/d/c"));
    assert!(!glob_match("", "a"));
    assert!(glob_match("", ""));
}

#[test]
fn registry_and_metadata() {
    assert_eq!(all_languages().len(), 45);
    for (i, info) in all_languages().iter().enumerate() {
        assert_eq!(info.language.id().as_u16() as usize, i);
        assert_eq!(info.language.name(), info.canonical_name);
        assert_eq!(info.language.info().display_name, info.language.display_name());
        assert_eq!(info.language.icon(), info.icon);
        assert_eq!(info.language.color(), info.color);
        assert_eq!(info.language.category(), info.category);
    }
    assert_eq!(Language::from_name("rust"), Some(Language::RUST));
    assert_eq!(Language::from_name("Rust"), None);
    assert_eq!(Language::GO.id().as_str(), "go");
}

#[test]
fn small_constructors() {
    let c = Color::rgb(1, 2, 3);
    assert_eq!((c.r, c.g, c.b), (1, 2, 3));
    assert_eq!(Icon::new('x'), Icon { glyph: 'x', color: None });
    assert_eq!(Icon::tinted('x', c).color, Some(c));
    let b = BlockComment::new("(*", "*)");
    assert_eq!((b.start, b.end), ("(*", "*)"));
    let style = CommentStyle::new(&[";", "#"], &[]);
    assert_eq!(style.primary_line(), Some(";"));
    assert_eq!(CommentStyle::none().primary_line(), None);
    assert!(CommentStyle::none().block.is_empty());
}

#[test]
fn path_rules_table() {
    let rules = path_rules();
    assert_eq!(rules.len(), 4);
    assert_eq!(rules[0].language(), Language::CRONTAB);
    assert!(matches!(rules[3], PathRule::Glob { pattern: "nginx/**/*.conf", .. }));
    assert_eq!(rules[3].language(), Language::NGINX);
}
