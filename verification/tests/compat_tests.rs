use fpm::compat::convert::{convert, to_manifest_toml, ForeignDep, ForeignFormat, ForeignPackage};
use fpm::compat::deb::{build_package, deb_arch, parse_control_bytes, parse_deb_deps};
use fpm::compat::error::CompatError;
use std::io::Write;
use fpm::compat::{apk, arch, archive, rpm};

#[test]
fn format_detect_deb() {
    let p = "htop_3.2.2-1_amd64.deb";
    assert_eq!(ForeignFormat::detect(p), Some(ForeignFormat::Deb));
}

#[test]
fn format_detect_rpm() {
    let p = "htop-3.2.2-1.x86_64.rpm";
    assert_eq!(ForeignFormat::detect(p), Some(ForeignFormat::Rpm));
}

#[test]
fn format_detect_apk() {
    let p = "htop-3.2.2-r0.apk";
    assert_eq!(ForeignFormat::detect(p), Some(ForeignFormat::Apk));
}

#[test]
fn format_detect_arch() {
    let p = "htop-3.2.2-1-x86_64.pkg.tar.zst";
    assert_eq!(ForeignFormat::detect(p), Some(ForeignFormat::Arch));
}

#[test]
fn format_detect_unknown() {
    let p = "somefile.tar.gz";
    assert_eq!(ForeignFormat::detect(p), None);
}

#[test]
fn deb_arch_mapping() {
    let control = b"Package: test\nVersion: 1.0\nArchitecture: amd64\nDescription: test pkg\n";
    let fields = parse_control_bytes(control).unwrap();
    assert_eq!(fields.get("package").as_deref(), Some("test"));
    assert_eq!(fields.get("architecture").as_deref(), Some("amd64"));
}

#[test]
fn apk_pkginfo_roundtrip() {
    let pkginfo = "pkgname = zlib\npkgver = 1.3.1-r0\narch = x86_64\npkgdesc = Compression library\nurl = https://zlib.net\nlicense = Zlib\nsize = 102400\ndepend = libc\n";
    let pkg = apk::parse_pkginfo(pkginfo).unwrap();
    assert_eq!(pkg.name, "zlib");
    assert_eq!(pkg.version, "1.3.1-r0");
    assert_eq!(pkg.arch, "x86_64");
    assert_eq!(pkg.depends.len(), 1);
    assert_eq!(pkg.depends[0].name, "libc");
}

#[test]
fn arch_pkginfo_roundtrip() {
    let pkginfo = "pkgname = htop\npkgver = 3.3.0-1\narch = x86_64\npkgdesc = Interactive process viewer\nurl = https://htop.dev\nlicense = GPL-2.0\nsize = 204800\ndepend = ncurses\nconflict = htop-git\nprovides = process-viewer\n";
    let pkg = arch::parse_pkginfo(pkginfo).unwrap();
    assert_eq!(pkg.name, "htop");
    assert_eq!(pkg.conflicts, vec!["htop-git"]);
    assert_eq!(pkg.provides, vec!["process-viewer"]);
}

#[test]
fn manifest_toml_contains_package_section() {
    let pkg = ForeignPackage {
        format:       "deb".into(),
        name:         "curl".into(),
        version:      "8.0.1".into(),
        release:      "1".into(),
        arch:         "x86_64".into(),
        summary:      "Command line tool for URLs".into(),
        description:  "curl transfers data".into(),
        license:      "curl".into(),
        homepage:     "https://curl.se".into(),
        maintainer:   "pkg@fsociety".into(),
        depends:      vec![],
        conflicts:    vec![],
        provides:     vec![],
        installed_size: 4096,
    };
    let toml = to_manifest_toml(&pkg);
    assert!(toml.contains("[package]"));
    assert!(toml.contains("name        = \"curl\""));
    assert!(toml.contains("origin_format = \"deb\""));
}

// ---------------------------------------------------------------- further cases

fn sample_package(depends: Vec<ForeignDep>) -> ForeignPackage {
    ForeignPackage {
        format: "apk".into(),
        name: "zlib".into(),
        version: "1.3".into(),
        release: "1".into(),
        arch: "x86_64".into(),
        summary: "s".into(),
        description: "d".into(),
        license: "Zlib".into(),
        homepage: "h".into(),
        maintainer: "m".into(),
        depends,
        conflicts: vec![],
        provides: vec![],
        installed_size: 0,
    }
}

#[test]
fn manifest_toml_exact_text() {
    let pkg = sample_package(vec![
        ForeignDep { name: "libc".into(), version: None, optional: false },
        ForeignDep { name: "zstd".into(), version: Some("1.5".into()), optional: true },
    ]);
    let expected = "[package]\nname        = \"zlib\"\nversion     = \"1.3\"\nrelease     = \"1\"\narch        = \"x86_64\"\nlicense     = \"Zlib\"\nsummary     = \"s\"\ndescription = \"\"\"\nd\n\"\"\"\nhomepage    = \"h\"\nmaintainer  = \"m\"\n\n[compat]\norigin_format = \"apk\"\n\n[[dependencies]]\nname = \"libc\"\nversion = \"*\"\noptional = false\n\n[[dependencies]]\nname = \"zstd\"\nversion = \"1.5\"\noptional = true\n\n";
    assert_eq!(to_manifest_toml(&pkg), expected);
}

#[test]
fn detect_uses_file_name_only() {
    assert_eq!(ForeignFormat::detect("/var/cache/pkgs.deb/readme"), None);
    assert_eq!(ForeignFormat::detect("/tmp/x/vim-9.1.pkg.tar.xz"), Some(ForeignFormat::Arch));
    assert_eq!(ForeignFormat::detect("/tmp/x/vim-9.1.pkg.tar.gz"), Some(ForeignFormat::Arch));
    assert_eq!(ForeignFormat::detect(".."), None);
}

#[test]
fn convert_unknown_format_reports_extension() {
    let r = convert("notes.txt", Ok(vec![]));
    match r {
        Err(CompatError::UnsupportedFormat(e)) => assert_eq!(e, "txt"),
        _ => panic!("expected an unsupported format"),
    }
    match convert("README", Ok(vec![])) {
        Err(e) => assert_eq!(e.message(), "unsupported format: unknown"),
        Ok(_) => panic!("expected an error"),
    }
}

#[test]
fn convert_reports_read_error_for_known_format() {
    match convert("a.deb", Err("No such file or directory (os error 2)".into())) {
        Err(CompatError::Io(m)) => assert_eq!(m, "No such file or directory (os error 2)"),
        _ => panic!("expected an I/O error"),
    }
}

#[test]
fn deb_control_continuation_and_last_value_wins() {
    let control = b"Package: a\nDescription: short\n more text\n  and more\nPackage: b\nVersion: 2\r\n";
    let f = parse_control_bytes(control).unwrap();
    assert_eq!(f.get("package").as_deref(), Some("b"));
    assert_eq!(f.get("description").as_deref(), Some("short\nmore text\nand more"));
    assert_eq!(f.get("version").as_deref(), Some("2"));
    assert_eq!(f.get("missing"), None);
}

#[test]
fn deb_control_rejects_invalid_utf8() {
    match parse_control_bytes(&[0x50, 0xff, 0x3a]) {
        Err(CompatError::Io(m)) => assert_eq!(m, "stream did not contain valid UTF-8"),
        _ => panic!("expected an I/O error"),
    }
}

#[test]
fn deb_deps_parsing() {
    let deps = parse_deb_deps("libc6 (>= 2.34), libncursesw6 (>= 6), , zlib1g");
    assert_eq!(deps.len(), 3);
    assert_eq!(deps[0].name, "libc6");
    assert_eq!(deps[0].version.as_deref(), Some("2.34"));
    assert_eq!(deps[1].version.as_deref(), Some("6"));
    assert_eq!(deps[2].name, "zlib1g");
    assert_eq!(deps[2].version, None);
}

#[test]
fn deb_arch_names() {
    assert_eq!(deb_arch("amd64"), "x86_64");
    assert_eq!(deb_arch("arm64"), "aarch64");
    assert_eq!(deb_arch("i386"), "i686");
    assert_eq!(deb_arch("all"), "any");
    assert_eq!(deb_arch("riscv64"), "riscv64");
}

#[test]
fn deb_build_package_fields() {
    let control = b"Package: htop\nVersion: 3.2.2-1\nArchitecture: amd64\nInstalled-Size: 400\nDepends: libc6 (>= 2.34)\nConflicts: top, htop-legacy\nDescription: viewer\n interactive\n";
    let f = parse_control_bytes(control).unwrap();
    let p = build_package(&f).unwrap();
    assert_eq!(p.format, "deb");
    assert_eq!(p.arch, "x86_64");
    assert_eq!(p.installed_size, 409600);
    assert_eq!(p.summary, "viewer");
    assert_eq!(p.description, "viewer\ninteractive");
    assert_eq!(p.license, "unknown");
    assert_eq!(p.conflicts, vec!["top", "htop-legacy"]);
    assert_eq!(p.depends.len(), 1);
}

#[test]
fn deb_build_package_missing_version() {
    let f = parse_control_bytes(b"Package: x\n").unwrap();
    match build_package(&f) {
        Err(CompatError::MissingField(m)) => assert_eq!(m, "version"),
        _ => panic!("expected a missing field"),
    }
}

#[test]
fn deb_parse_rejects_non_archive() {
    match fpm::compat::deb::parse(b"not an ar archive") {
        Err(CompatError::Archive(_)) => {}
        _ => panic!("expected an archive error"),
    }
}

#[test]
fn apk_missing_name_and_version() {
    match apk::parse_pkginfo("pkgver = 1\n") {
        Err(e) => assert_eq!(e.message(), "missing required field: pkgname"),
        Ok(_) => panic!("expected an error"),
    }
    match apk::parse_pkginfo("# comment = x\npkgname = a\n") {
        Err(CompatError::MissingField(m)) => assert_eq!(m, "pkgver"),
        _ => panic!("expected a missing field"),
    }
}

#[test]
fn apk_dep_versions_and_arch() {
    let pkg = apk::parse_pkginfo("pkgname = a\npkgver = 1\narch = noarch\ndepend = so:libc>=1.2\nsize = nope\n").unwrap();
    assert_eq!(pkg.arch, "any");
    assert_eq!(pkg.depends[0].name, "so:libc");
    assert_eq!(pkg.depends[0].version.as_deref(), Some("1.2"));
    assert_eq!(pkg.installed_size, 0);
    assert_eq!(apk::apk_arch("aarch64"), "aarch64");
}

#[test]
fn apk_parse_rejects_non_gzip() {
    match apk::parse(b"plain bytes") {
        Err(CompatError::Archive(_)) => {}
        _ => panic!("expected an archive error"),
    }
}

#[test]
fn arch_parse_rejects_xz() {
    match arch::parse("x.pkg.tar.xz", b"") {
        Err(CompatError::UnsupportedFormat(m)) => assert_eq!(m, "xz"),
        _ => panic!("expected an unsupported format"),
    }
}

#[test]
fn rpm_header_conversion() {
    let h = rpm::RpmHeader {
        name: Ok("htop".into()),
        version: Ok("3.2.2".into()),
        release: Ok("1.fc39".into()),
        arch: Ok("noarch".into()),
        summary: Ok("viewer".into()),
        description: Ok("an interactive viewer".into()),
        license: Ok("GPL-2.0".into()),
        url: Err("missing".into()),
        requires: Ok(vec![("ncurses".into(), "6.4".into()), ("libc".into(), String::new())]),
    };
    let p = rpm::from_header(&h).unwrap();
    assert_eq!(p.format, "rpm");
    assert_eq!(p.arch, "any");
    assert_eq!(p.homepage, "");
    assert_eq!(p.depends[0].version.as_deref(), Some("6.4"));
    assert_eq!(p.depends[1].version, None);
    assert_eq!(rpm::rpm_arch("x86_64"), "x86_64");
}

#[test]
fn rpm_header_first_unreadable_field() {
    let h = rpm::RpmHeader {
        name: Ok("a".into()),
        version: Err("no version".into()),
        release: Err("no release".into()),
        arch: Ok("x86_64".into()),
        summary: Ok(String::new()),
        description: Ok(String::new()),
        license: Ok(String::new()),
        url: Ok(String::new()),
        requires: Err("none".into()),
    };
    match rpm::from_header(&h) {
        Err(e) => assert_eq!(e.message(), "rpm parse error: no version"),
        Ok(_) => panic!("expected an error"),
    }
}

#[test]
fn rpm_parse_rejects_garbage() {
    match rpm::parse(b"garbage") {
        Err(CompatError::Rpm(_)) => {}
        _ => panic!("expected an rpm error"),
    }
}

/// One `ar` member header: identifier, size, then the member's bytes.
fn ar_member(id: &str, data: &[u8]) -> Vec<u8> {
    let mut h = format!("{:<16}{:<12}{:<6}{:<6}{:<8}{:<10}`\n", id, 0, 0, 0, 644, data.len()).into_bytes();
    h.extend_from_slice(data);
    if data.len() % 2 == 1 {
        h.push(b'\n');
    }
    h
}

#[test]
fn deb_parse_refuses_name_index_past_table() {
    let mut deb = b"!<arch>\n".to_vec();
    deb.extend(ar_member("debian-binary", b"2.0\n"));
    deb.extend(ar_member("/999", b"xyz"));
    assert!(!archive::ar_archive_supported(&deb));
    match fpm::compat::deb::parse(&deb) {
        Err(CompatError::Archive(m)) => assert_eq!(m, "member header refers outside the name table in .deb"),
        _ => panic!("expected an archive error"),
    }
}

#[test]
fn deb_parse_plain_archive_without_control() {
    let mut deb = b"!<arch>\n".to_vec();
    deb.extend(ar_member("debian-binary", b"2.0\n"));
    deb.extend(ar_member("data.tar.gz", b"abc"));
    assert!(archive::ar_archive_supported(&deb));
    match fpm::compat::deb::parse(&deb) {
        Err(CompatError::Archive(m)) => assert_eq!(m, "control.tar not found in .deb"),
        _ => panic!("expected an archive error"),
    }
}

#[test]
fn rpm_parse_refuses_headers_outside_the_file() {
    let mut f = vec![0xed, 0xab, 0xee, 0xdb, 3, 0, 0, 0, 0, 1];
    f.resize(96, 0);
    // signature header claiming one entry and a 4 GiB store
    f.extend_from_slice(&[0x8e, 0xad, 0xe8, 1, 0, 0, 0, 0, 0, 0, 0, 1, 0xff, 0xff, 0xff, 0xf0]);
    f.extend_from_slice(&[0; 16]);
    assert!(!rpm::rpm_layout_supported(&f));
    match rpm::parse(&f) {
        Err(CompatError::Rpm(m)) => assert_eq!(m, "RPM header reaches outside the file"),
        _ => panic!("expected an rpm error"),
    }
}

#[test]
fn rpm_parse_reads_well_laid_out_headers() {
    let mut f = vec![0xed, 0xab, 0xee, 0xdb, 3, 0, 0, 0, 0, 1];
    f.resize(96, 0);
    let empty_header = [0x8e, 0xad, 0xe8, 1, 0, 0, 0, 0, 0, 0, 0, 0, 0, 0, 0, 0];
    f.extend_from_slice(&empty_header);
    f.extend_from_slice(&empty_header);
    assert!(rpm::rpm_layout_supported(&f));
    match rpm::parse(&f) {
        Err(e) => assert_ne!(e.message(), "RPM header reaches outside the file"),
        Ok(_) => panic!("a header without a name gives no package"),
    }
}

#[test]
fn deb_parse_reads_extended_member_names() {
    // GNU: a name table, then a member named by an index into it.
    let mut deb = b"!<arch>\n".to_vec();
    deb.extend(ar_member("//", b"data.tar.gz-with-a-long-name/\n"));
    deb.extend(ar_member("/0", b"abc"));
    assert!(archive::ar_archive_supported(&deb));
    match fpm::compat::deb::parse(&deb) {
        Err(CompatError::Archive(m)) => assert_eq!(m, "control.tar not found in .deb"),
        _ => panic!("expected an archive error"),
    }
    // BSD: the name follows the header.
    let mut bsd = b"!<arch>\n".to_vec();
    let mut data = b"long-member-name".to_vec();
    data.extend_from_slice(b"xyz");
    bsd.extend(ar_member("#1/16", &data));
    assert!(archive::ar_archive_supported(&bsd));
    match fpm::compat::deb::parse(&bsd) {
        Err(CompatError::Archive(m)) => assert_eq!(m, "control.tar not found in .deb"),
        _ => panic!("expected an archive error"),
    }
}

#[test]
fn rpm_parse_leaves_foreign_files_to_the_reader() {
    let f = vec![0u8; 200];
    assert!(rpm::rpm_layout_supported(&f));
    match rpm::parse(&f) {
        Err(CompatError::Rpm(m)) => assert_ne!(m, "RPM header reaches outside the file"),
        _ => panic!("expected an rpm error"),
    }
}

/// A gzip-compressed tar stream holding `./control` and a second, larger member.
fn control_tar_gz(control: &[u8]) -> Vec<u8> {
    let mut b = tar::Builder::new(Vec::new());
    let mut h = tar::Header::new_gnu();
    h.set_size(control.len() as u64);
    h.set_mode(0o644);
    h.set_cksum();
    b.append_data(&mut h, "./control", control).unwrap();
    let other = vec![b'x'; 4000];
    let mut h2 = tar::Header::new_gnu();
    h2.set_size(other.len() as u64);
    h2.set_mode(0o644);
    h2.set_cksum();
    b.append_data(&mut h2, "./md5sums", &other[..]).unwrap();
    let tar = b.into_inner().unwrap();
    let mut gz = flate2::write::GzEncoder::new(Vec::new(), flate2::Compression::default());
    gz.write_all(&tar).unwrap();
    gz.finish().unwrap()
}

#[test]
fn control_read_before_a_damaged_gzip_trailer() {
    let control = b"Package: a\nVersion: 1\n".to_vec();
    let good = control_tar_gz(&control);
    assert_eq!(fpm::compat::deb::decompress_tar_member("control.tar.gz", &good).unwrap(), control);
    let mut bad = good.clone();
    let n = bad.len();
    bad[n - 8] ^= 0xff; // the CRC of the trailer
    assert_eq!(fpm::compat::deb::decompress_tar_member("control.tar.gz", &bad).unwrap(), control);
    match fpm::compat::deb::decompress_tar_member("control.tar.gz", &good[..12]) {
        Err(_) => {}
        Ok(_) => panic!("a stream cut before the control file gives an error"),
    }
}
