use fpm::build::builder::{Builder, PackageScripts, Recipe, RecipeInstall, RecipePackage, RecipeRuntime, RecipeScript, RecipeSource};
use fpm::build::checksums::{hash_bytes, hex_digest, merkle_root};
use fpm::build::error::BuildError;
use fpm::build::manifest::{
    Manifest, ManifestCompat, ManifestDependencies, ManifestFlags, ManifestInstall,
    ManifestPackage, ManifestRepository, ManifestSize, ManifestVerification,
};
use fpm::build::package::{split_dep, FpkgWriter};
use fpm::build::packer::{build_manifest_toml, pack, pack_entries, PackedFile};
use fpm::build::pkgbuild::{BuildSection, PackageMeta, PkgBuild, RuntimeDep, RuntimeSection};
use fpm::build::prepare::{source_file_name, verify_sha256, BuildEnv};
use fpm::build::runner::{after_build, build_command, exit_result, script_command};
use fpm::build::sign::{sign_command, sign_exited, signature_present};
use std::io::Write;

/// The package of the minimal `PKGBUILD.toml`: hello 1.0.0-1 for x86_64 and aarch64.
fn minimal() -> PkgBuild {
    PkgBuild {
        package: PackageMeta {
            name: "hello".into(),
            version: "1.0.0".into(),
            release: 1,
            arch: vec!["x86_64".into(), "aarch64".into()],
            license: "MIT".into(),
            summary: Some("Hello world package".into()),
            description: None,
            homepage: None,
            maintainer: None,
            source: None,
        },
        build: BuildSection {
            build_depends: None,
            script: "#!/bin/sh\nmkdir -p $DESTDIR/usr/bin\n".into(),
            package_install: None,
        },
        runtime: None,
    }
}

#[test]
fn pkgbuild_missing_name_errors() {
    let mut pb = minimal();
    pb.package.name = String::new();
    pb.package.version = "1.0".into();
    pb.package.arch = vec!["x86_64".into()];
    pb.build.script = "echo ok".into();
    let err = pb.validate().unwrap_err();
    assert!(err.message().contains("package.name"));
}

#[test]
fn pkgbuild_empty_script_errors() {
    let mut pb = minimal();
    pb.package.name = "test".into();
    pb.package.version = "1.0".into();
    pb.package.arch = vec!["x86_64".into()];
    pb.build.script = "   ".into();
    let err = pb.validate().unwrap_err();
    assert!(err.message().contains("build.script"));
}

#[test]
fn fpkg_name_format() {
    let pb = minimal();
    assert_eq!(pb.fpkg_name(), "hello-1.0.0-1.x86_64.fpkg");
}

#[test]
fn destdir_collected_and_packed() {
    let pb = minimal();
    let files = vec![PackedFile { rel_path: "usr/bin/hello".into(), content: b"#!/bin/sh\necho hello".to_vec() }];
    let result = pack(&pb, &files, &"/out".to_string()).unwrap();
    assert_eq!(result.file_count, 1);
    assert_eq!(result.fpkg_path, "/out/hello-1.0.0-1.x86_64.fpkg");
}

#[test]
fn checksums_file_contains_blake3_hashes() {
    let pb = minimal();
    let files = vec![PackedFile { rel_path: "etc/config.toml".into(), content: b"[cfg]\n".to_vec() }];
    let result = pack(&pb, &files, &"/out".to_string()).unwrap();
    assert!(result.blake3_manifest.contains("DATA/"));
    let hash_len = result.blake3_manifest.split_whitespace().next().unwrap().len();
    assert_eq!(hash_len, 64);
}

#[test]
fn pack_checksum_lines_use_bare_hex() {
    let pb = minimal();
    let files = vec![
        PackedFile { rel_path: "a".into(), content: b"1".to_vec() },
        PackedFile { rel_path: "b/c".into(), content: Vec::new() },
    ];
    let result = pack(&pb, &files, &"/out".to_string()).unwrap();
    assert_eq!(
        result.blake3_manifest,
        format!("{}  DATA/a\n{}  DATA/b/c\n", hex_digest(b"1"), hex_digest(b""))
    );
}

// ---------------------------------------------------------------- further cases

#[test]
fn validate_checks_in_order() {
    let mut pb = minimal();
    assert!(pb.validate().is_ok());
    pb.package.arch = vec![];
    assert_eq!(pb.validate().unwrap_err().message(), "missing required field in PKGBUILD.toml: package.arch");
    pb.package.version = String::new();
    assert!(matches!(pb.validate(), Err(BuildError::MissingField(f)) if f == "package.version"));
    assert_eq!(pb.fpkg_name(), "hello--1.any.fpkg");
}

#[test]
fn pack_empty_destdir() {
    let r = pack(&minimal(), &vec![], &"/out".to_string());
    assert!(matches!(r, Err(BuildError::EmptyDestdir)));
    assert_eq!(BuildError::EmptyDestdir.message(), "DESTDIR is empty after build — nothing to package");
}

#[test]
fn hashes_are_blake3() {
    assert_eq!(hex_digest(b""), "af1349b9f5f9a1a6a0404dea36dcc9499bcb25c9adc112b7cc9a93cae41f3262");
    assert_eq!(hash_bytes(b"abc"), "blake3:6437b3ac38465133ffb63b75273a8db548c558465d79db03fd359c6cd5bd9d85");
}

#[test]
fn merkle_root_ignores_order() {
    let a: Vec<String> = vec!["blake3:bb".into(), "blake3:aa".into(), "blake3:cc".into()];
    let b: Vec<String> = vec!["blake3:cc".into(), "blake3:aa".into(), "blake3:bb".into()];
    assert_eq!(merkle_root(&a), merkle_root(&b));
    assert_eq!(merkle_root(&a), hash_bytes(b"blake3:aa\nblake3:bb\nblake3:cc"));
    assert_eq!(merkle_root(&vec![]), hash_bytes(b""));
}

fn empty_manifest(requires: Vec<String>, suggests: Vec<String>) -> Manifest {
    Manifest {
        package: ManifestPackage {
            name: "p".into(), version: "1".into(), release: 1, arch: "x86_64".into(),
            license: String::new(), summary: String::new(), description: String::new(),
            homepage: String::new(), source_url: String::new(), maintainer: String::new(),
            build_date: String::new(), categories: vec![], tags: vec![],
            size: ManifestSize { installed: 0, compressed: 0, delta_base: String::new() },
            flags: ManifestFlags { system_config: false, has_services: false, selinux_aware: false, has_suid: false },
        },
        verification: ManifestVerification { manifest_hash: String::new(), content_tree: String::new(), signature_algo: "ed25519".into() },
        dependencies: ManifestDependencies { requires, suggests, conflicts: vec![], provides: vec![], before: vec![], after: vec![] },
        install: ManifestInstall { mode: String::new(), config_files: vec![], desktop_files: vec![] },
        repository: ManifestRepository { origin_repo: String::new(), origin_url: String::new(), fetched_at: String::new() },
        compat: ManifestCompat { min_fpm_version: "0.1.0".into(), fpkg_format: "1".into() },
    }
}

#[test]
fn writer_data_files_and_checksums() {
    let mut w = FpkgWriter::new("/out/p.fpkg".into(), empty_manifest(vec![], vec![]));
    assert_eq!(w.origin, "native");
    w.add_data_file("/usr/bin/p", b"x".to_vec());
    w.add_data_file("DATA/etc/p.conf", b"y".to_vec());
    assert_eq!(w.data_files[0].archive_path, "DATA/usr/bin/p");
    assert_eq!(w.data_files[1].archive_path, "DATA/etc/p.conf");
    let sums = w.build_checksums();
    assert_eq!(sums, format!("{}  DATA/usr/bin/p\n{}  DATA/etc/p.conf", hex_digest(b"x"), hex_digest(b"y")));
    assert!(!sums.contains("blake3:"));
    assert_eq!(w.compute_merkle(), merkle_root(&vec![hash_bytes(b"y"), hash_bytes(b"x")]));
    w.add_script("post-install.sh", b"echo".to_vec());
    assert_eq!(w.scripts.len(), 1);
}

#[test]
fn writer_deps_toml() {
    let w = FpkgWriter::new("o".into(), empty_manifest(vec!["glibc>=2.35".into()], vec!["bash-completion".into()]));
    assert_eq!(
        w.build_deps_toml(),
        "[[dep]]\nname     = \"glibc\"\nversion  = \">=2.35\"\noptional = false\nreason   = \"\"\n\n[[dep]]\nname     = \"bash-completion\"\nversion  = \"\"\noptional = true\ngroup    = \"optional\"\nreason   = \"\"\n"
    );
    assert_eq!(split_dep(" foo ~1.2 "), ("foo".to_string(), "~1.2".to_string()));
    assert_eq!(split_dep("bar"), ("bar".to_string(), String::new()));
}

#[test]
fn builder_attaches_non_empty_scripts() {
    let mut w = FpkgWriter::new("o".into(), empty_manifest(vec![], vec![]));
    let scripts = PackageScripts {
        pre_install: String::new(),
        post_install: "ldconfig".into(),
        pre_remove: String::new(),
        post_remove: "rm -f /tmp/x".into(),
    };
    Builder::attach_scripts(&mut w, &scripts);
    assert_eq!(w.scripts.len(), 2);
    assert_eq!(w.scripts[0].0, "post-install.sh");
    assert_eq!(w.scripts[1].1, b"rm -f /tmp/x".to_vec());
    let b = Builder::new("/out".into(), true);
    assert!(b.verbose);
}

#[test]
fn manifest_toml_text() {
    let mut pb = minimal();
    pb.runtime = Some(RuntimeSection {
        requires: Some(vec![
            RuntimeDep { name: "ncurses".into(), version: Some(">= 6.0".into()), optional: None },
            RuntimeDep { name: "libc".into(), version: None, optional: Some(false) },
        ]),
        suggests: None,
        conflicts: None,
        provides: None,
    });
    let expected = "[package]\nname        = \"hello\"\nversion     = \"1.0.0\"\nrelease     = 1\narch        = [\"x86_64\", \"aarch64\"]\nlicense     = \"MIT\"\nsummary     = \"Hello world package\"\nhomepage    = \"\"\nmaintainer  = \"\"\n\n[verification]\nfpkg_format = 1\n\n[[dependencies]]\nname = \"ncurses\"\nversion = \">= 6.0\"\noptional = false\n\n[[dependencies]]\nname = \"libc\"\nversion = \"*\"\noptional = false\n\n";
    assert_eq!(build_manifest_toml(&pb), expected);
}

#[test]
fn build_commands() {
    let pb = minimal();
    let env = BuildEnv::in_workdir(&"/w".to_string());
    assert_eq!(env.destdir, "/w/pkg");
    let direct = build_command(&pb, &env, false);
    assert_eq!(direct.program, "/bin/sh");
    assert_eq!(direct.args, vec!["/w/build.sh"]);
    assert_eq!(direct.current_dir.as_deref(), Some("/w/build"));
    assert_eq!(direct.envs[4], ("PKGREL".to_string(), "1".to_string()));
    let sandboxed = build_command(&pb, &env, true);
    assert_eq!(sandboxed.program, "bwrap");
    assert_eq!(sandboxed.args.len(), 50);
    assert_eq!(sandboxed.args[17], "/w/build");
    let s = script_command("/tmp/s.sh", &env);
    assert_eq!(s.envs, vec![("DESTDIR".to_string(), "/w/pkg".to_string())]);
}

#[test]
fn build_exit_statuses() {
    assert!(exit_result(true, Some(0)).is_ok());
    assert_eq!(exit_result(false, Some(2)).unwrap_err().message(), "build script exited with status 2");
    assert_eq!(exit_result(false, None).unwrap_err().message(), "build script exited with status 1");
    assert_eq!(exit_result(false, Some(-3)).unwrap_err().message(), "build script exited with status -3");
    let mut pb = minimal();
    assert_eq!(after_build(&pb, true, Some(0)).unwrap(), None);
    pb.build.package_install = Some("make install".into());
    assert_eq!(after_build(&pb, true, Some(0)).unwrap().as_deref(), Some("make install"));
    assert!(after_build(&pb, false, Some(1)).is_err());
}

#[test]
fn sources_and_signing() {
    assert_eq!(source_file_name("https://x.org/pub/htop-3.3.0.tar.xz"), "htop-3.3.0.tar.xz");
    assert_eq!(source_file_name("noslash"), "noslash");
    let hex = hex_digest(b"abc");
    assert!(verify_sha256(b"abc", &hex[..10]).is_ok());
    let err = verify_sha256(b"abc", "00").unwrap_err();
    assert_eq!(err.message(), format!("checksum mismatch: expected 00, got {}", hex));
    let c = sign_command("/usr/bin/fpkg-sign", "/o/p.fpkg", Some("/k"));
    assert_eq!(c.args, vec!["/o/p.fpkg", "--key", "/k"]);
    assert_eq!(sign_exited(false, Some(3)).unwrap_err().message(), "signing failed: fpkg-sign exited with Some(3)");
    assert_eq!(sign_exited(false, None).unwrap_err().message(), "signing failed: fpkg-sign exited with None");
    assert!(sign_exited(true, Some(0)).is_ok());
}

#[test]
fn builder_manifest_from_recipe() {
    let r = Recipe {
        package: RecipePackage {
            name: "zsh".into(),
            version: "5.9".into(),
            release: 2,
            arch: "x86_64".into(),
            license: "MIT".into(),
            summary: "shell".into(),
            description: "Z shell".into(),
            homepage: "https://zsh.org".into(),
            maintainer: "me".into(),
            categories: vec!["shells".into()],
            tags: vec![],
        },
        source: RecipeSource { url: String::new(), local: "/src/zsh".into(), sha256: String::new() },
        build: RecipeScript { script: "make".into() },
        install: RecipeInstall {
            script: "make install".into(),
            mode: "system".into(),
            config_files: vec!["/etc/zshrc".into()],
            desktop_files: vec![],
        },
        runtime: RecipeRuntime {
            requires: vec!["ncurses".into()],
            suggests: vec![],
            conflicts: vec![],
            provides: vec!["sh".into()],
        },
        scripts: PackageScripts {
            pre_install: String::new(),
            post_install: String::new(),
            pre_remove: String::new(),
            post_remove: String::new(),
        },
        changelog: String::new(),
    };
    let m = Builder::build_manifest(&r, "2026-01-01".into());
    assert_eq!(m.package.source_url, "/src/zsh");
    assert_eq!(m.package.release, 2);
    assert_eq!(m.package.build_date, "2026-01-01");
    assert_eq!(m.verification.signature_algo, "ed25519");
    assert_eq!(m.dependencies.requires, vec!["ncurses".to_string()]);
    assert_eq!(m.dependencies.provides, vec!["sh".to_string()]);
    assert_eq!(m.install.config_files, vec!["/etc/zshrc".to_string()]);
    assert_eq!(m.compat.fpkg_format, "1");
    assert!(Builder::source_checksum_ok("blake3:ab", "blake3:ab"));
    assert!(!Builder::source_checksum_ok("blake3:ab", "blake3:cd"));
    assert!(Builder::source_checksum_ok("blake3:ab", "sha256:cd"));
    assert!(Builder::is_source_tarball("Foo.TAR.GZ"));
    assert!(!Builder::is_source_tarball("foo.zip"));
}

#[test]
fn pack_entries_layout() {
    let pb = minimal();
    let files = vec![PackedFile { rel_path: "usr/bin/hello".into(), content: b"#!/bin/sh\necho hello".to_vec() }];
    let entries = pack_entries(&pb, &files);
    let names: Vec<&str> = entries.iter().map(|e| e.0.as_str()).collect();
    assert_eq!(names, vec!["META/manifest.toml", "DATA/usr/bin/hello", "META/checksums.blake3"]);
    assert_eq!(entries[0].1, build_manifest_toml(&pb).into_bytes());
    assert_eq!(entries[1].1, b"#!/bin/sh\necho hello".to_vec());
    let result = pack(&pb, &files, &"/out".to_string()).unwrap();
    assert_eq!(entries[2].1, result.blake3_manifest.into_bytes());
}

#[test]
fn merkle_ignores_file_order_and_paths() {
    let mut a = FpkgWriter::new("a".into(), empty_manifest(vec![], vec![]));
    a.add_data_file("x", b"1".to_vec());
    a.add_data_file("y", b"2".to_vec());
    let mut b = FpkgWriter::new("b".into(), empty_manifest(vec![], vec![]));
    b.add_data_file("other", b"2".to_vec());
    b.add_data_file("x", b"1".to_vec());
    assert_eq!(a.compute_merkle(), b.compute_merkle());
}

/// A zip archive holding the named entries.
fn zip_with(names: &[&str]) -> Vec<u8> {
    let mut z = zip::ZipWriter::new(std::io::Cursor::new(Vec::new()));
    for n in names {
        z.start_file(*n, zip::write::SimpleFileOptions::default()).unwrap();
        z.write_all(b"x").unwrap();
    }
    z.finish().unwrap().into_inner()
}

#[test]
fn signature_presence() {
    assert!(signature_present(&zip_with(&["META/manifest.toml", "META/signature.ed25519"])));
    assert!(!signature_present(&zip_with(&["META/manifest.toml", "DATA/META/signature.ed25519"])));
    assert!(!signature_present(b"not a zip archive"));
    assert!(!signature_present(&[]));
}
