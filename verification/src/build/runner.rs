//! Running the build: the commands that run a `PKGBUILD.toml`'s scripts, inside
//! `bwrap` when it is available, and what their exit statuses mean.

use vstd::prelude::*;
use crate::text::{decimal, decimal_string, owned};
use crate::build::error::{BuildError, BuildErrorView};
use crate::build::pkgbuild::PkgBuild;
use crate::build::prepare::BuildEnv;

verus! {

/// A command to run: program, arguments, environment additions and working directory.
#[derive(Debug, Clone)]
pub struct CommandSpec {
    pub program: String,
    pub args: Vec<String>,
    pub envs: Vec<(String, String)>,
    pub current_dir: Option<String>,
}

/// The characters of each string.
pub open spec fn arg_texts(v: Seq<String>) -> Seq<Seq<char>> {
    v.map_values(|s: String| s@)
}

/// The characters of each pair of strings.
pub open spec fn env_texts(v: Seq<(String, String)>) -> Seq<(Seq<char>, Seq<char>)> {
    v.map_values(|p: (String, String)| (p.0@, p.1@))
}

/// The arguments of `bwrap` for a build: a new user, PID and network namespace, the
/// system read-only, the build, source and destination directories bound at `/build`,
/// `/src` and `/pkg`, the script at `/build.sh`, the package's name, version and
/// release in the environment, and the script run by `/bin/sh`.
pub open spec fn bwrap_args(pb: PkgBuild, env: BuildEnv) -> Seq<Seq<char>> {
    seq![
        "--unshare-user"@, "--unshare-pid"@, "--unshare-net"@,
        "--ro-bind"@, "/usr"@, "/usr"@,
        "--ro-bind"@, "/lib"@, "/lib"@,
        "--ro-bind"@, "/lib64"@, "/lib64"@,
        "--proc"@, "/proc"@,
        "--dev"@, "/dev"@,
        "--bind"@, env.build_dir@, "/build"@,
        "--bind"@, env.src_dir@, "/src"@,
        "--bind"@, env.destdir@, "/pkg"@,
        "--ro-bind"@, env.script_path@, "/build.sh"@,
        "--chdir"@, "/build"@,
        "--setenv"@, "SRCDIR"@, "/src"@,
        "--setenv"@, "DESTDIR"@, "/pkg"@,
        "--setenv"@, "PKGNAME"@, pb.package.name@,
        "--setenv"@, "PKGVER"@, pb.package.version@,
        "--setenv"@, "PKGREL"@, decimal(pb.package.release as nat),
        "--setenv"@, "FPM_BUILD"@, "1"@,
        "/bin/sh"@, "/build.sh"@
    ]
}

/// The environment of a build run directly by `/bin/sh`.
pub open spec fn plain_build_env(pb: PkgBuild, env: BuildEnv) -> Seq<(Seq<char>, Seq<char>)> {
    seq![
        ("SRCDIR"@, env.src_dir@),
        ("DESTDIR"@, env.destdir@),
        ("PKGNAME"@, pb.package.name@),
        ("PKGVER"@, pb.package.version@),
        ("PKGREL"@, decimal(pb.package.release as nat)),
        ("FPM_BUILD"@, "1"@)
    ]
}

fn push_arg(args: &mut Vec<String>, a: &str)
    ensures
        arg_texts(final(args)@) == arg_texts(old(args)@).push(a@),
{
    let ghost before = arg_texts(args@);
    args.push(owned(a));
    assert(arg_texts(args@) =~= before.push(a@));
}

fn push_env(envs: &mut Vec<(String, String)>, k: &str, v: &str)
    ensures
        env_texts(final(envs)@) == env_texts(old(envs)@).push((k@, v@)),
{
    let ghost before = env_texts(envs@);
    envs.push((owned(k), owned(v)));
    assert(env_texts(envs@) =~= before.push((k@, v@)));
}

/// The command that runs the build script: through `bwrap` when `use_bwrap` (it is on
/// the `PATH`), else `/bin/sh` on the script in the build directory.
pub fn build_command(pb: &PkgBuild, env: &BuildEnv, use_bwrap: bool) -> (res: CommandSpec)
    ensures
        use_bwrap ==> res.program@ == "bwrap"@ && arg_texts(res.args@) == bwrap_args(*pb, *env)
            && res.envs@.len() == 0 && res.current_dir is None,
        !use_bwrap ==> res.program@ == "/bin/sh"@ && arg_texts(res.args@) == seq![env.script_path@]
            && env_texts(res.envs@) == plain_build_env(*pb, *env)
            && res.current_dir == Some(env.build_dir),
{
    let rel = decimal_string(pb.package.release as u64);
    if use_bwrap {
        let mut a: Vec<String> = Vec::new();
        push_arg(&mut a, "--unshare-user");
        push_arg(&mut a, "--unshare-pid");
        push_arg(&mut a, "--unshare-net");
        push_arg(&mut a, "--ro-bind");
        push_arg(&mut a, "/usr");
        push_arg(&mut a, "/usr");
        push_arg(&mut a, "--ro-bind");
        push_arg(&mut a, "/lib");
        push_arg(&mut a, "/lib");
        push_arg(&mut a, "--ro-bind");
        push_arg(&mut a, "/lib64");
        push_arg(&mut a, "/lib64");
        push_arg(&mut a, "--proc");
        push_arg(&mut a, "/proc");
        push_arg(&mut a, "--dev");
        push_arg(&mut a, "/dev");
        push_arg(&mut a, "--bind");
        push_arg(&mut a, env.build_dir.as_str());
        push_arg(&mut a, "/build");
        push_arg(&mut a, "--bind");
        push_arg(&mut a, env.src_dir.as_str());
        push_arg(&mut a, "/src");
        push_arg(&mut a, "--bind");
        push_arg(&mut a, env.destdir.as_str());
        push_arg(&mut a, "/pkg");
        push_arg(&mut a, "--ro-bind");
        push_arg(&mut a, env.script_path.as_str());
        push_arg(&mut a, "/build.sh");
        push_arg(&mut a, "--chdir");
        push_arg(&mut a, "/build");
        push_arg(&mut a, "--setenv");
        push_arg(&mut a, "SRCDIR");
        push_arg(&mut a, "/src");
        push_arg(&mut a, "--setenv");
        push_arg(&mut a, "DESTDIR");
        push_arg(&mut a, "/pkg");
        push_arg(&mut a, "--setenv");
        push_arg(&mut a, "PKGNAME");
        push_arg(&mut a, pb.package.name.as_str());
        push_arg(&mut a, "--setenv");
        push_arg(&mut a, "PKGVER");
        push_arg(&mut a, pb.package.version.as_str());
        push_arg(&mut a, "--setenv");
        push_arg(&mut a, "PKGREL");
        push_arg(&mut a, rel.as_str());
        push_arg(&mut a, "--setenv");
        push_arg(&mut a, "FPM_BUILD");
        push_arg(&mut a, "1");
        push_arg(&mut a, "/bin/sh");
        push_arg(&mut a, "/build.sh");
        assert(arg_texts(a@) =~= bwrap_args(*pb, *env));
        CommandSpec { program: owned("bwrap"), args: a, envs: Vec::new(), current_dir: None }
    } else {
        let mut a: Vec<String> = Vec::new();
        push_arg(&mut a, env.script_path.as_str());
        assert(arg_texts(a@) =~= seq![env.script_path@]);
        let mut e: Vec<(String, String)> = Vec::new();
        push_env(&mut e, "SRCDIR", env.src_dir.as_str());
        push_env(&mut e, "DESTDIR", env.destdir.as_str());
        push_env(&mut e, "PKGNAME", pb.package.name.as_str());
        push_env(&mut e, "PKGVER", pb.package.version.as_str());
        push_env(&mut e, "PKGREL", rel.as_str());
        push_env(&mut e, "FPM_BUILD", "1");
        assert(env_texts(e@) =~= plain_build_env(*pb, *env));
        CommandSpec {
            program: owned("/bin/sh"),
            args: a,
            envs: e,
            current_dir: Some(env.build_dir.clone()),
        }
    }
}

/// The command that runs the package-install script saved at `script_file`: `/bin/sh`
/// in the build directory, with `DESTDIR` set.
pub fn script_command(script_file: &str, env: &BuildEnv) -> (res: CommandSpec)
    ensures
        res.program@ == "/bin/sh"@,
        arg_texts(res.args@) == seq![script_file@],
        env_texts(res.envs@) == seq![("DESTDIR"@, env.destdir@)],
        res.current_dir == Some(env.build_dir),
{
    let mut a: Vec<String> = Vec::new();
    push_arg(&mut a, script_file);
    assert(arg_texts(a@) =~= seq![script_file@]);
    let mut e: Vec<(String, String)> = Vec::new();
    push_env(&mut e, "DESTDIR", env.destdir.as_str());
    assert(env_texts(e@) =~= seq![("DESTDIR"@, env.destdir@)]);
    CommandSpec { program: owned("/bin/sh"), args: a, envs: e, current_dir: Some(env.build_dir.clone()) }
}

/// What a script's exit means: success, or a failed build with its exit code (1 when
/// it was ended by a signal and has none).
pub fn exit_result(success: bool, code: Option<i32>) -> (res: Result<(), BuildError>)
    ensures
        success <==> res is Ok,
        res matches Err(e) ==> e@ == BuildErrorView::BuildFailed(
            match code {
                Some(c) => c,
                None => 1,
            },
        ),
{
    if success {
        Ok(())
    } else {
        Err(BuildError::BuildFailed(
            match code {
                Some(c) => c,
                None => 1,
            },
        ))
    }
}

/// What follows the build script's exit: its failure, or the package-install script to
/// run next (`Some`), or nothing more (`None`).
pub fn after_build(pb: &PkgBuild, success: bool, code: Option<i32>) -> (res: Result<Option<String>, BuildError>)
    ensures
        success <==> res is Ok,
        res matches Err(e) ==> e@ == BuildErrorView::BuildFailed(
            match code {
                Some(c) => c,
                None => 1,
            },
        ),
        res matches Ok(next) ==> next == pb.build.package_install,
{
    exit_result(success, code)?;
    Ok(pb.build.package_install.clone())
}

} // verus!
