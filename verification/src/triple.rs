use crate::error::ProtoInstallerError;
use vstd::prelude::*;

verus! {

/// The release target triple for a host, or `None` where no release is
/// published for it.
///
/// Linux hosts get `<arch>-unknown-linux-musl` or `<arch>-unknown-linux-gnu`
/// by their C library, macOS hosts `<arch>-apple-darwin`, and 64-bit x86
/// Windows hosts `x86_64-pc-windows-msvc`.
pub open spec fn spec_triple(os: Seq<char>, arch: Seq<char>, musl: bool) -> Option<Seq<char>> {
    if os == "linux"@ {
        Some(arch + "-unknown-linux-"@ + (if musl { "musl"@ } else { "gnu"@ }))
    } else if os == "macos"@ {
        Some(arch + "-apple-darwin"@)
    } else if os == "windows"@ && arch == "x86_64"@ {
        Some("x86_64-pc-windows-msvc"@)
    } else {
        None
    }
}

/// Whether `r` is what target selection answers for `os` and `arch` on a host
/// whose C library is musl exactly when `musl` holds.
pub open spec fn triple_result_matches(
    r: Result<String, ProtoInstallerError>,
    os: Seq<char>,
    arch: Seq<char>,
    musl: bool,
) -> bool {
    match spec_triple(os, arch, musl) {
        Some(t) => r matches Ok(s) && s@ == t,
        None => r matches Err(ProtoInstallerError::InvalidPlatform { arch: a, os: o })
            && a@ == arch && o@ == os,
    }
}

/// Calls `system_env::SystemLibc::is_musl`, which inspects the running machine
/// (it runs `ldd --version` or `uname`). The answer depends on the machine,
/// so nothing is stated of it.
#[verifier::external_body]
fn host_libc_is_musl() -> (musl: bool) {
    system_env::SystemLibc::is_musl()
}

fn str_eq(a: &str, b: &str) -> (r: bool)
    ensures
        r == (a@ == b@),
{
    a.to_owned() == b.to_owned()
}

/// Chooses the release target triple for an operating system and
/// architecture (named as in `std::env::consts`), given whether the host's C
/// library is musl.
pub fn triple_for(os: &str, arch: &str, musl: bool) -> (r: Result<String, ProtoInstallerError>)
    ensures
        triple_result_matches(r, os@, arch@, musl),
{
    if str_eq(os, "linux") {
        let mut t = arch.to_owned();
        t.append("-unknown-linux-");
        if musl {
            t.append("musl");
        } else {
            t.append("gnu");
        }
        Ok(t)
    } else if str_eq(os, "macos") {
        let mut t = arch.to_owned();
        t.append("-apple-darwin");
        Ok(t)
    } else if str_eq(os, "windows") && str_eq(arch, "x86_64") {
        Ok("x86_64-pc-windows-msvc".to_owned())
    } else {
        Err(ProtoInstallerError::InvalidPlatform { arch: arch.to_owned(), os: os.to_owned() })
    }
}

/// Chooses the release target triple for the host described by `os` and
/// `arch`. The C library is inspected only on Linux, where it decides between
/// the musl and gnu builds; everywhere else the answer is fixed by the
/// arguments.
pub fn determine_triple(os: &str, arch: &str) -> (r: Result<String, ProtoInstallerError>)
    ensures
        exists|musl: bool| triple_result_matches(r, os@, arch@, musl),
        os@ != "linux"@ ==> triple_result_matches(r, os@, arch@, false),
        r is Ok <==> (os@ == "linux"@ || os@ == "macos"@ || (os@ == "windows"@ && arch@ == "x86_64"@)),
{
    let musl = if str_eq(os, "linux") {
        host_libc_is_musl()
    } else {
        false
    };
    triple_for(os, arch, musl)
}

/// Every published triple begins with the host architecture.
pub proof fn lemma_triple_starts_with_arch(os: Seq<char>, arch: Seq<char>, musl: bool)
    requires
        spec_triple(os, arch, musl) is Some,
    ensures
        spec_triple(os, arch, musl)->0.len() >= arch.len(),
        spec_triple(os, arch, musl)->0.subrange(0, arch.len() as int) == arch,
{
    let t = spec_triple(os, arch, musl)->0;
    if os == "linux"@ || os == "macos"@ {
        assert(t.subrange(0, arch.len() as int) =~= arch);
    } else {
        reveal_strlit("x86_64-pc-windows-msvc");
        reveal_strlit("x86_64");
        assert(t.subrange(0, arch.len() as int) =~= arch);
    }
}

/// The C library decides only between the two Linux builds: on every other
/// operating system the answer does not depend on it.
pub proof fn lemma_libc_matters_only_on_linux(os: Seq<char>, arch: Seq<char>)
    requires
        os != "linux"@,
    ensures
        spec_triple(os, arch, true) == spec_triple(os, arch, false),
{
}

/// On Linux the triple names the C library it was chosen for: it ends in
/// `musl` for a musl host and in `gnu` otherwise, after the architecture and
/// `-unknown-linux-`.
pub proof fn lemma_linux_suffix_follows_libc(arch: Seq<char>, musl: bool)
    ensures
        spec_triple("linux"@, arch, musl) is Some,
        ({
            let t = spec_triple("linux"@, arch, musl)->0;
            &&& t.subrange(0, arch.len() as int) == arch
            &&& t.subrange(arch.len() as int, arch.len() as int + 15) == "-unknown-linux-"@
            &&& musl ==> (t.len() == arch.len() + 19 && t.skip(t.len() - 4) == "musl"@)
            &&& !musl ==> (t.len() == arch.len() + 18 && t.skip(t.len() - 3) == "gnu"@)
        }),
{
    reveal_strlit("-unknown-linux-");
    reveal_strlit("musl");
    reveal_strlit("gnu");
    let t = spec_triple("linux"@, arch, musl)->0;
    let mid = "-unknown-linux-"@;
    let tail = if musl { "musl"@ } else { "gnu"@ };
    assert(t == arch + mid + tail);
    assert(t.subrange(0, arch.len() as int) =~= arch);
    assert(t.subrange(arch.len() as int, arch.len() as int + 15) =~= mid);
    assert(t.skip(t.len() - tail.len()) =~= tail);
}

/// A macOS triple is the architecture followed by `-apple-darwin`, and the
/// only Windows triple is `x86_64-pc-windows-msvc`, for x86_64 alone.
pub proof fn lemma_macos_and_windows_triples(arch: Seq<char>, musl: bool)
    ensures
        spec_triple("macos"@, arch, musl) == Some(arch + "-apple-darwin"@),
        spec_triple("windows"@, arch, musl) is Some <==> arch == "x86_64"@,
        arch == "x86_64"@ ==> spec_triple("windows"@, arch, musl) == Some(
            "x86_64-pc-windows-msvc"@,
        ),
{
    reveal_strlit("linux");
    reveal_strlit("macos");
    reveal_strlit("windows");
    assert("macos"@ != "linux"@) by {
        assert("macos"@[0] != "linux"@[0]);
    }
    assert("windows"@.len() != "linux"@.len());
    assert("windows"@.len() != "macos"@.len());
}

/// On Linux the musl and gnu builds are different triples.
pub proof fn lemma_linux_builds_differ(arch: Seq<char>)
    ensures
        spec_triple("linux"@, arch, true) != spec_triple("linux"@, arch, false),
{
    reveal_strlit("musl");
    reveal_strlit("gnu");
    let p = arch + "-unknown-linux-"@;
    let a = p + "musl"@;
    let b = p + "gnu"@;
    assert(a.len() != b.len());
}

} // verus!
