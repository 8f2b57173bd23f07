use std::path::PathBuf;
use vstd::prelude::*;

verus! {

/// A file-system path, carried through unchanged.
#[verifier::external_type_specification]
#[verifier::external_body]
pub struct ExPathBuf(PathBuf);

/// Where the release archives are published.
pub open spec fn spec_release_base() -> Seq<char> {
    "https://github.com/moonrepo/proto/releases/download/v"@
}

/// The archive extension: `zip` on Windows, `tar.xz` elsewhere.
pub open spec fn spec_archive_ext(windows: bool) -> Seq<char> {
    if windows { "zip"@ } else { "tar.xz"@ }
}

/// The archive's name without its extension: `proto_cli-<triple>`.
pub open spec fn spec_file_stem(triple: Seq<char>) -> Seq<char> {
    "proto_cli-"@ + triple
}

/// The archive's file name: `<stem>.<ext>`.
pub open spec fn spec_file_name(triple: Seq<char>, windows: bool) -> Seq<char> {
    spec_file_stem(triple) + "."@ + spec_archive_ext(windows)
}

/// The archive's address: `<base><version>/<file>`.
pub open spec fn spec_release_url(triple: Seq<char>, version: Seq<char>, windows: bool) -> Seq<char> {
    spec_release_base() + version + "/"@ + spec_file_name(triple, windows)
}

/// The release archive that serves one target triple at one version.
pub struct ReleaseAsset {
    /// `proto_cli-<triple>`, which is also the directory the archive unpacks to.
    pub file_stem: String,
    /// The archive's file name.
    pub file: String,
    /// Where the archive is downloaded from.
    pub url: String,
}

/// Names the release archive for `triple` at `version`; `windows` tells
/// whether the installer runs on Windows, where releases ship as zip files.
pub fn release_asset(triple: &str, version: &str, windows: bool) -> (r: ReleaseAsset)
    ensures
        r.file_stem@ == spec_file_stem(triple@),
        r.file@ == spec_file_name(triple@, windows),
        r.url@ == spec_release_url(triple@, version@, windows),
{
    let mut file_stem = "proto_cli-".to_owned();
    file_stem.append(triple);
    let mut file = file_stem.clone();
    file.append(".");
    if windows {
        file.append("zip");
    } else {
        file.append("tar.xz");
    }
    let mut url = "https://github.com/moonrepo/proto/releases/download/v".to_owned();
    url.append(version);
    url.append("/");
    url.append(file.as_str());
    proof {
        assert(file@ =~= spec_file_name(triple@, windows));
        assert(url@ =~= spec_release_url(triple@, version@, windows));
    }
    ReleaseAsset { file_stem, file, url }
}

/// A downloaded release archive.
#[derive(Debug)]
pub struct DownloadResult {
    /// Where the archive was written.
    pub archive_file: PathBuf,
    /// The archive's file name.
    pub file: String,
    /// The archive's name without its extension.
    pub file_stem: String,
    /// Where the archive was downloaded from.
    pub url: String,
}

impl DownloadResult {
    /// Records that `asset` was written to `archive_file`.
    pub fn new(archive_file: PathBuf, asset: ReleaseAsset) -> (r: DownloadResult)
        ensures
            r.archive_file == archive_file,
            r.file == asset.file,
            r.file_stem == asset.file_stem,
            r.url == asset.url,
    {
        DownloadResult {
            archive_file,
            file: asset.file,
            file_stem: asset.file_stem,
            url: asset.url,
        }
    }
}

/// The address ends with the archive's file name, and the file name begins
/// with its stem followed by a dot.
pub proof fn lemma_release_names_nest(triple: Seq<char>, version: Seq<char>, windows: bool)
    ensures
        ({
            let url = spec_release_url(triple, version, windows);
            let file = spec_file_name(triple, windows);
            let stem = spec_file_stem(triple);
            &&& url.len() > file.len()
            &&& url.skip(url.len() - file.len()) == file
            &&& file.len() > stem.len()
            &&& file.subrange(0, stem.len() as int) == stem
            &&& file[stem.len() as int] == '.'
        }),
{
    reveal_strlit(".");
    reveal_strlit("/");
    let url = spec_release_url(triple, version, windows);
    let file = spec_file_name(triple, windows);
    let stem = spec_file_stem(triple);
    let pre = spec_release_base() + version + "/"@;
    assert(url == pre + file);
    assert(url.skip(url.len() - file.len()) =~= file);
    assert(file.subrange(0, stem.len() as int) =~= stem);
}

/// Releases for different triples, or for different versions, are fetched
/// from different addresses.
pub proof fn lemma_release_url_injective(
    t1: Seq<char>,
    v1: Seq<char>,
    t2: Seq<char>,
    v2: Seq<char>,
    windows: bool,
)
    requires
        spec_release_url(t1, v1, windows) == spec_release_url(t2, v2, windows),
        !v1.contains('/'),
        !v2.contains('/'),
    ensures
        t1 == t2,
        v1 == v2,
{
    reveal_strlit("/");
    let base = spec_release_base();
    let u1 = spec_release_url(t1, v1, windows);
    let u2 = spec_release_url(t2, v2, windows);
    let r1 = version_tail(v1, t1, windows);
    let r2 = version_tail(v2, t2, windows);
    assert(u1 =~= base + r1);
    assert(u2 =~= base + r2);
    assert(r1 =~= u1.skip(base.len() as int));
    assert(r2 =~= u2.skip(base.len() as int));
    // The version is everything before the first slash after the base.
    if v1.len() < v2.len() {
        assert(r1[v1.len() as int] == '/');
        assert(r2[v1.len() as int] == v2[v1.len() as int]);
        assert(v2.contains(v2[v1.len() as int]));
    } else if v2.len() < v1.len() {
        assert(r2[v2.len() as int] == '/');
        assert(r1[v2.len() as int] == v1[v2.len() as int]);
        assert(v1.contains(v1[v2.len() as int]));
    }
    assert(v1 =~= r1.subrange(0, v1.len() as int));
    assert(v2 =~= r2.subrange(0, v2.len() as int));
    let f1 = spec_file_name(t1, windows);
    let f2 = spec_file_name(t2, windows);
    assert(f1 =~= r1.skip(v1.len() as int + 1));
    assert(f2 =~= r2.skip(v2.len() as int + 1));
    let s1 = spec_file_stem(t1);
    let s2 = spec_file_stem(t2);
    let pre = "proto_cli-"@;
    assert(f1 == f2);
    assert(s1.len() == s2.len());
    assert(s1 =~= f1.subrange(0, s1.len() as int));
    assert(s2 =~= f2.subrange(0, s2.len() as int));
    assert(t1 =~= s1.skip(pre.len() as int));
    assert(t2 =~= s2.skip(pre.len() as int));
}

spec fn version_tail(version: Seq<char>, triple: Seq<char>, windows: bool) -> Seq<char> {
    version + "/"@ + spec_file_name(triple, windows)
}

} // verus!
