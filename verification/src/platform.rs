//! The platform resolver: maps a target triple (or an architecture and
//! operating-system pair) to the release asset published for it. Resolution is
//! pure; it makes no network call, so nothing is fetched for an unsupported
//! platform.

use vstd::prelude::*;

use crate::InstallError;
use crate::text::str_eq;

verus! {

/// The target triples for which a release asset is published.
pub open spec fn is_supported_target(t: Seq<char>) -> bool {
    ||| t == "aarch64-apple-darwin"@
    ||| t == "x86_64-apple-darwin"@
    ||| t == "x86_64-pc-windows-msvc"@
    ||| t == "x86_64-unknown-linux-gnu"@
    ||| t == "x86_64-unknown-linux-musl"@
}

/// The asset file name published for a target triple, when there is one.
pub open spec fn spec_asset_for(t: Seq<char>) -> Option<Seq<char>> {
    if t == "aarch64-apple-darwin"@ {
        Some("readstat-v0.12.2-aarch64-apple-darwin.tar.gz"@)
    } else if t == "x86_64-apple-darwin"@ {
        Some("readstat-v0.12.2-x86_64-apple-darwin.tar.gz"@)
    } else if t == "x86_64-pc-windows-msvc"@ {
        Some("readstat-v0.12.2-x86_64-pc-windows-msvc.zip"@)
    } else if t == "x86_64-unknown-linux-gnu"@ {
        Some("readstat-v0.12.2-x86_64-unknown-linux-gnu.tar.gz"@)
    } else if t == "x86_64-unknown-linux-musl"@ {
        Some("readstat-v0.12.2-x86_64-unknown-linux-musl.tar.gz"@)
    } else {
        None
    }
}

/// Resolves a target triple to the name of its release asset, failing exactly
/// on the triples for which no asset is published.
pub fn get_target_asset_name(target: &str) -> (r: Result<&'static str, InstallError>)
    ensures
        match r {
            Ok(name) => is_supported_target(target@) && spec_asset_for(target@) == Some(name@),
            Err(e) => !is_supported_target(target@) && spec_asset_for(target@) is None && e
                == InstallError::UnsupportedPlatform,
        },
{
    if str_eq(target, "aarch64-apple-darwin") {
        Ok("readstat-v0.12.2-aarch64-apple-darwin.tar.gz")
    } else if str_eq(target, "x86_64-apple-darwin") {
        Ok("readstat-v0.12.2-x86_64-apple-darwin.tar.gz")
    } else if str_eq(target, "x86_64-pc-windows-msvc") {
        Ok("readstat-v0.12.2-x86_64-pc-windows-msvc.zip")
    } else if str_eq(target, "x86_64-unknown-linux-gnu") {
        Ok("readstat-v0.12.2-x86_64-unknown-linux-gnu.tar.gz")
    } else if str_eq(target, "x86_64-unknown-linux-musl") {
        Ok("readstat-v0.12.2-x86_64-unknown-linux-musl.tar.gz")
    } else {
        Err(InstallError::UnsupportedPlatform)
    }
}

/// Law: every supported platform triple resolves to an asset name, and that
/// name is never empty.
pub proof fn lemma_supported_target_resolves(t: Seq<char>)
    requires
        is_supported_target(t),
    ensures
        spec_asset_for(t) is Some,
        spec_asset_for(t) matches Some(name) ==> name.len() > 0,
{
    reveal_strlit("readstat-v0.12.2-aarch64-apple-darwin.tar.gz");
    reveal_strlit("readstat-v0.12.2-x86_64-apple-darwin.tar.gz");
    reveal_strlit("readstat-v0.12.2-x86_64-pc-windows-msvc.zip");
    reveal_strlit("readstat-v0.12.2-x86_64-unknown-linux-gnu.tar.gz");
    reveal_strlit("readstat-v0.12.2-x86_64-unknown-linux-musl.tar.gz");
}

/// Law: the asset published for every supported triple carries an extension
/// that names a known archive format, so resolution never hands the extractor
/// an asset it cannot decode.
pub proof fn lemma_supported_asset_has_known_kind(t: Seq<char>)
    requires
        is_supported_target(t),
    ensures
        spec_asset_for(t) matches Some(name) ==> crate::archive::spec_archive_kind(name) is Ok,
{
    reveal_with_fuel(crate::text::spec_rfind, 6);
    reveal_strlit("gz");
    reveal_strlit("zip");
    reveal_strlit("readstat-v0.12.2-aarch64-apple-darwin.tar.gz");
    reveal_strlit("readstat-v0.12.2-x86_64-apple-darwin.tar.gz");
    reveal_strlit("readstat-v0.12.2-x86_64-pc-windows-msvc.zip");
    reveal_strlit("readstat-v0.12.2-x86_64-unknown-linux-gnu.tar.gz");
    reveal_strlit("readstat-v0.12.2-x86_64-unknown-linux-musl.tar.gz");
    assert(crate::text::spec_rfind("readstat-v0.12.2-aarch64-apple-darwin.tar.gz"@, '.') == Some(
        41int,
    ));
    assert("readstat-v0.12.2-aarch64-apple-darwin.tar.gz"@.subrange(42, 44) =~= "gz"@);
    assert(crate::text::spec_rfind("readstat-v0.12.2-x86_64-apple-darwin.tar.gz"@, '.') == Some(
        40int,
    ));
    assert("readstat-v0.12.2-x86_64-apple-darwin.tar.gz"@.subrange(41, 43) =~= "gz"@);
    assert(crate::text::spec_rfind("readstat-v0.12.2-x86_64-pc-windows-msvc.zip"@, '.') == Some(
        39int,
    ));
    assert("readstat-v0.12.2-x86_64-pc-windows-msvc.zip"@.subrange(40, 43) =~= "zip"@);
    assert(crate::text::spec_rfind("readstat-v0.12.2-x86_64-unknown-linux-gnu.tar.gz"@, '.')
        == Some(45int));
    assert("readstat-v0.12.2-x86_64-unknown-linux-gnu.tar.gz"@.subrange(46, 48) =~= "gz"@);
    assert(crate::text::spec_rfind("readstat-v0.12.2-x86_64-unknown-linux-musl.tar.gz"@, '.')
        == Some(46int));
    assert("readstat-v0.12.2-x86_64-unknown-linux-musl.tar.gz"@.subrange(47, 49) =~= "gz"@);
}

/// Law: a triple outside the supported set resolves to no asset at all, so no
/// download can begin for it.
pub proof fn lemma_unsupported_target_rejected(t: Seq<char>)
    requires
        !is_supported_target(t),
    ensures
        spec_asset_for(t) is None,
{
}

/// Whether an architecture and operating-system pair is one the fixed download
/// table covers. `darwin` is accepted as an alias of `macos`.
pub open spec fn is_supported_pair(arch: Seq<char>, os: Seq<char>) -> bool {
    ||| (arch == "x86_64"@ && (os == "macos"@ || os == "darwin"@))
    ||| (arch == "aarch64"@ && (os == "macos"@ || os == "darwin"@))
    ||| (arch == "x86_64"@ && os == "windows"@)
    ||| (arch == "x86_64"@ && os == "linux"@)
}

/// The fixed release-download URL for an architecture and operating-system
/// pair, when the table has one.
pub open spec fn spec_release_url_for(arch: Seq<char>, os: Seq<char>) -> Option<Seq<char>> {
    if arch == "x86_64"@ && (os == "macos"@ || os == "darwin"@) {
        Some(
            "https://github.com/curtisalexander/readstat-rs/releases/download/v0.12.2/readstat-v0.12.2-x86_64-apple-darwin.tar.gz"@,
        )
    } else if arch == "aarch64"@ && (os == "macos"@ || os == "darwin"@) {
        Some(
            "https://github.com/curtisalexander/readstat-rs/releases/download/v0.12.2/readstat-v0.12.2-aarch64-apple-darwin.tar.gz"@,
        )
    } else if arch == "x86_64"@ && os == "windows"@ {
        Some(
            "https://github.com/curtisalexander/readstat-rs/releases/download/v0.12.2/readstat-v0.12.2-x86_64-pc-windows-msvc.zip"@,
        )
    } else if arch == "x86_64"@ && os == "linux"@ {
        Some(
            "https://github.com/curtisalexander/readstat-rs/releases/download/v0.12.2/readstat-v0.12.2-x86_64-unknown-linux-gnu.tar.gz"@,
        )
    } else {
        None
    }
}

/// Resolves an architecture and operating-system pair to the fixed download
/// URL of its release asset, failing exactly on the pairs the table lacks.
pub fn get_release_url(arch: &str, os: &str) -> (r: Result<&'static str, InstallError>)
    ensures
        match r {
            Ok(url) => is_supported_pair(arch@, os@) && spec_release_url_for(arch@, os@) == Some(
                url@,
            ),
            Err(e) => !is_supported_pair(arch@, os@) && spec_release_url_for(arch@, os@) is None
                && e == InstallError::UnsupportedPlatform,
        },
{
    let is_macos = str_eq(os, "macos") || str_eq(os, "darwin");
    if str_eq(arch, "x86_64") && is_macos {
        Ok(
            "https://github.com/curtisalexander/readstat-rs/releases/download/v0.12.2/readstat-v0.12.2-x86_64-apple-darwin.tar.gz",
        )
    } else if str_eq(arch, "aarch64") && is_macos {
        Ok(
            "https://github.com/curtisalexander/readstat-rs/releases/download/v0.12.2/readstat-v0.12.2-aarch64-apple-darwin.tar.gz",
        )
    } else if str_eq(arch, "x86_64") && str_eq(os, "windows") {
        Ok(
            "https://github.com/curtisalexander/readstat-rs/releases/download/v0.12.2/readstat-v0.12.2-x86_64-pc-windows-msvc.zip",
        )
    } else if str_eq(arch, "x86_64") && str_eq(os, "linux") {
        Ok(
            "https://github.com/curtisalexander/readstat-rs/releases/download/v0.12.2/readstat-v0.12.2-x86_64-unknown-linux-gnu.tar.gz",
        )
    } else {
        Err(InstallError::UnsupportedPlatform)
    }
}

/// Law: every supported architecture and operating-system pair resolves to a
/// download URL, and that URL is never empty.
pub proof fn lemma_supported_pair_resolves(arch: Seq<char>, os: Seq<char>)
    requires
        is_supported_pair(arch, os),
    ensures
        spec_release_url_for(arch, os) is Some,
        spec_release_url_for(arch, os) matches Some(url) ==> url.len() > 0,
{
    reveal_strlit(
        "https://github.com/curtisalexander/readstat-rs/releases/download/v0.12.2/readstat-v0.12.2-x86_64-apple-darwin.tar.gz",
    );
    reveal_strlit(
        "https://github.com/curtisalexander/readstat-rs/releases/download/v0.12.2/readstat-v0.12.2-aarch64-apple-darwin.tar.gz",
    );
    reveal_strlit(
        "https://github.com/curtisalexander/readstat-rs/releases/download/v0.12.2/readstat-v0.12.2-x86_64-pc-windows-msvc.zip",
    );
    reveal_strlit(
        "https://github.com/curtisalexander/readstat-rs/releases/download/v0.12.2/readstat-v0.12.2-x86_64-unknown-linux-gnu.tar.gz",
    );
}

/// Law: a pair outside the download table resolves to no URL at all.
pub proof fn lemma_unsupported_pair_rejected(arch: Seq<char>, os: Seq<char>)
    requires
        !is_supported_pair(arch, os),
    ensures
        spec_release_url_for(arch, os) is None,
{
}

} // verus!
