//! Where the build server keeps the nightly build of a plugin.

use vstd::prelude::*;
use vstd::string::StringExecFns;
use crate::text::same_text;

verus! {

/// The address of the directory of nightly builds.
pub open spec fn nightly_url() -> Seq<char> {
    "https://buildbot.libretro.com/nightly"@
}

/// The address of the directory of nightly builds.
pub fn buildbot_base_url() -> (r: String)
    ensures
        r@ == nightly_url(),
{
    String::from_str("https://buildbot.libretro.com/nightly")
}

/// The directories, below the nightly builds, that hold the builds for an
/// operating system, where the build server has any for it.
pub open spec fn os_segments(os: Seq<char>) -> Option<Seq<Seq<char>>> {
    if os == "windows"@ {
        Some(seq!["windows"@])
    } else if os == "linux"@ {
        Some(seq!["linux"@])
    } else if os == "macos"@ {
        Some(seq!["apple"@, "osx"@])
    } else {
        None
    }
}

/// Whether the build server builds for this processor on this operating
/// system: for `x86` and `x86_64` everywhere, for `arm64` on macOS only.
pub open spec fn builds_for(os: Seq<char>, arch: Seq<char>) -> bool {
    arch == "x86"@ || arch == "x86_64"@ || (os == "macos"@ && arch == "arm64"@)
}

/// The path segments, below the address of the nightly builds, of the
/// archive that holds `library_name`.
pub open spec fn library_segments(os: Seq<char>, arch: Seq<char>, library_name: Seq<char>) -> Option<
    Seq<Seq<char>>,
> {
    match os_segments(os) {
        Some(dirs) => if builds_for(os, arch) {
            Some(dirs + seq![arch, "latest"@, library_name + ".zip"@])
        } else {
            None
        },
        None => None,
    }
}

/// The views of a vector of strings.
pub open spec fn string_views(strings: Seq<String>) -> Seq<Seq<char>> {
    Seq::new(strings.len(), |i: int| strings[i]@)
}

/// The path segments, below the address of the nightly builds, of the
/// archive that holds the library `library_name` built for the operating
/// system `os` and the processor `arch`. `None` where the build server has
/// no builds for that platform.
pub fn buildbot_url_for_library(os: &str, arch: &str, library_name: &str) -> (r: Option<
    Vec<String>,
>)
    ensures
        match r {
            Some(segments) => library_segments(os@, arch@, library_name@) == Some(
                string_views(segments@),
            ),
            None => library_segments(os@, arch@, library_name@) is None,
        },
{
    proof {
        lemma_platform_names_differ();
    }
    let mut path: Vec<String> = Vec::new();
    let x86 = same_text(arch, "x86") || same_text(arch, "x86_64");
    if same_text(os, "windows") {
        path.push(String::from_str("windows"));
        if !x86 {
            return None;
        }
    } else if same_text(os, "linux") {
        path.push(String::from_str("linux"));
        if !x86 {
            return None;
        }
    } else if same_text(os, "macos") {
        path.push(String::from_str("apple"));
        path.push(String::from_str("osx"));
        if !x86 && !same_text(arch, "arm64") {
            return None;
        }
    } else {
        return None;
    }
    path.push(String::from_str(arch));
    path.push(String::from_str("latest"));
    path.push(String::from_str(library_name).concat(".zip"));
    assert(string_views(path@) =~= library_segments(os@, arch@, library_name@)->0);
    Some(path)
}

/// The names of the operating systems are three names.
pub proof fn lemma_platform_names_differ()
    ensures
        "windows"@ != "linux"@,
        "windows"@ != "macos"@,
        "linux"@ != "macos"@,
{
    reveal_strlit("windows");
    reveal_strlit("linux");
    reveal_strlit("macos");
    assert("windows"@.len() == 7);
    assert("linux"@.len() == 5);
    assert("macos"@[0] == 'm');
    assert("linux"@[0] == 'l');
}

} // verus!
