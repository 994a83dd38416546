//! Build targets: the platforms a project can be built for.

use crate::text::{copy_text, same_text};
use vstd::prelude::*;
use vstd::string::*;

verus! {

/// A platform identifier with what the build has to know about it.
pub struct BuildTarget {
    /// The identifier, as the descriptor names the target.
    pub name: String,
    /// The target is built with the Windows MSVC toolchain, which the build
    /// engine can only run outside its sandbox.
    pub windows_msvc: bool,
    /// The target links the musl C library statically.
    pub static_musl: bool,
    /// The identifier is one that the lookup table holds.
    pub recognized: bool,
}

/// What a `BuildTarget` is, to a contract.
pub struct BuildTargetModel {
    pub name: Seq<char>,
    pub windows_msvc: bool,
    pub static_musl: bool,
    pub recognized: bool,
}

impl DeepView for BuildTarget {
    type V = BuildTargetModel;

    open spec fn deep_view(&self) -> BuildTargetModel {
        BuildTargetModel {
            name: self.name@,
            windows_msvc: self.windows_msvc,
            static_musl: self.static_musl,
            recognized: self.recognized,
        }
    }
}

/// The target is built with the Windows MSVC toolchain.
pub open spec fn is_windows_msvc(name: Seq<char>) -> bool {
    name == "x86_64-pc-windows-msvc"@
}

/// The target links the musl C library statically.
pub open spec fn is_static_musl(name: Seq<char>) -> bool {
    name == "x86_64-linux-musl"@ || name == "aarch64-linux-musl"@
}

/// The identifiers of the lookup table.
pub open spec fn is_recognized(name: Seq<char>) -> bool {
    ||| name == "x86_64-linux-gnu"@
    ||| name == "aarch64-linux-gnu"@
    ||| name == "x86_64-linux-musl"@
    ||| name == "aarch64-linux-musl"@
    ||| name == "x86_64-w64-mingw32"@
    ||| name == "x86_64-pc-windows-msvc"@
    ||| name == "aarch64-w64-mingw32"@
}

/// The identifiers that a build may be asked for: those of the lookup table
/// and the two of macOS.
pub open spec fn is_available(name: Seq<char>) -> bool {
    ||| is_recognized(name)
    ||| name == "x86_64-apple-darwin"@
    ||| name == "aarch64-apple-darwin"@
}

/// The target that `name` stands for. An identifier outside the lookup
/// table is no error: it passes through without special flags.
pub open spec fn target_of(name: Seq<char>) -> BuildTargetModel {
    BuildTargetModel {
        name,
        windows_msvc: is_windows_msvc(name),
        static_musl: is_static_musl(name),
        recognized: is_recognized(name),
    }
}

/// Whether the lookup table holds `name`.
pub fn recognizes(name: &str) -> (r: bool)
    ensures
        r == is_recognized(name@),
{
    same_text(name, "x86_64-linux-gnu") || same_text(name, "aarch64-linux-gnu") || same_text(
        name,
        "x86_64-linux-musl",
    ) || same_text(name, "aarch64-linux-musl") || same_text(name, "x86_64-w64-mingw32")
        || same_text(name, "x86_64-pc-windows-msvc") || same_text(name, "aarch64-w64-mingw32")
}

/// Looks `target` up in the table of known platforms.
pub fn parse_target(target: &str) -> (r: BuildTarget)
    ensures
        r.deep_view() == target_of(target@),
{
    BuildTarget {
        name: copy_text(target),
        windows_msvc: same_text(target, "x86_64-pc-windows-msvc"),
        static_musl: same_text(target, "x86_64-linux-musl") || same_text(
            target,
            "aarch64-linux-musl",
        ),
        recognized: recognizes(target),
    }
}

/// Whether a build may be asked for `name`.
pub fn is_available_target(name: &str) -> (r: bool)
    ensures
        r == is_available(name@),
{
    recognizes(name) || same_text(name, "x86_64-apple-darwin") || same_text(
        name,
        "aarch64-apple-darwin",
    )
}

/// The identifiers that a build may be asked for, in the order in which
/// they are listed to the user.
pub open spec fn available_names() -> Seq<Seq<char>> {
    seq![
        "x86_64-linux-gnu"@,
        "aarch64-linux-gnu"@,
        "x86_64-linux-musl"@,
        "aarch64-linux-musl"@,
        "x86_64-w64-mingw32"@,
        "x86_64-pc-windows-msvc"@,
        "aarch64-w64-mingw32"@,
        "x86_64-apple-darwin"@,
        "aarch64-apple-darwin"@,
    ]
}

/// The identifiers that a build may be asked for.
pub fn available_targets() -> (r: Vec<String>)
    ensures
        r.deep_view() == available_names(),
        forall|i: int| 0 <= i < r.len() ==> is_available(#[trigger] r[i]@),
{
    let mut r: Vec<String> = Vec::new();
    r.push(String::from_str("x86_64-linux-gnu"));
    r.push(String::from_str("aarch64-linux-gnu"));
    r.push(String::from_str("x86_64-linux-musl"));
    r.push(String::from_str("aarch64-linux-musl"));
    r.push(String::from_str("x86_64-w64-mingw32"));
    r.push(String::from_str("x86_64-pc-windows-msvc"));
    r.push(String::from_str("aarch64-w64-mingw32"));
    r.push(String::from_str("x86_64-apple-darwin"));
    r.push(String::from_str("aarch64-apple-darwin"));
    assert(r.deep_view() =~= available_names());
    r
}

/// What a target is, in words.
pub open spec fn description_of(name: Seq<char>) -> Seq<char> {
    if name == "x86_64-linux-gnu"@ {
        "Linux x86_64 (GNU libc, dynamic)"@
    } else if name == "aarch64-linux-gnu"@ {
        "Linux ARM64/AArch64 (GNU libc, dynamic)"@
    } else if name == "x86_64-linux-musl"@ {
        "Linux x86_64 (musl libc, static)"@
    } else if name == "aarch64-linux-musl"@ {
        "Linux ARM64/AArch64 (musl libc, static)"@
    } else if name == "x86_64-w64-mingw32"@ {
        "Windows x86_64 (MinGW-w64/GNU)"@
    } else if name == "x86_64-pc-windows-msvc"@ {
        "Windows x86_64 (MSVC toolchain)"@
    } else if name == "aarch64-w64-mingw32"@ {
        "Windows ARM64 (MinGW-w64/GNU, experimental)"@
    } else if name == "x86_64-apple-darwin"@ {
        "macOS x86_64 (Intel)"@
    } else if name == "aarch64-apple-darwin"@ {
        "macOS ARM64 (Apple Silicon)"@
    } else {
        "Unknown target"@
    }
}

/// What a target is, in words.
pub fn target_description(name: &str) -> (r: &'static str)
    ensures
        r@ == description_of(name@),
{
    if same_text(name, "x86_64-linux-gnu") {
        "Linux x86_64 (GNU libc, dynamic)"
    } else if same_text(name, "aarch64-linux-gnu") {
        "Linux ARM64/AArch64 (GNU libc, dynamic)"
    } else if same_text(name, "x86_64-linux-musl") {
        "Linux x86_64 (musl libc, static)"
    } else if same_text(name, "aarch64-linux-musl") {
        "Linux ARM64/AArch64 (musl libc, static)"
    } else if same_text(name, "x86_64-w64-mingw32") {
        "Windows x86_64 (MinGW-w64/GNU)"
    } else if same_text(name, "x86_64-pc-windows-msvc") {
        "Windows x86_64 (MSVC toolchain)"
    } else if same_text(name, "aarch64-w64-mingw32") {
        "Windows ARM64 (MinGW-w64/GNU, experimental)"
    } else if same_text(name, "x86_64-apple-darwin") {
        "macOS x86_64 (Intel)"
    } else if same_text(name, "aarch64-apple-darwin") {
        "macOS ARM64 (Apple Silicon)"
    } else {
        "Unknown target"
    }
}

/// The target of the machine that runs the build, by its architecture and
/// operating system as Rust names them. A machine outside the table builds
/// for x86_64 Linux.
pub open spec fn host_target_of(arch: Seq<char>, os: Seq<char>) -> Seq<char> {
    if arch == "x86_64"@ && os == "linux"@ {
        "x86_64-linux-gnu"@
    } else if arch == "aarch64"@ && os == "linux"@ {
        "aarch64-linux-gnu"@
    } else if arch == "x86_64"@ && os == "windows"@ {
        "x86_64-w64-mingw32"@
    } else if arch == "x86_64"@ && os == "macos"@ {
        "x86_64-apple-darwin"@
    } else if arch == "aarch64"@ && os == "macos"@ {
        "aarch64-apple-darwin"@
    } else {
        "x86_64-linux-gnu"@
    }
}

/// The target of the machine that runs the build.
pub fn get_host_target(arch: &str, os: &str) -> (r: &'static str)
    ensures
        r@ == host_target_of(arch@, os@),
{
    let x86 = same_text(arch, "x86_64");
    let arm = same_text(arch, "aarch64");
    if x86 && same_text(os, "linux") {
        "x86_64-linux-gnu"
    } else if arm && same_text(os, "linux") {
        "aarch64-linux-gnu"
    } else if x86 && same_text(os, "windows") {
        "x86_64-w64-mingw32"
    } else if x86 && same_text(os, "macos") {
        "x86_64-apple-darwin"
    } else if arm && same_text(os, "macos") {
        "aarch64-apple-darwin"
    } else {
        "x86_64-linux-gnu"
    }
}

/// Checks that a build may be asked for each of `targets`; else returns the
/// position of the first for which it may not.
pub fn check_targets(targets: &Vec<String>) -> (r: Result<(), usize>)
    ensures
        r is Ok <==> forall|i: int| 0 <= i < targets.len() ==> is_available(#[trigger] targets[i]@),
        r matches Err(k) ==> {
            &&& k < targets.len()
            &&& !is_available(targets[k as int]@)
            &&& forall|i: int| 0 <= i < k ==> is_available(#[trigger] targets[i]@)
        },
{
    let mut i: usize = 0;
    while i < targets.len()
        invariant
            i <= targets.len(),
            forall|j: int| 0 <= j < i ==> is_available(#[trigger] targets[j]@),
        decreases targets.len() - i,
    {
        if !is_available_target(targets[i].as_str()) {
            return Err(i);
        }
        i += 1;
    }
    Ok(())
}

} // verus!
