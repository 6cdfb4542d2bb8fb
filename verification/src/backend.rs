//! Identity of the backend executable and the fixed commands that touch it.
//! The host runs these commands; their exact shape is pinned here.

use vstd::prelude::*;

verus! {

/// Image name the terminate command matches processes against.
pub open spec fn backend_image() -> Seq<char> {
    "outprioAPI.exe"@
}

/// Relative path the backend is spawned from.
pub open spec fn backend_path() -> Seq<char> {
    "bin/outprioAPI.exe"@
}

/// The OS tool that performs a forceful, tree-wide terminate by image name.
pub open spec fn terminate_tool() -> Seq<char> {
    "taskkill"@
}

/// Image name of the backend executable.
pub fn backend_image_name() -> (r: &'static str)
    ensures
        r@ == backend_image(),
{
    "outprioAPI.exe"
}

/// Path the backend is launched from, relative to the shell's directory.
pub fn backend_launch_path() -> (r: &'static str)
    ensures
        r@ == backend_path(),
{
    "bin/outprioAPI.exe"
}

/// Program that terminates the backend.
pub fn terminate_program() -> (r: &'static str)
    ensures
        r@ == terminate_tool(),
{
    "taskkill"
}

/// Arguments of the terminate command: match by the backend's image name,
/// forcefully, over the whole process tree.
pub fn terminate_arguments() -> (args: Vec<&'static str>)
    ensures
        args@.len() == 4,
        args@[0]@ == "/IM"@,
        args@[1]@ == backend_image(),
        args@[2]@ == "/F"@,
        args@[3]@ == "/T"@,
{
    let mut args: Vec<&'static str> = Vec::new();
    args.push("/IM");
    args.push("outprioAPI.exe");
    args.push("/F");
    args.push("/T");
    args
}

} // verus!
