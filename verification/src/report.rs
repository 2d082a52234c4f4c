use vstd::prelude::*;

verus! {

/// The usage text, one element per printed line.
pub open spec fn help_lines_model() -> Seq<Seq<char>> {
    seq![
        "Usage: mkfile [OPTION]... PATH..."@,
        "Create file(s), if they do not already exist.\n"@,
        "Options:"@,
        "-d --dry            perform \"dry\" run, always verbose"@,
        "-v --verbose        print a message for each file"@,
        "-p --parents        create parent directories recursively"@,
        "-o --overwrite      overwrite already existing files"@,
        "-T --text \"STRING\"  default text for every file"@,
        "   --help           display this help and exit"@,
        "   --version        output version information and exit"@,
    ]
}

/// Builds the usage text exactly as `help_lines_model` states, one string
/// per line to print.
pub fn help_lines() -> (r: Vec<String>)
    ensures
        r.deep_view() == help_lines_model(),
{
    let mut v: Vec<String> = Vec::new();
    v.push("Usage: mkfile [OPTION]... PATH...".to_owned());
    v.push("Create file(s), if they do not already exist.\n".to_owned());
    v.push("Options:".to_owned());
    v.push("-d --dry            perform \"dry\" run, always verbose".to_owned());
    v.push("-v --verbose        print a message for each file".to_owned());
    v.push("-p --parents        create parent directories recursively".to_owned());
    v.push("-o --overwrite      overwrite already existing files".to_owned());
    v.push("-T --text \"STRING\"  default text for every file".to_owned());
    v.push("   --help           display this help and exit".to_owned());
    v.push("   --version        output version information and exit".to_owned());
    proof {
        assert(v.deep_view() =~= help_lines_model());
    }
    v
}

pub open spec fn version_model() -> Seq<char> {
    "mkfile v0.1.0"@
}

/// The version banner.
pub fn version_line() -> (r: String)
    ensures
        r@ == version_model(),
{
    "mkfile v0.1.0".to_owned()
}

} // verus!
