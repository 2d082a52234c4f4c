use vstd::prelude::*;

use crate::options::{Options, OptionsModel};

verus! {

/// What the path processor decides for one path, given the option set and
/// whether the target and its parent directory exist.  The decision is the
/// whole of the per-path logic; carrying it out (or skipping it) is left to
/// the caller.
#[derive(Debug, Clone, Copy, PartialEq, Eq, Structural)]
pub enum PathDecision {
    /// The target exists and overwriting is off: leave the file untouched.
    SkipExists,
    /// The parent directory is missing and creating parents is off.
    SkipNoParent,
    /// Dry run: report the action a normal run would take, touch nothing.
    Announce { replace: bool, with_parent: bool },
    /// Write the file, creating missing parents first when `make_parent`.
    Create { replace: bool, make_parent: bool },
}

/// The per-path decision tree.  An existing target without overwrite
/// permission is skipped before the parent is considered; a missing parent
/// without parents permission is skipped next; a dry run then only
/// announces; otherwise the file is written, with `replace` recording
/// whether an existing file is replaced and `make_parent` whether missing
/// parent directories must be created first.
pub open spec fn decide_model(
    o: OptionsModel,
    target_exists: bool,
    parent_exists: bool,
) -> PathDecision {
    if target_exists && !o.overwrite {
        PathDecision::SkipExists
    } else if !parent_exists && !o.create_parents {
        PathDecision::SkipNoParent
    } else if o.dry_run {
        PathDecision::Announce { replace: target_exists, with_parent: !parent_exists }
    } else {
        PathDecision::Create { replace: target_exists, make_parent: !parent_exists }
    }
}

/// Decides one path exactly as `decide_model` states.
pub fn decide_path(opts: &Options, target_exists: bool, parent_exists: bool) -> (d: PathDecision)
    ensures
        d == decide_model(opts@, target_exists, parent_exists),
{
    if target_exists && !opts.overwrite {
        PathDecision::SkipExists
    } else if !parent_exists && !opts.create_parents {
        PathDecision::SkipNoParent
    } else if opts.dry_run {
        PathDecision::Announce { replace: target_exists, with_parent: !parent_exists }
    } else {
        PathDecision::Create { replace: target_exists, make_parent: !parent_exists }
    }
}

/// The exact bytes written into a created or overwritten file: the default
/// text plus a trailing newline, or nothing when no default text was given.
pub open spec fn content_model(o: OptionsModel) -> Seq<char> {
    match o.default_text {
        Some(t) => t + "\n"@,
        None => Seq::empty(),
    }
}

/// Builds the file content exactly as `content_model` states.
pub fn file_content(opts: &Options) -> (r: String)
    ensures
        r@ == content_model(opts@),
{
    match &opts.default_text {
        Some(t) => {
            let mut s = t.clone();
            s.append("\n");
            s
        },
        None => String::new(),
    }
}

} // verus!
