use vstd::prelude::*;

verus! {

// ---------------------------------------------------------------------------
// Fixed messages
// ---------------------------------------------------------------------------

pub open spec fn duplicate_text_model() -> Seq<char> {
    "Error! Multiple default text options are not supported."@
}

pub open spec fn missing_text_model() -> Seq<char> {
    "Error! Default text was not provided."@
}

pub open spec fn no_paths_model() -> Seq<char> {
    "Warning! No files were provided. To get a hint use --help.\n"@
}

/// The error reported when a second default text is supplied.
pub fn duplicate_text_message() -> (r: String)
    ensures
        r@ == duplicate_text_model(),
{
    "Error! Multiple default text options are not supported.".to_owned()
}

/// The error reported when `-T`/`--text` has no following token.
pub fn missing_text_message() -> (r: String)
    ensures
        r@ == missing_text_model(),
{
    "Error! Default text was not provided.".to_owned()
}

/// The warning printed when the invocation names no path at all.
pub fn no_paths_message() -> (r: String)
    ensures
        r@ == no_paths_model(),
{
    "Warning! No files were provided. To get a hint use --help.\n".to_owned()
}

// ---------------------------------------------------------------------------
// The unrecognized-option report
// ---------------------------------------------------------------------------

/// The unrecognized tokens joined with `", "`.
pub open spec fn joined(ws: Seq<Seq<char>>) -> Seq<char>
    decreases ws.len(),
{
    if ws.len() == 0 {
        Seq::empty()
    } else if ws.len() == 1 {
        ws[0]
    } else {
        joined(ws.drop_last()) + ", "@ + ws.last()
    }
}

/// The whole-run error for unrecognized options, phrased in the singular
/// for one offender and in the plural otherwise.
pub open spec fn wrong_options_model(ws: Seq<Seq<char>>) -> Seq<char> {
    if ws.len() == 1 {
        "Error! Wrong option: "@ + ws[0] + "."@
    } else {
        "Error! Wrong options: "@ + joined(ws) + "."@
    }
}

fn join_comma(ws: &Vec<String>) -> (r: String)
    ensures
        r@ == joined(ws.deep_view()),
{
    let ghost dv = ws.deep_view();
    let mut r = String::new();
    let mut k: usize = 0;
    while k < ws.len()
        invariant
            k <= ws@.len(),
            dv == ws.deep_view(),
            r@ == joined(dv.take(k as int)),
        decreases ws@.len() - k,
    {
        if k > 0 {
            r.append(", ");
        }
        r.append(ws[k].as_str());
        proof {
            assert(dv[k as int] == ws@[k as int]@);
            if k == 0 {
                assert(dv.take(1int)[0] == dv[0]);
                assert(r@ =~= joined(dv.take(1int)));
            } else {
                assert(dv.take(k as int + 1).drop_last() =~= dv.take(k as int));
                assert(dv.take(k as int + 1).last() == dv[k as int]);
                assert(r@ =~= joined(dv.take(k as int + 1)));
            }
        }
        k += 1;
    }
    proof {
        assert(dv.take(ws@.len() as int) =~= dv);
    }
    r
}

/// Builds the unrecognized-option error exactly as `wrong_options_model`
/// states it.
pub fn wrong_options_message(ws: &Vec<String>) -> (r: String)
    ensures
        r@ == wrong_options_model(ws.deep_view()),
{
    if ws.len() == 1 {
        let mut r = "Error! Wrong option: ".to_owned();
        r.append(ws[0].as_str());
        r.append(".");
        proof {
            assert(ws.deep_view()[0] == ws@[0]@);
        }
        r
    } else {
        let joined_text = join_comma(ws);
        let mut r = "Error! Wrong options: ".to_owned();
        r.append(joined_text.as_str());
        r.append(".");
        r
    }
}

// ---------------------------------------------------------------------------
// Per-path messages
// ---------------------------------------------------------------------------

pub open spec fn exists_message_model(path: Seq<char>) -> Seq<char> {
    path + ": Already exist"@
}

/// The message for a target that already exists while overwriting is off.
pub fn exists_message(path: &str) -> (r: String)
    ensures
        r@ == exists_message_model(path@),
{
    let mut r = path.to_owned();
    r.append(": Already exist");
    r
}

pub open spec fn no_parent_message_model(path: Seq<char>) -> Seq<char> {
    path + ": Parent does not exist"@
}

/// The message for a missing parent directory while creating parents is off.
pub fn no_parent_message(path: &str) -> (r: String)
    ensures
        r@ == no_parent_message_model(path@),
{
    let mut r = path.to_owned();
    r.append(": Parent does not exist");
    r
}

pub open spec fn announce_message_model(
    path: Seq<char>,
    replace: bool,
    with_parent: bool,
) -> Seq<char> {
    path + ": To be "@ + (if replace {
        "overwritten"@
    } else {
        "created"@
    }) + " "@ + (if with_parent {
        "with parent"@
    } else {
        Seq::empty()
    })
}

/// The dry-run report of the action that a normal run would take.
pub fn announce_message(path: &str, replace: bool, with_parent: bool) -> (r: String)
    ensures
        r@ == announce_message_model(path@, replace, with_parent),
{
    let mut r = path.to_owned();
    r.append(": To be ");
    if replace {
        r.append("overwritten");
    } else {
        r.append("created");
    }
    r.append(" ");
    if with_parent {
        r.append("with parent");
    }
    proof {
        assert(r@ =~= announce_message_model(path@, replace, with_parent));
    }
    r
}

pub open spec fn done_message_model(
    path: Seq<char>,
    replaced: bool,
    with_parent: bool,
) -> Seq<char> {
    path + ": "@ + (if replaced {
        "Overwritten"@
    } else {
        "Created"@
    }) + " "@ + (if with_parent {
        "with parent"@
    } else {
        Seq::empty()
    })
}

/// The verbose success message after a file was written.
pub fn done_message(path: &str, replaced: bool, with_parent: bool) -> (r: String)
    ensures
        r@ == done_message_model(path@, replaced, with_parent),
{
    let mut r = path.to_owned();
    r.append(": ");
    if replaced {
        r.append("Overwritten");
    } else {
        r.append("Created");
    }
    r.append(" ");
    if with_parent {
        r.append("with parent");
    }
    proof {
        assert(r@ =~= done_message_model(path@, replaced, with_parent));
    }
    r
}

} // verus!
