use vstd::prelude::*;

use crate::decide::{content_model, decide_model, PathDecision};
use crate::messages::wrong_options_model;
use crate::options::{OptionsModel, ParsedModel};
use crate::plan::{plan_model, RunPlanModel};
use crate::tokenize::{
    all_dashes, apply_idents, classify, long_ident, parse_tokens, push_wrong, short_idents,
    with_dry, with_overwrite, with_parents, with_text, with_verbose, OutcomeModel, TokenClass,
};

verus! {

/// A token list whose every token is empty or begins with a dash adds no
/// path argument: whatever path list the tokenizer started from, it ends
/// with the same one.
pub proof fn parse_keeps_paths(toks: Seq<Seq<char>>, st: ParsedModel)
    requires
        forall|i: int| 0 <= i < toks.len() ==> (toks[i].len() == 0 || toks[i][0] == '-'),
    ensures
        parse_tokens(toks, st) matches OutcomeModel::Parsed(p) ==> p.paths == st.paths,
    decreases toks.len(), 0nat,
{
    if toks.len() == 0 {
    } else {
        let t = toks[0];
        assert forall|i: int| 0 <= i < toks.skip(1).len() implies (toks.skip(1)[i].len() == 0
            || toks.skip(1)[i][0] == '-') by {
            assert(toks.skip(1)[i] == toks[i + 1]);
        }
        match classify(t) {
            TokenClass::Invalid => {
                parse_keeps_paths(toks.skip(1), push_wrong(st, t));
            },
            TokenClass::LongOption => {
                apply_keeps_paths(seq![long_ident(t)], toks.skip(1), st);
            },
            TokenClass::ShortCluster => {
                apply_keeps_paths(short_idents(t), toks.skip(1), st);
            },
            TokenClass::PathArg => {
                if t.len() == 0 {
                    assert(all_dashes(t));
                }
                assert(false);
            },
        }
    }
}

/// Companion to `parse_keeps_paths` for the identifiers of one option
/// token: applying them never adds a path argument either, even where one
/// of them consumes the following token as the default text.
pub proof fn apply_keeps_paths(ids: Seq<Seq<char>>, rest: Seq<Seq<char>>, st: ParsedModel)
    requires
        forall|i: int| 0 <= i < rest.len() ==> (rest[i].len() == 0 || rest[i][0] == '-'),
    ensures
        apply_idents(ids, rest, st) matches OutcomeModel::Parsed(p) ==> p.paths == st.paths,
    decreases rest.len(), ids.len() + 1,
{
    if ids.len() == 0 {
        parse_keeps_paths(rest, st);
    } else {
        let id = ids[0];
        if id == "d"@ || id == "dry"@ {
            apply_keeps_paths(ids.skip(1), rest, with_dry(st));
        } else if id == "v"@ || id == "verbose"@ {
            apply_keeps_paths(ids.skip(1), rest, with_verbose(st));
        } else if id == "p"@ || id == "parents"@ {
            apply_keeps_paths(ids.skip(1), rest, with_parents(st));
        } else if id == "o"@ || id == "overwrite"@ {
            apply_keeps_paths(ids.skip(1), rest, with_overwrite(st));
        } else if id == "T"@ || id == "text"@ {
            if st.options.default_text is Some {
            } else if rest.len() == 0 {
            } else {
                assert forall|i: int| 0 <= i < rest.skip(1).len() implies (rest.skip(1)[i].len()
                    == 0 || rest.skip(1)[i][0] == '-') by {
                    assert(rest.skip(1)[i] == rest[i + 1]);
                }
                apply_keeps_paths(ids.skip(1), rest.skip(1), with_text(st, rest[0]));
            }
        } else if id == "help"@ {
        } else if id == "version"@ {
        } else {
            apply_keeps_paths(ids.skip(1), rest, push_wrong(st, id));
        }
    }
}

/// An invocation made of option tokens alone — valid or not — never
/// processes a path, so it plans no file creation at all.
pub proof fn lemma_options_only_no_processing(toks: Seq<Seq<char>>)
    requires
        forall|i: int| 0 <= i < toks.len() ==> (toks[i].len() == 0 || toks[i][0] == '-'),
    ensures
        !(plan_model(toks) is Process),
{
    parse_keeps_paths(toks, ParsedModel::init());
}

/// The validator's rule: whenever the tokenizer ran to completion and
/// collected any unrecognized option, the whole run is rejected with the
/// unrecognized-option error; conversely, paths are only ever processed
/// when every option was recognized.
pub proof fn lemma_unrecognized_rejects_run(toks: Seq<Seq<char>>)
    ensures
        (parse_tokens(toks, ParsedModel::init()) is Parsed && parse_tokens(
            toks,
            ParsedModel::init(),
        )->Parsed_0.wrong_options.len() > 0) ==> plan_model(toks) == RunPlanModel::UsageError(
            wrong_options_model(parse_tokens(toks, ParsedModel::init())->Parsed_0.wrong_options),
        ),
        plan_model(toks) is Process ==> (parse_tokens(toks, ParsedModel::init()) is Parsed
            && parse_tokens(toks, ParsedModel::init())->Parsed_0.wrong_options.len() == 0),
{
}

/// A `--help` first token short-circuits the whole invocation to printing
/// the usage text, whatever follows it.
pub proof fn lemma_help_short_circuits(toks: Seq<Seq<char>>)
    requires
        toks.len() >= 1,
        toks[0] == "--help"@,
    ensures
        plan_model(toks) == RunPlanModel::PrintHelp,
{
    reveal_strlit("--help");
    reveal_strlit("help");
    let t = toks[0];
    assert(t.len() == 6);
    assert(t[2] == 'h');
    assert(!all_dashes(t));
    assert(classify(t) == TokenClass::LongOption);
    assert(long_ident(t) =~= "help"@);
    let ids = seq![long_ident(t)];
    let id = ids[0];
    reveal_strlit("d");
    reveal_strlit("dry");
    reveal_strlit("v");
    reveal_strlit("verbose");
    reveal_strlit("p");
    reveal_strlit("parents");
    reveal_strlit("o");
    reveal_strlit("overwrite");
    reveal_strlit("T");
    reveal_strlit("text");
    assert(id.len() == 4);
    assert(id != "d"@ && id != "dry"@ && id != "v"@ && id != "verbose"@);
    assert(id != "p"@ && id != "parents"@ && id != "o"@ && id != "overwrite"@);
    assert(id != "T"@);
    assert(id[0] == 'h' && "text"@[0] == 't');
    assert(id != "text"@);
    assert(apply_idents(ids, toks.skip(1), ParsedModel::init()) == OutcomeModel::Help);
    assert(parse_tokens(toks, ParsedModel::init()) == OutcomeModel::Help);
}

/// A `--version` first token likewise short-circuits the whole invocation
/// to printing the version banner, whatever follows it.
pub proof fn lemma_version_short_circuits(toks: Seq<Seq<char>>)
    requires
        toks.len() >= 1,
        toks[0] == "--version"@,
    ensures
        plan_model(toks) == RunPlanModel::PrintVersion,
{
    reveal_strlit("--version");
    reveal_strlit("version");
    let t = toks[0];
    assert(t.len() == 9);
    assert(t[2] == 'v');
    assert(!all_dashes(t));
    assert(classify(t) == TokenClass::LongOption);
    assert(long_ident(t) =~= "version"@);
    let ids = seq![long_ident(t)];
    let id = ids[0];
    reveal_strlit("d");
    reveal_strlit("dry");
    reveal_strlit("v");
    reveal_strlit("verbose");
    reveal_strlit("p");
    reveal_strlit("parents");
    reveal_strlit("o");
    reveal_strlit("overwrite");
    reveal_strlit("T");
    reveal_strlit("text");
    reveal_strlit("help");
    assert(id.len() == 7);
    assert(id != "d"@ && id != "dry"@ && id != "v"@ && id != "p"@ && id != "o"@);
    assert(id != "T"@ && id != "text"@ && id != "help"@ && id != "overwrite"@);
    assert(id[0] == 'v' && "parents"@[0] == 'p');
    assert(id != "parents"@);
    assert(id[3] == 's' && "verbose"@[3] == 'b');
    assert(id != "verbose"@);
    assert(apply_idents(ids, toks.skip(1), ParsedModel::init()) == OutcomeModel::Version);
    assert(parse_tokens(toks, ParsedModel::init()) == OutcomeModel::Version);
}

/// A path that does not exist yet and whose parent exists is written on a
/// normal run, and the content written is the default text with a trailing
/// newline, or empty when no default text was supplied.
pub proof fn lemma_new_file_content(o: OptionsModel)
    requires
        !o.dry_run,
    ensures
        decide_model(o, false, true) == (PathDecision::Create {
            replace: false,
            make_parent: false,
        }),
        o.default_text matches Some(t) ==> content_model(o) == t + "\n"@,
        o.default_text is None ==> content_model(o) == Seq::<char>::empty(),
{
}

/// A target that already exists is skipped untouched whenever overwriting
/// is off, whatever the other options and the parent directory say.
pub proof fn lemma_existing_target_untouched(o: OptionsModel, parent_exists: bool)
    requires
        !o.overwrite,
    ensures
        decide_model(o, true, parent_exists) == PathDecision::SkipExists,
{
}

/// With parents permission, a path whose parent directory is missing has
/// the parents created and the file written on a normal run; on a dry run
/// the same intent is only announced and nothing is created.
pub proof fn lemma_missing_parents(o: OptionsModel, target_exists: bool)
    requires
        o.create_parents,
        target_exists ==> o.overwrite,
    ensures
        !o.dry_run ==> decide_model(o, target_exists, false) == (PathDecision::Create {
            replace: target_exists,
            make_parent: true,
        }),
        o.dry_run ==> decide_model(o, target_exists, false) == (PathDecision::Announce {
            replace: target_exists,
            with_parent: true,
        }),
{
}

/// Idempotence of a run without overwrite permission: a path whose first
/// run decided to create the file — which then exists — is decided as
/// skipped-for-existing by an identical second run.
pub proof fn lemma_second_run_skips(
    o: OptionsModel,
    parent_before: bool,
    parent_after: bool,
)
    requires
        !o.overwrite,
        decide_model(o, false, parent_before) is Create,
    ensures
        decide_model(o, true, parent_after) == PathDecision::SkipExists,
{
}

} // verus!
