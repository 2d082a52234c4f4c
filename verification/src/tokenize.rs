use vstd::prelude::*;

use crate::options::{OptionsModel, ParsedArguments, ParsedModel};
use crate::strutil::str_eq;

verus! {

// ---------------------------------------------------------------------------
// Token classification
// ---------------------------------------------------------------------------

/// How a single raw token is read: a token of nothing but `-` characters
/// (including the empty token) is invalid; `--` followed by more text names
/// one long option; `-` followed by more text is a cluster of one-character
/// short options; anything else is a path argument.
#[derive(Debug, Clone, Copy, PartialEq, Eq, Structural)]
pub enum TokenClass {
    Invalid,
    LongOption,
    ShortCluster,
    PathArg,
}

/// Every character of `t` is a dash.  Holds vacuously for the empty token.
pub open spec fn all_dashes(t: Seq<char>) -> bool {
    forall|k: int| 0 <= k < t.len() ==> t[k] == '-'
}

/// The classification rule applied to a token's characters.
pub open spec fn classify(t: Seq<char>) -> TokenClass {
    if all_dashes(t) {
        TokenClass::Invalid
    } else if t.len() >= 2 && t[0] == '-' && t[1] == '-' {
        TokenClass::LongOption
    } else if t.len() >= 1 && t[0] == '-' {
        TokenClass::ShortCluster
    } else {
        TokenClass::PathArg
    }
}

/// The option identifier named by a long-option token: everything after the
/// leading `--`.
pub open spec fn long_ident(t: Seq<char>) -> Seq<char> {
    t.skip(2)
}

/// The option identifiers named by a short-cluster token: one one-character
/// identifier per character after the leading `-`.
pub open spec fn short_idents(t: Seq<char>) -> Seq<Seq<char>> {
    Seq::new((t.len() - 1) as nat, |k: int| seq![t[k + 1]])
}

fn is_all_dashes(t: &str) -> (b: bool)
    ensures
        b == all_dashes(t@),
{
    let n = t.unicode_len();
    let mut j: usize = 0;
    while j < n
        invariant
            j <= n,
            n == t@.len(),
            forall|k: int| 0 <= k < j ==> t@[k] == '-',
        decreases n - j,
    {
        if t.get_char(j) != '-' {
            return false;
        }
        j += 1;
    }
    true
}

/// Classifies one raw token exactly as `classify` does on its characters.
pub fn classify_token(t: &str) -> (c: TokenClass)
    ensures
        c == classify(t@),
{
    if is_all_dashes(t) {
        return TokenClass::Invalid;
    }
    proof {
        if t@.len() == 0 {
            assert(all_dashes(t@));
        }
    }
    let n = t.unicode_len();
    if n >= 2 && t.get_char(0) == '-' && t.get_char(1) == '-' {
        TokenClass::LongOption
    } else if t.get_char(0) == '-' {
        TokenClass::ShortCluster
    } else {
        TokenClass::PathArg
    }
}

// ---------------------------------------------------------------------------
// The tokenizer's state transitions, in the model
// ---------------------------------------------------------------------------

pub open spec fn with_dry(st: ParsedModel) -> ParsedModel {
    ParsedModel {
        options: OptionsModel {
            dry_run: true,
            verbose: st.options.verbose,
            create_parents: st.options.create_parents,
            overwrite: st.options.overwrite,
            default_text: st.options.default_text,
        },
        wrong_options: st.wrong_options,
        paths: st.paths,
    }
}

pub open spec fn with_verbose(st: ParsedModel) -> ParsedModel {
    ParsedModel {
        options: OptionsModel {
            dry_run: st.options.dry_run,
            verbose: true,
            create_parents: st.options.create_parents,
            overwrite: st.options.overwrite,
            default_text: st.options.default_text,
        },
        wrong_options: st.wrong_options,
        paths: st.paths,
    }
}

pub open spec fn with_parents(st: ParsedModel) -> ParsedModel {
    ParsedModel {
        options: OptionsModel {
            dry_run: st.options.dry_run,
            verbose: st.options.verbose,
            create_parents: true,
            overwrite: st.options.overwrite,
            default_text: st.options.default_text,
        },
        wrong_options: st.wrong_options,
        paths: st.paths,
    }
}

pub open spec fn with_overwrite(st: ParsedModel) -> ParsedModel {
    ParsedModel {
        options: OptionsModel {
            dry_run: st.options.dry_run,
            verbose: st.options.verbose,
            create_parents: st.options.create_parents,
            overwrite: true,
            default_text: st.options.default_text,
        },
        wrong_options: st.wrong_options,
        paths: st.paths,
    }
}

pub open spec fn with_text(st: ParsedModel, t: Seq<char>) -> ParsedModel {
    ParsedModel {
        options: OptionsModel {
            dry_run: st.options.dry_run,
            verbose: st.options.verbose,
            create_parents: st.options.create_parents,
            overwrite: st.options.overwrite,
            default_text: Some(t),
        },
        wrong_options: st.wrong_options,
        paths: st.paths,
    }
}

pub open spec fn push_wrong(st: ParsedModel, w: Seq<char>) -> ParsedModel {
    ParsedModel {
        options: st.options,
        wrong_options: st.wrong_options.push(w),
        paths: st.paths,
    }
}

pub open spec fn push_path(st: ParsedModel, p: Seq<char>) -> ParsedModel {
    ParsedModel {
        options: st.options,
        wrong_options: st.wrong_options,
        paths: st.paths.push(p),
    }
}

// ---------------------------------------------------------------------------
// The tokenizer itself
// ---------------------------------------------------------------------------

/// What a whole tokenizer run produces: an immediate `--help` or
/// `--version` short-circuit, a fatal default-text usage error, or the
/// completed `ParsedArguments`.
#[derive(Debug, Clone, PartialEq, Eq)]
pub enum ParseOutcome {
    Help,
    Version,
    MissingText,
    DuplicateText,
    Parsed(ParsedArguments),
}

/// Mathematical image of `ParseOutcome`.
pub enum OutcomeModel {
    Help,
    Version,
    MissingText,
    DuplicateText,
    Parsed(ParsedModel),
}

impl View for ParseOutcome {
    type V = OutcomeModel;

    open spec fn view(&self) -> OutcomeModel {
        match self {
            ParseOutcome::Help => OutcomeModel::Help,
            ParseOutcome::Version => OutcomeModel::Version,
            ParseOutcome::MissingText => OutcomeModel::MissingText,
            ParseOutcome::DuplicateText => OutcomeModel::DuplicateText,
            ParseOutcome::Parsed(p) => OutcomeModel::Parsed(p@),
        }
    }
}

/// The tokenizer, as a function on token character sequences.  Tokens are
/// consumed left to right; an option token's identifiers are handed to
/// `apply_idents`, which may in turn consume the following token as the
/// default-text value.
pub open spec fn parse_tokens(toks: Seq<Seq<char>>, st: ParsedModel) -> OutcomeModel
    decreases toks.len(), 0nat,
{
    if toks.len() == 0 {
        OutcomeModel::Parsed(st)
    } else {
        let t = toks[0];
        match classify(t) {
            TokenClass::Invalid => parse_tokens(toks.skip(1), push_wrong(st, t)),
            TokenClass::LongOption => apply_idents(seq![long_ident(t)], toks.skip(1), st),
            TokenClass::ShortCluster => apply_idents(short_idents(t), toks.skip(1), st),
            TokenClass::PathArg => parse_tokens(toks.skip(1), push_path(st, t)),
        }
    }
}

/// Applies one token's option identifiers in order, then resumes on the
/// remaining tokens.  `T`/`text` consumes the next whole token verbatim as
/// the default text; a second default text or a missing value ends the whole
/// run with the corresponding error; `help` and `version` short-circuit
/// immediately; anything unrecognized is recorded.
pub open spec fn apply_idents(
    ids: Seq<Seq<char>>,
    rest: Seq<Seq<char>>,
    st: ParsedModel,
) -> OutcomeModel
    decreases rest.len(), ids.len() + 1,
{
    if ids.len() == 0 {
        parse_tokens(rest, st)
    } else {
        let id = ids[0];
        if id == "d"@ || id == "dry"@ {
            apply_idents(ids.skip(1), rest, with_dry(st))
        } else if id == "v"@ || id == "verbose"@ {
            apply_idents(ids.skip(1), rest, with_verbose(st))
        } else if id == "p"@ || id == "parents"@ {
            apply_idents(ids.skip(1), rest, with_parents(st))
        } else if id == "o"@ || id == "overwrite"@ {
            apply_idents(ids.skip(1), rest, with_overwrite(st))
        } else if id == "T"@ || id == "text"@ {
            if st.options.default_text is Some {
                OutcomeModel::DuplicateText
            } else if rest.len() == 0 {
                OutcomeModel::MissingText
            } else {
                apply_idents(ids.skip(1), rest.skip(1), with_text(st, rest[0]))
            }
        } else if id == "help"@ {
            OutcomeModel::Help
        } else if id == "version"@ {
            OutcomeModel::Version
        } else {
            apply_idents(ids.skip(1), rest, push_wrong(st, id))
        }
    }
}

/// Tokenizes the invocation arguments (the program name already removed).
pub fn parse_args(args: &Vec<String>) -> (r: ParseOutcome)
    ensures
        r@ == parse_tokens(args.deep_view(), ParsedModel::init()),
{
    let acc = ParsedArguments::new();
    proof {
        assert(args.deep_view().skip(0) =~= args.deep_view());
    }
    parse_from(args, 0, acc)
}

fn parse_from(args: &Vec<String>, i: usize, acc: ParsedArguments) -> (r: ParseOutcome)
    requires
        i <= args@.len(),
    ensures
        r@ == parse_tokens(args.deep_view().skip(i as int), acc@),
    decreases args@.len() - i, 0nat,
{
    let ghost toks = args.deep_view().skip(i as int);
    let ghost m0 = acc@;
    if i == args.len() {
        proof {
            assert(toks =~= Seq::<Seq<char>>::empty());
        }
        return ParseOutcome::Parsed(acc);
    }
    proof {
        assert(toks[0] == args.deep_view()[i as int]);
        assert(args.deep_view()[i as int] == args@[i as int]@);
        assert(toks.skip(1) =~= args.deep_view().skip(i as int + 1));
    }
    let t: &String = &args[i];
    let cls = classify_token(t.as_str());
    match cls {
        TokenClass::Invalid => {
            let mut acc2 = acc;
            acc2.wrong_options.push(t.clone());
            proof {
                assert(acc2.wrong_options.deep_view() =~= m0.wrong_options.push(toks[0]));
                assert(acc2@ == push_wrong(m0, toks[0]));
            }
            parse_from(args, i + 1, acc2)
        },
        TokenClass::PathArg => {
            let mut acc2 = acc;
            acc2.paths.push(t.clone());
            proof {
                assert(acc2.paths.deep_view() =~= m0.paths.push(toks[0]));
                assert(acc2@ == push_path(m0, toks[0]));
            }
            parse_from(args, i + 1, acc2)
        },
        TokenClass::LongOption => {
            let n = t.as_str().unicode_len();
            let ident = t.as_str().substring_char(2, n).to_owned();
            let mut ids: Vec<String> = Vec::new();
            ids.push(ident);
            proof {
                assert(t@.subrange(2, n as int) =~= long_ident(toks[0]));
                assert(ids.deep_view() =~= seq![long_ident(toks[0])]);
                assert(ids.deep_view().skip(0) =~= ids.deep_view());
            }
            apply_from(args, i + 1, &ids, 0, acc)
        },
        TokenClass::ShortCluster => {
            let n = t.as_str().unicode_len();
            let mut ids: Vec<String> = Vec::new();
            let mut j: usize = 1;
            while j < n
                invariant
                    1 <= j <= n,
                    n == t@.len(),
                    ids.deep_view() =~= short_idents(t@).take(j - 1),
                decreases n - j,
            {
                let c = t.as_str().substring_char(j, j + 1).to_owned();
                let ghost dv0 = ids.deep_view();
                ids.push(c);
                proof {
                    assert(c@ =~= seq![t@[j as int]]);
                    assert(ids.deep_view() =~= dv0.push(c@));
                    assert(ids.deep_view() =~= short_idents(t@).take(j as int));
                }
                j += 1;
            }
            proof {
                assert(short_idents(t@).take(n - 1) =~= short_idents(toks[0]));
                assert(ids.deep_view().skip(0) =~= ids.deep_view());
            }
            apply_from(args, i + 1, &ids, 0, acc)
        },
    }
}

fn apply_from(
    args: &Vec<String>,
    i: usize,
    ids: &Vec<String>,
    j: usize,
    acc: ParsedArguments,
) -> (r: ParseOutcome)
    requires
        i <= args@.len(),
        j <= ids@.len(),
    ensures
        r@ == apply_idents(
            ids.deep_view().skip(j as int),
            args.deep_view().skip(i as int),
            acc@,
        ),
    decreases args@.len() - i, ids@.len() - j + 1,
{
    let ghost rest = args.deep_view().skip(i as int);
    let ghost idseq = ids.deep_view().skip(j as int);
    let ghost m0 = acc@;
    if j == ids.len() {
        proof {
            assert(idseq =~= Seq::<Seq<char>>::empty());
        }
        return parse_from(args, i, acc);
    }
    proof {
        assert(idseq[0] == ids.deep_view()[j as int]);
        assert(ids.deep_view()[j as int] == ids@[j as int]@);
        assert(idseq.skip(1) =~= ids.deep_view().skip(j as int + 1));
    }
    let id: &str = ids[j].as_str();
    if str_eq(id, "d") || str_eq(id, "dry") {
        let mut acc2 = acc;
        acc2.options.dry_run = true;
        proof {
            assert(acc2@ == with_dry(m0));
        }
        apply_from(args, i, ids, j + 1, acc2)
    } else if str_eq(id, "v") || str_eq(id, "verbose") {
        let mut acc2 = acc;
        acc2.options.verbose = true;
        proof {
            assert(acc2@ == with_verbose(m0));
        }
        apply_from(args, i, ids, j + 1, acc2)
    } else if str_eq(id, "p") || str_eq(id, "parents") {
        let mut acc2 = acc;
        acc2.options.create_parents = true;
        proof {
            assert(acc2@ == with_parents(m0));
        }
        apply_from(args, i, ids, j + 1, acc2)
    } else if str_eq(id, "o") || str_eq(id, "overwrite") {
        let mut acc2 = acc;
        acc2.options.overwrite = true;
        proof {
            assert(acc2@ == with_overwrite(m0));
        }
        apply_from(args, i, ids, j + 1, acc2)
    } else if str_eq(id, "T") || str_eq(id, "text") {
        if acc.options.default_text.is_some() {
            ParseOutcome::DuplicateText
        } else if i == args.len() {
            proof {
                assert(rest.len() == 0);
            }
            ParseOutcome::MissingText
        } else {
            proof {
                assert(rest[0] == args.deep_view()[i as int]);
                assert(args.deep_view()[i as int] == args@[i as int]@);
                assert(rest.skip(1) =~= args.deep_view().skip(i as int + 1));
            }
            let value = args[i].clone();
            let mut acc2 = acc;
            acc2.options.default_text = Some(value);
            proof {
                assert(acc2@ == with_text(m0, rest[0]));
            }
            apply_from(args, i + 1, ids, j + 1, acc2)
        }
    } else if str_eq(id, "help") {
        ParseOutcome::Help
    } else if str_eq(id, "version") {
        ParseOutcome::Version
    } else {
        let mut acc2 = acc;
        acc2.wrong_options.push(ids[j].clone());
        proof {
            assert(acc2.wrong_options.deep_view() =~= m0.wrong_options.push(idseq[0]));
            assert(acc2@ == push_wrong(m0, idseq[0]));
        }
        apply_from(args, i, ids, j + 1, acc2)
    }
}

} // verus!
