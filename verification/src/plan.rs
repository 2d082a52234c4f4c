use vstd::prelude::*;

use crate::messages::{
    duplicate_text_message, duplicate_text_model, missing_text_message, missing_text_model,
    wrong_options_message, wrong_options_model,
};
use crate::options::{Options, OptionsModel, ParsedModel};
use crate::tokenize::{parse_args, parse_tokens, OutcomeModel, ParseOutcome};

verus! {

/// What the whole invocation does, settled before any path is touched:
/// print the usage text, print the version banner, reject the run with a
/// usage error, warn that no path was named, or process the given paths
/// under the given options.
#[derive(Debug, PartialEq, Eq)]
pub enum RunPlan {
    PrintHelp,
    PrintVersion,
    UsageError(String),
    NoPaths,
    Process(Options, Vec<String>),
}

/// Mathematical image of `RunPlan`.
pub enum RunPlanModel {
    PrintHelp,
    PrintVersion,
    UsageError(Seq<char>),
    NoPaths,
    Process(OptionsModel, Seq<Seq<char>>),
}

impl View for RunPlan {
    type V = RunPlanModel;

    open spec fn view(&self) -> RunPlanModel {
        match self {
            RunPlan::PrintHelp => RunPlanModel::PrintHelp,
            RunPlan::PrintVersion => RunPlanModel::PrintVersion,
            RunPlan::UsageError(m) => RunPlanModel::UsageError(m@),
            RunPlan::NoPaths => RunPlanModel::NoPaths,
            RunPlan::Process(o, paths) => RunPlanModel::Process(o@, paths.deep_view()),
        }
    }
}

/// The run plan for a token list: the tokenizer's outcome, with any
/// unrecognized option rejecting the whole run before any path, and an
/// otherwise empty path list reduced to a warning.
pub open spec fn plan_model(toks: Seq<Seq<char>>) -> RunPlanModel {
    match parse_tokens(toks, ParsedModel::init()) {
        OutcomeModel::Help => RunPlanModel::PrintHelp,
        OutcomeModel::Version => RunPlanModel::PrintVersion,
        OutcomeModel::MissingText => RunPlanModel::UsageError(missing_text_model()),
        OutcomeModel::DuplicateText => RunPlanModel::UsageError(duplicate_text_model()),
        OutcomeModel::Parsed(p) => {
            if p.wrong_options.len() > 0 {
                RunPlanModel::UsageError(wrong_options_model(p.wrong_options))
            } else if p.paths.len() == 0 {
                RunPlanModel::NoPaths
            } else {
                RunPlanModel::Process(p.options, p.paths)
            }
        },
    }
}

/// Settles the whole invocation from the raw arguments (program name
/// already removed), exactly as `plan_model` states.
pub fn plan_run(args: &Vec<String>) -> (r: RunPlan)
    ensures
        r@ == plan_model(args.deep_view()),
{
    match parse_args(args) {
        ParseOutcome::Help => RunPlan::PrintHelp,
        ParseOutcome::Version => RunPlan::PrintVersion,
        ParseOutcome::MissingText => RunPlan::UsageError(missing_text_message()),
        ParseOutcome::DuplicateText => RunPlan::UsageError(duplicate_text_message()),
        ParseOutcome::Parsed(p) => {
            if p.wrong_options.len() > 0 {
                RunPlan::UsageError(wrong_options_message(&p.wrong_options))
            } else if p.paths.len() == 0 {
                RunPlan::NoPaths
            } else {
                RunPlan::Process(p.options, p.paths)
            }
        },
    }
}

} // verus!
