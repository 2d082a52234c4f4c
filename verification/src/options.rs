use vstd::prelude::*;

verus! {

/// The recognized flags plus the optional default text, as accumulated by
/// the argument tokenizer.  `default_text` holds the raw value that followed
/// `-T`/`--text`; the trailing newline is added when file content is built.
#[derive(Debug, Clone, PartialEq, Eq)]
pub struct Options {
    pub dry_run: bool,
    pub verbose: bool,
    pub create_parents: bool,
    pub overwrite: bool,
    pub default_text: Option<String>,
}

/// Mathematical image of `Options`: the text as a sequence of characters.
pub struct OptionsModel {
    pub dry_run: bool,
    pub verbose: bool,
    pub create_parents: bool,
    pub overwrite: bool,
    pub default_text: Option<Seq<char>>,
}

impl View for Options {
    type V = OptionsModel;

    open spec fn view(&self) -> OptionsModel {
        OptionsModel {
            dry_run: self.dry_run,
            verbose: self.verbose,
            create_parents: self.create_parents,
            overwrite: self.overwrite,
            default_text: self.default_text.deep_view(),
        }
    }
}

impl OptionsModel {
    /// The state before any option token has been seen: every flag off and
    /// no default text.
    pub open spec fn init() -> OptionsModel {
        OptionsModel {
            dry_run: false,
            verbose: false,
            create_parents: false,
            overwrite: false,
            default_text: None,
        }
    }
}

impl Options {
    pub fn new() -> (r: Options)
        ensures
            r@ == OptionsModel::init(),
    {
        Options {
            dry_run: false,
            verbose: false,
            create_parents: false,
            overwrite: false,
            default_text: None,
        }
    }
}

/// Everything the tokenizer produces when it runs to completion: the option
/// set, the unrecognized option tokens in the order they were met, and the
/// path arguments in input order.
#[derive(Debug, Clone, PartialEq, Eq)]
pub struct ParsedArguments {
    pub options: Options,
    pub wrong_options: Vec<String>,
    pub paths: Vec<String>,
}

/// Mathematical image of `ParsedArguments`.
pub struct ParsedModel {
    pub options: OptionsModel,
    pub wrong_options: Seq<Seq<char>>,
    pub paths: Seq<Seq<char>>,
}

impl View for ParsedArguments {
    type V = ParsedModel;

    open spec fn view(&self) -> ParsedModel {
        ParsedModel {
            options: self.options@,
            wrong_options: self.wrong_options.deep_view(),
            paths: self.paths.deep_view(),
        }
    }
}

impl ParsedModel {
    /// The state the tokenizer starts from.
    pub open spec fn init() -> ParsedModel {
        ParsedModel {
            options: OptionsModel::init(),
            wrong_options: Seq::empty(),
            paths: Seq::empty(),
        }
    }
}

impl ParsedArguments {
    pub fn new() -> (r: ParsedArguments)
        ensures
            r@ == ParsedModel::init(),
    {
        let r = ParsedArguments {
            options: Options::new(),
            wrong_options: Vec::new(),
            paths: Vec::new(),
        };
        proof {
            assert(r.wrong_options.deep_view() =~= Seq::<Seq<char>>::empty());
            assert(r.paths.deep_view() =~= Seq::<Seq<char>>::empty());
        }
        r
    }
}

} // verus!
