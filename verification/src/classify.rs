//! The invocation classifier: is this command line a global install, and of
//! what?
//!
//! Classification reads nothing but the argument list. The global flag may
//! stand anywhere in it; once the flags are set aside, the first remaining
//! token must be an install subcommand and the second names the package.

use vstd::prelude::*;
use crate::manager::{lemma_tables_keep_apart, listed, token_in, word_texts, PackageManager};
use crate::token::{
    is_flag,
    looks_like_flag,
    readable_text,
    text_of,
    to_readable_text,
    tokens_of,
};
use crate::tool::{
    is_reserved_name,
    lemma_parse_is_well_formed,
    lemma_reserved_names_differ,
    name_of,
    parse,
    parse_spec,
    tool_named,
    version_of,
    ToolSpec,
    ToolSpecView,
};

verus! {

/// What an invocation asks for, as far as the shim is concerned.
#[derive(Clone, Debug, PartialEq, Eq)]
pub enum Classification {
    /// Anything but a global install of a parsable package identifier.
    NotGlobalAdd,
    /// A global install of the given tool.
    GlobalAdd(ToolSpec),
}

/// The mathematical value of a [`Classification`].
pub enum ClassificationView {
    NotGlobalAdd,
    GlobalAdd(ToolSpecView),
}

impl View for Classification {
    type V = ClassificationView;

    open spec fn view(&self) -> ClassificationView {
        match *self {
            Classification::NotGlobalAdd => ClassificationView::NotGlobalAdd,
            Classification::GlobalAdd(tool) => ClassificationView::GlobalAdd(tool@),
        }
    }
}

/// The test that keeps a token when flags are set aside.
pub open spec fn is_positional() -> spec_fn(Seq<u8>) -> bool {
    |token: Seq<u8>| !looks_like_flag(token)
}

/// The tokens that are not flags, in the order in which they stand.
pub open spec fn positionals(tokens: Seq<Seq<u8>>) -> Seq<Seq<u8>> {
    tokens.filter(is_positional())
}

/// Whether one of the manager's global flags stands anywhere in the list.
pub open spec fn has_global_flag(manager: PackageManager, tokens: Seq<Seq<u8>>) -> bool {
    exists|i: int| 0 <= i < tokens.len() && listed(manager.global_flags(), #[trigger] tokens[i])
}

/// Whether the list is a global install in form: a global flag somewhere, an
/// install subcommand as the first positional token, and a second positional
/// token to name the package.
pub open spec fn is_global_install(manager: PackageManager, tokens: Seq<Seq<u8>>) -> bool {
    &&& has_global_flag(manager, tokens)
    &&& positionals(tokens).len() >= 2
    &&& listed(manager.install_aliases(), positionals(tokens)[0])
}

/// The classification of an argument list.
pub open spec fn classification(
    manager: PackageManager,
    tokens: Seq<Seq<u8>>,
) -> ClassificationView {
    if is_global_install(manager, tokens) {
        match parse_spec(readable_text(positionals(tokens)[1])) {
            Ok(tool) => ClassificationView::GlobalAdd(tool),
            Err(_) => ClassificationView::NotGlobalAdd,
        }
    } else {
        ClassificationView::NotGlobalAdd
    }
}

/// Setting flags aside keeps the head of a list exactly when it is no flag.
pub proof fn lemma_positionals_head(tokens: Seq<Seq<u8>>)
    requires
        tokens.len() > 0,
    ensures
        positionals(tokens) == if looks_like_flag(tokens[0]) {
            positionals(tokens.skip(1))
        } else {
            seq![tokens[0]] + positionals(tokens.skip(1))
        },
{
    let rest = tokens.skip(1);
    assert(tokens =~= seq![tokens[0]] + rest);
    rest.lemma_filter_prepend(tokens[0], is_positional());
}

/// The first positional token at or after `start` is the one at `found` when
/// every token between the two is a flag and the one at `found` is not.
pub proof fn lemma_next_positional(tokens: Seq<Seq<u8>>, start: int, found: int)
    requires
        0 <= start <= found < tokens.len(),
        forall|j: int| start <= j < found ==> looks_like_flag(#[trigger] tokens[j]),
        !looks_like_flag(tokens[found]),
    ensures
        positionals(tokens.skip(start)) == seq![tokens[found]] + positionals(
            tokens.skip(found + 1),
        ),
    decreases found - start,
{
    let here = tokens.skip(start);
    lemma_positionals_head(here);
    assert(here.skip(1) =~= tokens.skip(start + 1));
    if start < found {
        lemma_next_positional(tokens, start + 1, found);
    }
}

/// No positional token stands at or after `start` when every token from
/// there on is a flag.
pub proof fn lemma_no_positional(tokens: Seq<Seq<u8>>, start: int)
    requires
        0 <= start <= tokens.len(),
        forall|j: int| start <= j < tokens.len() ==> looks_like_flag(#[trigger] tokens[j]),
    ensures
        positionals(tokens.skip(start)) == Seq::<Seq<u8>>::empty(),
    decreases tokens.len() - start,
{
    if start < tokens.len() {
        let here = tokens.skip(start);
        lemma_positionals_head(here);
        assert(here.skip(1) =~= tokens.skip(start + 1));
        lemma_no_positional(tokens, start + 1);
    }
}

/// The first two positional tokens of a list are the two tokens at
/// `command` and `package` when every other token up to `package` is a flag.
/// The classification then rests on these two alone: whatever follows
/// `package`, and whichever flags stand around them, make no difference.
pub proof fn lemma_first_two_positionals_decide(
    manager: PackageManager,
    tokens: Seq<Seq<u8>>,
    command: int,
    package: int,
)
    requires
        0 <= command < package < tokens.len(),
        !looks_like_flag(tokens[command]),
        !looks_like_flag(tokens[package]),
        forall|j: int|
            0 <= j < package && j != command ==> looks_like_flag(#[trigger] tokens[j]),
    ensures
        positionals(tokens).len() >= 2,
        positionals(tokens)[0] == tokens[command],
        positionals(tokens)[1] == tokens[package],
        classification(manager, tokens) == if has_global_flag(manager, tokens) && listed(
            manager.install_aliases(),
            tokens[command],
        ) {
            match parse_spec(readable_text(tokens[package])) {
                Ok(tool) => ClassificationView::GlobalAdd(tool),
                Err(_) => ClassificationView::NotGlobalAdd,
            }
        } else {
            ClassificationView::NotGlobalAdd
        },
{
    lemma_next_positional(tokens, 0, command);
    lemma_next_positional(tokens, command + 1, package);
    assert(tokens.skip(0) =~= tokens);
}

/// Putting a flag into a list, at any place, leaves its positional tokens as
/// they are.
pub proof fn lemma_inserting_a_flag_keeps_positionals(
    tokens: Seq<Seq<u8>>,
    at: int,
    flag: Seq<u8>,
)
    requires
        0 <= at <= tokens.len(),
        looks_like_flag(flag),
    ensures
        positionals(tokens.insert(at, flag)) == positionals(tokens),
{
    let before = tokens.take(at);
    let after = tokens.skip(at);
    assert(tokens =~= before + after);
    assert(tokens.insert(at, flag) =~= before + (seq![flag] + after));
    after.lemma_filter_prepend(flag, is_positional());
    Seq::filter_distributes_over_add(before, after, is_positional());
    Seq::filter_distributes_over_add(before, seq![flag] + after, is_positional());
}

/// A flag that is none of the manager's global flags makes no difference to
/// the classification, wherever it stands.
pub proof fn lemma_other_flags_do_not_matter(
    manager: PackageManager,
    tokens: Seq<Seq<u8>>,
    at: int,
    flag: Seq<u8>,
)
    requires
        0 <= at <= tokens.len(),
        looks_like_flag(flag),
        !listed(manager.global_flags(), flag),
    ensures
        classification(manager, tokens.insert(at, flag)) == classification(manager, tokens),
{
    let longer = tokens.insert(at, flag);
    lemma_inserting_a_flag_keeps_positionals(tokens, at, flag);
    if has_global_flag(manager, tokens) {
        let i = choose|i: int|
            0 <= i < tokens.len() && listed(manager.global_flags(), #[trigger] tokens[i]);
        let moved = if i < at {
            i
        } else {
            i + 1
        };
        assert(longer[moved] == tokens[i]);
    }
}

/// The global flag may stand anywhere in the list: before the subcommand,
/// after the package, or between other flags.
pub proof fn lemma_global_flag_may_stand_anywhere(
    manager: PackageManager,
    tokens: Seq<Seq<u8>>,
    flag: Seq<u8>,
    here: int,
    there: int,
)
    requires
        listed(manager.global_flags(), flag),
        0 <= here <= tokens.len(),
        0 <= there <= tokens.len(),
    ensures
        classification(manager, tokens.insert(here, flag)) == classification(
            manager,
            tokens.insert(there, flag),
        ),
{
    lemma_tables_keep_apart(manager, flag);
    lemma_inserting_a_flag_keeps_positionals(tokens, here, flag);
    lemma_inserting_a_flag_keeps_positionals(tokens, there, flag);
    assert(tokens.insert(here, flag)[here] == flag);
    assert(tokens.insert(there, flag)[there] == flag);
}

/// Once a list holds a global flag and two positional tokens, nothing that
/// follows makes a difference to its classification.
pub proof fn lemma_trailing_arguments_do_not_matter(
    manager: PackageManager,
    tokens: Seq<Seq<u8>>,
    extra: Seq<Seq<u8>>,
)
    requires
        has_global_flag(manager, tokens),
        positionals(tokens).len() >= 2,
    ensures
        classification(manager, tokens + extra) == classification(manager, tokens),
{
    Seq::filter_distributes_over_add(tokens, extra, is_positional());
    let i = choose|i: int|
        0 <= i < tokens.len() && listed(manager.global_flags(), #[trigger] tokens[i]);
    assert((tokens + extra)[i] == tokens[i]);
}

/// The tool of a global add is always well-formed.
pub proof fn lemma_classification_is_well_formed(manager: PackageManager, tokens: Seq<Seq<u8>>)
    ensures
        classification(manager, tokens) matches ClassificationView::GlobalAdd(tool)
            ==> tool.well_formed(),
{
    lemma_parse_is_well_formed(readable_text(positionals(tokens)[1]));
}

/// A list without a global flag is no global add, whatever else it holds.
pub proof fn lemma_no_global_flag_no_global_add(manager: PackageManager, tokens: Seq<Seq<u8>>)
    requires
        !has_global_flag(manager, tokens),
    ensures
        classification(manager, tokens) == ClassificationView::NotGlobalAdd,
{
}

/// A list with a global flag in which an install subcommand is the first
/// token that is no flag, and a package identifier that is text and not
/// empty is the next, is a global add of what the identifier parses to.
pub proof fn lemma_global_install_is_global_add(
    manager: PackageManager,
    tokens: Seq<Seq<u8>>,
    command: int,
    package: int,
)
    requires
        has_global_flag(manager, tokens),
        0 <= command < package < tokens.len(),
        listed(manager.install_aliases(), tokens[command]),
        !looks_like_flag(tokens[package]),
        text_of(tokens[package]) matches Some(text) && text.len() > 0,
        forall|j: int|
            0 <= j < package && j != command ==> looks_like_flag(#[trigger] tokens[j]),
    ensures
        parse_spec(text_of(tokens[package])->0) is Ok,
        classification(manager, tokens) == ClassificationView::GlobalAdd(
            parse_spec(text_of(tokens[package])->0)->Ok_0,
        ),
{
    lemma_tables_keep_apart(manager, tokens[command]);
    lemma_first_two_positionals_decide(manager, tokens, command, package);
}

/// A global install of an identifier whose name is reserved is a global add
/// of that core tool, with the version request of the identifier.
pub proof fn lemma_core_tool_is_global_add(
    manager: PackageManager,
    tokens: Seq<Seq<u8>>,
    command: int,
    package: int,
)
    requires
        has_global_flag(manager, tokens),
        0 <= command < package < tokens.len(),
        listed(manager.install_aliases(), tokens[command]),
        !looks_like_flag(tokens[package]),
        text_of(tokens[package]) matches Some(text) && is_reserved_name(name_of(text)),
        forall|j: int|
            0 <= j < package && j != command ==> looks_like_flag(#[trigger] tokens[j]),
    ensures
        classification(manager, tokens) matches ClassificationView::GlobalAdd(tool)
            && tool.is_core_tool() && tool == tool_named(
            name_of(text_of(tokens[package])->0),
            version_of(text_of(tokens[package])->0),
        ),
{
    lemma_reserved_names_differ();
    lemma_global_install_is_global_add(manager, tokens, command, package);
}

/// A list whose package identifier does not parse is no global add: the
/// malformed identifier is left for the package manager to report.
pub proof fn lemma_malformed_package_is_not_global_add(
    manager: PackageManager,
    tokens: Seq<Seq<u8>>,
)
    requires
        positionals(tokens).len() >= 2 ==> parse_spec(readable_text(positionals(tokens)[1]))
            is Err,
    ensures
        classification(manager, tokens) == ClassificationView::NotGlobalAdd,
{
}

/// A package identifier that is the empty token does not parse, so a list
/// that holds one in the place of the package is no global add.
pub proof fn lemma_empty_package_is_not_global_add(
    manager: PackageManager,
    tokens: Seq<Seq<u8>>,
    command: int,
    package: int,
)
    requires
        0 <= command < package < tokens.len(),
        !looks_like_flag(tokens[command]),
        tokens[package].len() == 0,
        forall|j: int|
            0 <= j < package && j != command ==> looks_like_flag(#[trigger] tokens[j]),
    ensures
        classification(manager, tokens) == ClassificationView::NotGlobalAdd,
{
    lemma_first_two_positionals_decide(manager, tokens, command, package);
}

/// Classification is a function of the manager and the bytes of the
/// arguments: two runs on the same list give the same result.
pub proof fn lemma_classify_is_deterministic(
    manager: PackageManager,
    args: &[Vec<u8>],
    again: &[Vec<u8>],
    first: Classification,
    second: Classification,
)
    requires
        tokens_of(args@) == tokens_of(again@),
        call_ensures(classify, (manager, args), first),
        call_ensures(classify, (manager, again), second),
    ensures
        first@ == second@,
{
}

/// Whether one of the manager's global flags stands anywhere in the list.
pub fn mentions_global_flag(manager: PackageManager, args: &[Vec<u8>]) -> (found: bool)
    ensures
        found == has_global_flag(manager, tokens_of(args@)),
{
    let table = manager.global_flag_table();
    let mut i: usize = 0;
    while i < args.len()
        invariant
            i <= args@.len(),
            word_texts(table@) == manager.global_flags(),
            forall|j: int|
                0 <= j < i ==> !listed(manager.global_flags(), #[trigger] tokens_of(args@)[j]),
        decreases args@.len() - i,
    {
        if token_in(args[i].as_slice(), &table) {
            assert(listed(manager.global_flags(), tokens_of(args@)[i as int]));
            return true;
        }
        i += 1;
    }
    false
}

/// The index of the first token at or after `start` that is not a flag.
pub fn next_positional(args: &[Vec<u8>], start: usize) -> (found: Option<usize>)
    requires
        start <= args@.len(),
    ensures
        match found {
            Some(at) => {
                &&& start <= at < args@.len()
                &&& !looks_like_flag(args@[at as int]@)
                &&& forall|j: int| start <= j < at ==> looks_like_flag(#[trigger] args@[j]@)
            },
            None => forall|j: int|
                start <= j < args@.len() ==> looks_like_flag(#[trigger] args@[j]@),
        },
{
    let mut i: usize = start;
    while i < args.len()
        invariant
            start <= i <= args@.len(),
            forall|j: int| start <= j < i ==> looks_like_flag(#[trigger] args@[j]@),
        decreases args@.len() - i,
    {
        if !is_flag(args[i].as_slice()) {
            return Some(i);
        }
        i += 1;
    }
    None
}

/// Classifies an invocation of `manager` from its argument list alone.
///
/// The result is a global add exactly when one of the manager's global flags
/// stands somewhere in the list, the first token that is not a flag is one of
/// its install subcommands, a second such token follows, and that token
/// parses as a package identifier. Every other list, one whose package
/// identifier is malformed included, is no global add.
pub fn classify(manager: PackageManager, args: &[Vec<u8>]) -> (result: Classification)
    ensures
        result@ == classification(manager, tokens_of(args@)),
        result matches Classification::GlobalAdd(tool) ==> tool@.well_formed(),
{
    let ghost list = tokens_of(args@);
    if !mentions_global_flag(manager, args) {
        return Classification::NotGlobalAdd;
    }
    let first: usize = match next_positional(args, 0) {
        Some(at) => at,
        None => {
            proof {
                lemma_no_positional(list, 0);
                assert(list.skip(0) =~= list);
            }
            return Classification::NotGlobalAdd;
        },
    };
    proof {
        lemma_next_positional(list, 0, first as int);
        assert(list.skip(0) =~= list);
    }
    assert(first < args.len());
    let second: usize = match next_positional(args, first + 1) {
        Some(at) => at,
        None => {
            proof {
                lemma_no_positional(list, first + 1);
            }
            return Classification::NotGlobalAdd;
        },
    };
    proof {
        lemma_next_positional(list, first + 1, second as int);
    }
    let aliases = manager.install_alias_table();
    if !token_in(args[first].as_slice(), &aliases) {
        return Classification::NotGlobalAdd;
    }
    let package = to_readable_text(args[second].as_slice());
    match parse(package.as_str()) {
        Ok(tool) => Classification::GlobalAdd(tool),
        Err(_) => Classification::NotGlobalAdd,
    }
}

} // verus!
