//! Tool specifications: what a package identifier on the command line names.
//!
//! A token such as `typescript@5.0.0` or `@scope/pkg` names a tool and
//! optionally a version request. Node, npm and Yarn are managed by the
//! version manager itself; every other name is a third-party package.

use vstd::prelude::*;
use vstd::string::StrSliceExecFns;
use crate::token::same_text;

verus! {

/// What a package identifier names. A version request of `None` means that
/// the request is unspecified, which asks for the latest version.
#[derive(Clone, Debug, PartialEq, Eq)]
pub enum ToolSpec {
    /// The Node runtime, with a version request.
    Node(Option<String>),
    /// The npm package manager, with a version request.
    Npm(Option<String>),
    /// The Yarn package manager, with a version request.
    Yarn(Option<String>),
    /// A third-party package, by name, with a version request.
    Package(String, Option<String>),
}

/// The mathematical value of a [`ToolSpec`].
pub enum ToolSpecView {
    Node(Option<Seq<char>>),
    Npm(Option<Seq<char>>),
    Yarn(Option<Seq<char>>),
    Package(Seq<char>, Option<Seq<char>>),
}

/// Why a token is not a package identifier.
#[derive(Clone, Copy, Debug, PartialEq, Eq, Structural)]
pub enum ParseError {
    /// The token has no name part.
    EmptyName,
}

/// The text of an optional string.
pub open spec fn text_view(text: Option<String>) -> Option<Seq<char>> {
    match text {
        Some(s) => Some(s@),
        None => None,
    }
}

impl View for ToolSpec {
    type V = ToolSpecView;

    open spec fn view(&self) -> ToolSpecView {
        match *self {
            ToolSpec::Node(version) => ToolSpecView::Node(text_view(version)),
            ToolSpec::Npm(version) => ToolSpecView::Npm(text_view(version)),
            ToolSpec::Yarn(version) => ToolSpecView::Yarn(text_view(version)),
            ToolSpec::Package(name, version) => ToolSpecView::Package(name@, text_view(version)),
        }
    }
}

/// The names reserved for the tools that the version manager installs itself.
pub open spec fn is_reserved_name(name: Seq<char>) -> bool {
    name == "node"@ || name == "npm"@ || name == "yarn"@
}

impl ToolSpecView {
    /// The version request carried by the specification.
    pub open spec fn version(self) -> Option<Seq<char>> {
        match self {
            ToolSpecView::Node(version) => version,
            ToolSpecView::Npm(version) => version,
            ToolSpecView::Yarn(version) => version,
            ToolSpecView::Package(_, version) => version,
        }
    }

    /// Whether the specification names a tool that the version manager
    /// installs itself.
    pub open spec fn is_core_tool(self) -> bool {
        !(self is Package)
    }

    /// The invariant of a tool specification: a version request that is
    /// present is not empty, and a package has a name that is neither empty
    /// nor reserved.
    pub open spec fn well_formed(self) -> bool {
        &&& self.version() matches Some(version) ==> version.len() > 0
        &&& self matches ToolSpecView::Package(name, _) ==> name.len() > 0 && !is_reserved_name(
            name,
        )
    }
}

/// Position `i` splits a token into name and version request when it holds
/// the last `@` of the token and is not the first position, where an `@`
/// opens a scoped name.
pub open spec fn is_split(token: Seq<char>, i: int) -> bool {
    &&& 0 < i < token.len()
    &&& token[i] == '@'
    &&& forall|j: int| i < j < token.len() ==> token[j] != '@'
}

/// The position that splits a token, if there is one.
pub open spec fn split_of(token: Seq<char>) -> Option<int> {
    if exists|i: int| is_split(token, i) {
        Some(choose|i: int| is_split(token, i))
    } else {
        None
    }
}

/// The name part of a token: what precedes the split, or the whole token.
pub open spec fn name_of(token: Seq<char>) -> Seq<char> {
    match split_of(token) {
        Some(i) => token.subrange(0, i),
        None => token,
    }
}

/// The version request of a token: what follows the split, unless that is
/// empty.
pub open spec fn version_of(token: Seq<char>) -> Option<Seq<char>> {
    match split_of(token) {
        Some(i) => if i + 1 < token.len() {
            Some(token.subrange(i + 1, token.len() as int))
        } else {
            None
        },
        None => None,
    }
}

/// The specification for a tool of the given name.
pub open spec fn tool_named(name: Seq<char>, version: Option<Seq<char>>) -> ToolSpecView {
    if name == "node"@ {
        ToolSpecView::Node(version)
    } else if name == "npm"@ {
        ToolSpecView::Npm(version)
    } else if name == "yarn"@ {
        ToolSpecView::Yarn(version)
    } else {
        ToolSpecView::Package(name, version)
    }
}

/// What a token parses to.
pub open spec fn parse_spec(token: Seq<char>) -> Result<ToolSpecView, ParseError> {
    if name_of(token).len() == 0 {
        Err(ParseError::EmptyName)
    } else {
        Ok(tool_named(name_of(token), version_of(token)))
    }
}

/// The three reserved names are pairwise distinct, and none is empty.
pub proof fn lemma_reserved_names_differ()
    ensures
        "node"@ != "npm"@,
        "node"@ != "yarn"@,
        "npm"@ != "yarn"@,
        forall|name: Seq<char>| #[trigger] is_reserved_name(name) ==> name.len() > 0,
{
    reveal_strlit("node");
    reveal_strlit("npm");
    reveal_strlit("yarn");
    assert("node"@.len() == 4 && "npm"@.len() == 3 && "yarn"@.len() == 4);
    assert("node"@[0] == 'n' && "yarn"@[0] == 'y');
}

/// A token has at most one split.
pub proof fn lemma_split_is_unique(token: Seq<char>, i: int)
    requires
        is_split(token, i),
    ensures
        split_of(token) == Some(i),
{
}

/// A token without an `@` past its first position has no split.
pub proof fn lemma_no_split(token: Seq<char>)
    requires
        forall|j: int| 0 < j < token.len() ==> token[j] != '@',
    ensures
        split_of(token) is None,
{
}

/// Parsing fails on the empty token and on no other.
pub proof fn lemma_parse_fails_only_on_empty(token: Seq<char>)
    ensures
        parse_spec(token) is Err <==> token.len() == 0,
        parse_spec(token) matches Err(e) ==> e == ParseError::EmptyName,
{
}

/// Every specification that parsing produces is well-formed.
pub proof fn lemma_parse_is_well_formed(token: Seq<char>)
    ensures
        parse_spec(token) matches Ok(tool) ==> tool.well_formed(),
{
}

/// The reserved names parse to the core tools, whatever the version request,
/// and every other name parses to a package of that name.
pub proof fn lemma_parse_by_name(token: Seq<char>)
    requires
        token.len() > 0,
    ensures
        ({
            let name = name_of(token);
            let version = version_of(token);
            &&& parse_spec(token) is Ok
            &&& name == "node"@ ==> parse_spec(token)->Ok_0 == ToolSpecView::Node(version)
            &&& name == "npm"@ ==> parse_spec(token)->Ok_0 == ToolSpecView::Npm(version)
            &&& name == "yarn"@ ==> parse_spec(token)->Ok_0 == ToolSpecView::Yarn(version)
            &&& !is_reserved_name(name) ==> parse_spec(token)->Ok_0 == ToolSpecView::Package(
                name,
                version,
            )
        }),
{
    lemma_reserved_names_differ();
}

/// A name joined to a version request by `@` parses back into the two parts,
/// provided the name is not empty and the request holds no `@`.
pub proof fn lemma_parse_joined(name: Seq<char>, version: Seq<char>)
    requires
        name.len() > 0,
        forall|j: int| 0 <= j < version.len() ==> version[j] != '@',
    ensures
        name_of(name + seq!['@'] + version) == name,
        version_of(name + seq!['@'] + version) == if version.len() > 0 {
            Some(version)
        } else {
            None
        },
{
    let token = name + seq!['@'] + version;
    let at = name.len() as int;
    lemma_split_is_unique(token, at);
}

/// Scans a token of `len` characters for the position that splits it.
fn scan_for_split(token: &str, len: usize) -> (split: Option<usize>)
    requires
        len == token@.len(),
    ensures
        split_of(token@) == match split {
            Some(at) => Some(at as int),
            None => None,
        },
{
    let mut at: usize = 0;
    let mut i: usize = 0;
    for c in chars: token.chars()
        invariant
            len == token@.len(),
            chars.seq() == token@,
            i == chars.index(),
            at == 0 || (0 < at < i && token@[at as int] == '@'),
            forall|j: int| at < j < i ==> token@[j] != '@',
    {
        if i > 0 && c == '@' {
            at = i;
        }
        i += 1;
    }
    if at == 0 {
        proof {
            lemma_no_split(token@);
        }
        None
    } else {
        proof {
            lemma_split_is_unique(token@, at as int);
        }
        Some(at)
    }
}

/// Finds the position that splits a token into name and version request,
/// counted in characters.
pub fn find_split(token: &str) -> (split: Option<usize>)
    ensures
        split_of(token@) == match split {
            Some(at) => Some(at as int),
            None => None,
        },
{
    scan_for_split(token, token.unicode_len())
}

/// Parses a package identifier, exactly as it appeared on the command line.
///
/// The token is split at its last `@`, unless that is its first character:
/// what precedes is the name, what follows is the version request, and an
/// empty request counts as none. A token without a name is rejected.
pub fn parse(token: &str) -> (result: Result<ToolSpec, ParseError>)
    ensures
        match parse_spec(token@) {
            Ok(tool) => result matches Ok(parsed) && parsed@ == tool,
            Err(e) => result matches Err(failure) && failure == e,
        },
        result matches Ok(parsed) ==> parsed@.well_formed(),
{
    proof {
        lemma_parse_fails_only_on_empty(token@);
        lemma_parse_is_well_formed(token@);
    }
    let len: usize = token.unicode_len();
    if len == 0 {
        return Err(ParseError::EmptyName);
    }
    let (name, version) = match scan_for_split(token, len) {
        Some(at) => {
            let name = token.substring_char(0, at);
            if at + 1 < len {
                (name, Some(token.substring_char(at + 1, len).to_owned()))
            } else {
                (name, None)
            }
        },
        None => (token, None),
    };
    if same_text(name, "node") {
        Ok(ToolSpec::Node(version))
    } else if same_text(name, "npm") {
        Ok(ToolSpec::Npm(version))
    } else if same_text(name, "yarn") {
        Ok(ToolSpec::Yarn(version))
    } else {
        Ok(ToolSpec::Package(name.to_owned(), version))
    }
}

} // verus!
