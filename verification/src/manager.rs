//! The package managers that the shim stands in for, and the words by which
//! each one spells a global install.

use vstd::prelude::*;
use crate::token::{looks_like_flag, text_of, token_is};

verus! {

/// A package manager whose invocations are intercepted.
#[derive(Clone, Copy, Debug, PartialEq, Eq, Structural)]
pub enum PackageManager {
    /// npm, the package manager that ships with Node.
    Npm,
}

/// The texts of a list of words.
pub open spec fn word_texts(words: Seq<&'static str>) -> Seq<Seq<char>> {
    words.map_values(|word: &'static str| word@)
}

/// Whether a token is one of the given words.
pub open spec fn listed(words: Seq<Seq<char>>, token: Seq<u8>) -> bool {
    exists|i: int| 0 <= i < words.len() && text_of(token) == Some(#[trigger] words[i])
}

impl PackageManager {
    /// The name of the manager's binary.
    pub open spec fn binary_name(self) -> Seq<char> {
        match self {
            PackageManager::Npm => "npm"@,
        }
    }

    /// The flags that ask the manager for a global operation.
    pub open spec fn global_flags(self) -> Seq<Seq<char>> {
        match self {
            PackageManager::Npm => seq!["-g"@, "--global"@],
        }
    }

    /// The subcommands by which the manager installs a package.
    pub open spec fn install_aliases(self) -> Seq<Seq<char>> {
        match self {
            PackageManager::Npm => seq!["install"@, "i"@, "add"@, "isntall"@],
        }
    }

    /// The name of the manager's binary.
    pub fn binary(self) -> (name: &'static str)
        ensures
            name@ == self.binary_name(),
    {
        match self {
            PackageManager::Npm => "npm",
        }
    }

    /// The table of flags that ask the manager for a global operation.
    pub fn global_flag_table(self) -> (words: Vec<&'static str>)
        ensures
            word_texts(words@) == self.global_flags(),
    {
        let words = match self {
            PackageManager::Npm => vec!["-g", "--global"],
        };
        words
    }

    /// The table of subcommands by which the manager installs a package.
    pub fn install_alias_table(self) -> (words: Vec<&'static str>)
        ensures
            word_texts(words@) == self.install_aliases(),
    {
        let words = match self {
            PackageManager::Npm => vec!["install", "i", "add", "isntall"],
        };
        words
    }
}

/// Every global flag of a manager is a flag, and none of its install
/// subcommands is one: setting flags aside keeps the subcommand and drops
/// the global flag.
pub proof fn lemma_tables_keep_apart(manager: PackageManager, token: Seq<u8>)
    ensures
        listed(manager.global_flags(), token) ==> looks_like_flag(token),
        listed(manager.install_aliases(), token) ==> !looks_like_flag(token),
{
    reveal_strlit("-g");
    reveal_strlit("--global");
    reveal_strlit("install");
    reveal_strlit("i");
    reveal_strlit("add");
    reveal_strlit("isntall");
    let flags = manager.global_flags();
    let aliases = manager.install_aliases();
    assert(forall|i: int|
        0 <= i < flags.len() ==> (#[trigger] flags[i]).len() > 0 && flags[i][0] == '-');
    assert(forall|i: int|
        0 <= i < aliases.len() ==> (#[trigger] aliases[i]).len() > 0 && aliases[i][0] != '-');
}

/// Whether a token is one of the words of a table.
pub fn token_in(token: &[u8], table: &Vec<&'static str>) -> (found: bool)
    ensures
        found == listed(word_texts(table@), token@),
{
    let mut i: usize = 0;
    while i < table.len()
        invariant
            i <= table@.len(),
            forall|j: int|
                0 <= j < i ==> text_of(token@) != Some(#[trigger] word_texts(table@)[j]),
        decreases table@.len() - i,
    {
        if token_is(token, table[i]) {
            assert(text_of(token@) == Some(word_texts(table@)[i as int]));
            return true;
        }
        i += 1;
    }
    false
}

} // verus!
