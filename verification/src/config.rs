//! The alias configuration model: alias records and their shell scope rules.

use vstd::prelude::*;

pub use crate::shell::Shell;
pub use crate::shell::ShellParsingError;

verus! {

/// One alias entry: the alias word (`alias`), the command it expands to
/// (`equals`), and an optional restriction of the shells it applies to
/// (`shells`; absent means the alias applies to every shell).
pub struct Alias {
    pub alias: String,
    pub equals: String,
    pub shells: Option<ShellList>,
}

/// Restricts an alias to some shells: it applies to every shell *except*
/// those listed (`Blacklist`), or *only* to those listed (`Whitelist`).
pub enum ShellList {
    Blacklist(Vec<Shell>),
    Whitelist(Vec<Shell>),
}

/// An ordered sequence of alias entries, as loaded from one configuration.
pub struct Config {
    pub aliases: Vec<Alias>,
}

/// Mathematical model of an optional `ShellList`: the scope an alias has.
pub enum ScopeView {
    AllShells,
    Blacklist(Seq<Shell>),
    Whitelist(Seq<Shell>),
}

/// Mathematical model of an `Alias`.
pub struct AliasView {
    pub name: Seq<char>,
    pub value: Seq<char>,
    pub scope: ScopeView,
}

impl View for ShellList {
    type V = ScopeView;

    open spec fn view(&self) -> ScopeView {
        match self {
            ShellList::Blacklist(ls) => ScopeView::Blacklist(ls@),
            ShellList::Whitelist(ls) => ScopeView::Whitelist(ls@),
        }
    }
}

/// The scope denoted by an optional `ShellList`: absent means all shells.
pub open spec fn scope_view(shells: Option<ShellList>) -> ScopeView {
    match shells {
        Option::None => ScopeView::AllShells,
        Option::Some(list) => list@,
    }
}

impl View for Alias {
    type V = AliasView;

    open spec fn view(&self) -> AliasView {
        AliasView { name: self.alias@, value: self.equals@, scope: scope_view(self.shells) }
    }
}

} // verus!
