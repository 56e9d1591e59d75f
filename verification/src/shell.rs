//! Shell dialects, alias rendering, and resolving free-form text to a dialect.

use vstd::prelude::*;
use vstd::string::StringExecFns;

use crate::config::{Alias, AliasView, ScopeView, ShellList};

verus! {

/// A supported shell dialect. Equality is by dialect identity.
#[derive(Clone, Copy, PartialEq, Eq, Structural, Debug)]
pub enum Shell {
    Bash,
    Fish,
    Zsh,
    Tcsh,
    Ksh,
    Dash,
    Ash,
}

/// Why free-form text could not be resolved to a `Shell`.
pub enum ShellParsingError {
    /// The final path segment matched no known dialect name; carries that
    /// segment for diagnostics.
    UnknownShell(String),
    /// The text was not valid as a shell name or path.
    BorkedOsStr,
    /// The text has no final path segment to resolve.
    NoFileName,
}

/// The two alias-declaration syntax families. Every dialect renders with the
/// template of its family, so adding a dialect is one classification arm.
#[derive(Clone, Copy, PartialEq, Eq, Structural, Debug)]
pub enum Family {
    /// `alias NAME="VALUE";` assignment syntax (bash, zsh, ksh, dash, ash).
    PosixAssignment,
    /// `alias NAME "VALUE";` space-argument syntax (fish, tcsh).
    SpaceArgument,
}

/// The syntax family each dialect belongs to.
pub open spec fn spec_family(shell: Shell) -> Family {
    match shell {
        Shell::Bash => Family::PosixAssignment,
        Shell::Fish => Family::SpaceArgument,
        Shell::Zsh => Family::PosixAssignment,
        Shell::Tcsh => Family::SpaceArgument,
        Shell::Ksh => Family::PosixAssignment,
        Shell::Dash => Family::PosixAssignment,
        Shell::Ash => Family::PosixAssignment,
    }
}

/// The declaration a family renders for an alias name and its expansion.
pub open spec fn spec_template(family: Family, name: Seq<char>, value: Seq<char>) -> Seq<char> {
    match family {
        Family::PosixAssignment => "alias "@ + name + "=\""@ + value + "\";"@,
        Family::SpaceArgument => "alias "@ + name + " \""@ + value + "\";"@,
    }
}

/// Whether a scope rule suppresses the alias for the given shell: a blacklist
/// suppresses exactly its members, a whitelist everything but its members,
/// and an absent rule nothing.
pub open spec fn spec_suppressed(shell: Shell, scope: ScopeView) -> bool {
    match scope {
        ScopeView::AllShells => false,
        ScopeView::Blacklist(ls) => ls.contains(shell),
        ScopeView::Whitelist(ls) => !ls.contains(shell),
    }
}

/// What rendering one alias for one shell produces: nothing when the scope
/// rule suppresses it, else the family's template applied to the alias.
pub open spec fn spec_render(shell: Shell, alias: AliasView) -> Option<Seq<char>> {
    if spec_suppressed(shell, alias.scope) {
        Option::None
    } else {
        Option::Some(spec_template(spec_family(shell), alias.name, alias.value))
    }
}

/// The full contract of `Shell::create_alias`: the result is present exactly
/// when the alias is not suppressed, and then holds the rendered declaration.
pub open spec fn create_alias_post(shell: Shell, alias: AliasView, r: Option<String>) -> bool {
    match r {
        Option::None => spec_render(shell, alias) is None,
        Option::Some(s) => spec_render(shell, alias) == Option::Some(s@),
    }
}

/// ASCII case folding of one character: uppercase letters map to their
/// lowercase counterparts, everything else is unchanged.
pub open spec fn lower_char(c: char) -> char {
    if 65 <= c as u32 && c as u32 <= 90 {
        ((c as u32 + 32) as u32) as char
    } else {
        c
    }
}

/// ASCII case folding of a whole string.
pub open spec fn lower(s: Seq<char>) -> Seq<char> {
    s.map_values(|c: char| lower_char(c))
}

/// The string with its trailing path separators removed.
pub open spec fn strip_trailing_slashes(s: Seq<char>) -> Seq<char>
    decreases s.len(),
{
    if s.len() > 0 && s.last() == '/' {
        strip_trailing_slashes(s.drop_last())
    } else {
        s
    }
}

/// The suffix after the last path separator (the whole string when there is
/// no separator).
pub open spec fn after_last_slash(s: Seq<char>) -> Seq<char>
    decreases s.len(),
{
    if s.len() == 0 {
        s
    } else if s.last() == '/' {
        Seq::empty()
    } else {
        after_last_slash(s.drop_last()).push(s.last())
    }
}

/// The final path segment of free-form shell text: trailing separators are
/// ignored, and only what follows the last remaining separator is kept.
pub open spec fn spec_segment(s: Seq<char>) -> Seq<char> {
    after_last_slash(strip_trailing_slashes(s))
}

/// The dialect a (case-folded) name denotes, if any; `csh` and `tcsh` are
/// spellings of the same dialect.
pub open spec fn shell_of_name(s: Seq<char>) -> Option<Shell> {
    if s == "bash"@ {
        Option::Some(Shell::Bash)
    } else if s == "fish"@ {
        Option::Some(Shell::Fish)
    } else if s == "zsh"@ {
        Option::Some(Shell::Zsh)
    } else if s == "tcsh"@ || s == "csh"@ {
        Option::Some(Shell::Tcsh)
    } else if s == "ksh"@ {
        Option::Some(Shell::Ksh)
    } else if s == "dash"@ {
        Option::Some(Shell::Dash)
    } else if s == "ash"@ {
        Option::Some(Shell::Ash)
    } else {
        Option::None
    }
}

/// The full contract of `Shell::from_str`: an empty or dot-only final
/// segment has no file name; otherwise the case-folded segment either names
/// a dialect, which is returned, or the segment itself comes back in the
/// error.
pub open spec fn resolve_post(text: Seq<char>, r: Result<Shell, ShellParsingError>) -> bool {
    let seg = spec_segment(text);
    if seg.len() == 0 || seg == "."@ || seg == ".."@ {
        r matches Err(e) && e is NoFileName
    } else {
        match shell_of_name(lower(seg)) {
            Option::Some(shell) => r == Ok::<Shell, ShellParsingError>(shell),
            Option::None => r matches Err(e) && e matches ShellParsingError::UnknownShell(t)
                && t@ == seg,
        }
    }
}

/// Whether a list of shells contains the target, by dialect identity.
fn shell_list_contains(ls: &Vec<Shell>, target: Shell) -> (r: bool)
    ensures
        r == ls@.contains(target),
{
    let mut i: usize = 0;
    while i < ls.len()
        invariant
            0 <= i <= ls@.len(),
            forall|j: int| 0 <= j < i ==> ls@[j] != target,
        decreases ls@.len() - i,
    {
        if ls[i] == target {
            assert(ls@[i as int] == target);
            return true;
        }
        i = i + 1;
    }
    false
}

/// ASCII case folding of one character, executable form.
fn lower_char_exec(c: char) -> (r: char)
    ensures
        r == lower_char(c),
{
    let code: u32 = c as u32;
    if 65 <= code && code <= 90 {
        ((code + 32) as u8) as char
    } else {
        c
    }
}

/// Whether the ASCII case folding of `s` equals `target` exactly.
fn matches_lower(s: &str, target: &str) -> (r: bool)
    ensures
        r == (lower(s@) == target@),
{
    let n = s.unicode_len();
    if n != target.unicode_len() {
        assert(lower(s@).len() == s@.len());
        return false;
    }
    let mut i: usize = 0;
    while i < n
        invariant
            i <= n,
            n == s@.len(),
            n == target@.len(),
            forall|j: int| 0 <= j < i ==> lower_char(s@[j]) == target@[j],
        decreases n - i,
    {
        let c = lower_char_exec(s.get_char(i));
        let t = target.get_char(i);
        if c != t {
            assert(lower(s@)[i as int] != target@[i as int]);
            return false;
        }
        i = i + 1;
    }
    assert(lower(s@) =~= target@);
    true
}

/// The suffix of `t` after its last `/` is exactly `t` from index `k` on,
/// when `k` sits just after the last `/` of `t`.
proof fn lemma_after_last_slash(t: Seq<char>, k: int)
    requires
        0 <= k <= t.len(),
        k == 0 || t[k - 1] == '/',
        forall|j: int| k <= j < t.len() ==> t[j] != '/',
    ensures
        after_last_slash(t) == t.subrange(k, t.len() as int),
    decreases t.len(),
{
    if t.len() == 0 {
        assert(after_last_slash(t) =~= t.subrange(k, t.len() as int));
    } else if t.last() == '/' {
        assert(k == t.len());
        assert(after_last_slash(t) =~= t.subrange(k, t.len() as int));
    } else {
        assert(k < t.len());
        lemma_after_last_slash(t.drop_last(), k);
        assert(t.drop_last().subrange(k, t.len() - 1).push(t.last()) =~= t.subrange(
            k,
            t.len() as int,
        ));
    }
}

/// Renders one declaration in the given family's syntax.
pub fn render_template(family: Family, name: &str, value: &str) -> (r: String)
    ensures
        r@ == spec_template(family, name@, value@),
{
    let mut r = String::from_str("alias ");
    r.append(name);
    match family {
        Family::PosixAssignment => r.append("=\""),
        Family::SpaceArgument => r.append(" \""),
    }
    r.append(value);
    r.append("\";");
    r
}

impl Shell {
    /// The syntax family this dialect renders with.
    pub fn family(&self) -> (f: Family)
        ensures
            f == spec_family(*self),
    {
        match self {
            Shell::Bash => Family::PosixAssignment,
            Shell::Fish => Family::SpaceArgument,
            Shell::Zsh => Family::PosixAssignment,
            Shell::Tcsh => Family::SpaceArgument,
            Shell::Ksh => Family::PosixAssignment,
            Shell::Dash => Family::PosixAssignment,
            Shell::Ash => Family::PosixAssignment,
        }
    }

    /// Renders the alias for this shell, or returns `None` when the alias's
    /// scope rule excludes this shell.
    pub fn create_alias(&self, alias: &Alias) -> (r: Option<String>)
        ensures
            create_alias_post(*self, alias@, r),
    {
        match &alias.shells {
            Option::Some(ShellList::Blacklist(ls)) => {
                if shell_list_contains(ls, *self) {
                    return Option::None;
                }
            }
            Option::Some(ShellList::Whitelist(ls)) => {
                if !shell_list_contains(ls, *self) {
                    return Option::None;
                }
            }
            Option::None => {}
        }
        Option::Some(render_template(self.family(), alias.alias.as_str(), alias.equals.as_str()))
    }

    /// Resolves free-form text (a bare name or a full interpreter path) to a
    /// dialect: the final path segment is matched case-insensitively against
    /// the known dialect names.
    pub fn from_str(s: &str) -> (r: Result<Shell, ShellParsingError>)
        ensures
            resolve_post(s@, r),
    {
        let n = s.unicode_len();
        proof {
            assert(s@.take(n as int) =~= s@);
        }
        let mut end: usize = n;
        while end > 0 && s.get_char(end - 1) == '/'
            invariant
                end <= n,
                n == s@.len(),
                strip_trailing_slashes(s@) == strip_trailing_slashes(s@.take(end as int)),
            decreases end,
        {
            proof {
                assert(s@.take(end as int).last() == s@[end - 1]);
                assert(s@.take(end as int).drop_last() =~= s@.take(end - 1));
            }
            end = end - 1;
        }
        proof {
            assert(strip_trailing_slashes(s@.take(end as int)) == s@.take(end as int));
        }
        let mut start: usize = end;
        while start > 0 && s.get_char(start - 1) != '/'
            invariant
                start <= end,
                end <= n,
                n == s@.len(),
                forall|j: int| start <= j < end ==> s@[j] != '/',
            decreases start,
        {
            start = start - 1;
        }
        proof {
            lemma_after_last_slash(s@.take(end as int), start as int);
            assert(s@.take(end as int).subrange(start as int, end as int) =~= s@.subrange(
                start as int,
                end as int,
            ));
            assert(spec_segment(s@) == s@.subrange(start as int, end as int));
            reveal_strlit(".");
            reveal_strlit("..");
        }
        let seg_len = end - start;
        if seg_len == 0 {
            return Result::Err(ShellParsingError::NoFileName);
        }
        let dot1 = seg_len == 1 && s.get_char(start) == '.';
        let dot2 = seg_len == 2 && s.get_char(start) == '.' && s.get_char(start + 1) == '.';
        if dot1 || dot2 {
            proof {
                if dot1 {
                    assert(spec_segment(s@) =~= "."@);
                }
                if dot2 {
                    assert(spec_segment(s@) =~= ".."@);
                }
            }
            return Result::Err(ShellParsingError::NoFileName);
        }
        proof {
            let seg = spec_segment(s@);
            assert(seg == s@.subrange(start as int, end as int));
            if seg == "."@ {
                assert(seg.len() == 1);
                assert(s@[start as int] == seg[0]);
                assert(s@[start as int] == '.');
                assert(false);
            }
            if seg == ".."@ {
                assert(seg.len() == 2);
                assert(s@[start as int] == seg[0]);
                assert(s@[start as int + 1] == seg[1]);
                assert(false);
            }
        }
        let segment = s.substring_char(start, end);
        if matches_lower(segment, "bash") {
            return Result::Ok(Shell::Bash);
        }
        if matches_lower(segment, "fish") {
            return Result::Ok(Shell::Fish);
        }
        if matches_lower(segment, "zsh") {
            return Result::Ok(Shell::Zsh);
        }
        if matches_lower(segment, "tcsh") || matches_lower(segment, "csh") {
            return Result::Ok(Shell::Tcsh);
        }
        if matches_lower(segment, "ksh") {
            return Result::Ok(Shell::Ksh);
        }
        if matches_lower(segment, "dash") {
            return Result::Ok(Shell::Dash);
        }
        if matches_lower(segment, "ash") {
            return Result::Ok(Shell::Ash);
        }
        Result::Err(ShellParsingError::UnknownShell(String::from_str(segment)))
    }

    /// Renders every applicable alias for this shell, in source order,
    /// concatenated with no separator: the trailing `;` of each declaration
    /// keeps them distinct.
    pub fn create_aliases(&self, aliases: &Vec<Alias>) -> (r: String)
        ensures
            r@ == spec_render_all(*self, views_of(aliases@)),
    {
        let mut r = String::new();
        let mut i: usize = 0;
        while i < aliases.len()
            invariant
                i <= aliases@.len(),
                r@ == spec_render_all(*self, views_of(aliases@.take(i as int))),
            decreases aliases@.len() - i,
        {
            match self.create_alias(&aliases[i]) {
                Option::Some(a) => r.append(a.as_str()),
                Option::None => {},
            }
            proof {
                let pre = views_of(aliases@.take(i as int));
                let post = views_of(aliases@.take(i as int + 1));
                assert(post.drop_last() =~= pre);
                assert(post.last() == aliases@[i as int]@);
            }
            i = i + 1;
        }
        proof {
            assert(aliases@.take(aliases@.len() as int) =~= aliases@);
        }
        r
    }
}

/// The models of a sequence of alias records.
pub open spec fn views_of(aliases: Seq<Alias>) -> Seq<AliasView> {
    aliases.map_values(|a: Alias| a@)
}

/// What rendering one alias contributes to the concatenated output: the
/// declaration, or nothing when the alias is suppressed.
pub open spec fn rendered_or_empty(shell: Shell, alias: AliasView) -> Seq<char> {
    match spec_render(shell, alias) {
        Option::Some(s) => s,
        Option::None => Seq::empty(),
    }
}

/// The concatenation, in source order and with no separator, of every
/// declaration rendered for the given shell.
pub open spec fn spec_render_all(shell: Shell, aliases: Seq<AliasView>) -> Seq<char>
    decreases aliases.len(),
{
    if aliases.len() == 0 {
        Seq::empty()
    } else {
        spec_render_all(shell, aliases.drop_last()) + rendered_or_empty(shell, aliases.last())
    }
}

/// An alias without a scope rule is never suppressed: rendering is present
/// for every shell.
pub proof fn lemma_no_scope_always_present(shell: Shell, alias: AliasView)
    requires
        alias.scope is AllShells,
    ensures
        spec_render(shell, alias) is Some,
{
}

/// With a blacklist, rendering is suppressed exactly for the listed shells.
pub proof fn lemma_blacklist_suppresses_members(shell: Shell, alias: AliasView, ls: Seq<Shell>)
    requires
        alias.scope == ScopeView::Blacklist(ls),
    ensures
        spec_render(shell, alias) is None <==> ls.contains(shell),
{
}

/// With a whitelist, rendering is present exactly for the listed shells.
pub proof fn lemma_whitelist_admits_members(shell: Shell, alias: AliasView, ls: Seq<Shell>)
    requires
        alias.scope == ScopeView::Whitelist(ls),
    ensures
        spec_render(shell, alias) is Some <==> ls.contains(shell),
{
}

/// Rendering is deterministic: any two results `create_alias` may return for
/// the same shell and alias agree, both in presence and in content.
pub proof fn lemma_render_deterministic(
    shell: Shell,
    alias: AliasView,
    r1: Option<String>,
    r2: Option<String>,
)
    requires
        create_alias_post(shell, alias, r1),
        create_alias_post(shell, alias, r2),
    ensures
        r1 is Some <==> r2 is Some,
        r1 matches Option::Some(s1) ==> (r2 matches Option::Some(s2) && s1@ == s2@),
{
}

/// Two dialects of the same family render the same alias identically
/// whenever both render it at all.
pub proof fn lemma_family_grouping(s1: Shell, s2: Shell, alias: AliasView)
    requires
        spec_family(s1) == spec_family(s2),
    ensures
        spec_render(s1, alias) is Some && spec_render(s2, alias) is Some ==> spec_render(
            s1,
            alias,
        ) == spec_render(s2, alias),
{
}

/// The diagnostic text for a resolution error.
pub open spec fn spec_message(e: ShellParsingError) -> Seq<char> {
    match e {
        ShellParsingError::UnknownShell(t) => "Unknown shell: "@ + t@,
        ShellParsingError::NoFileName => "Could not get file name from shell path"@,
        ShellParsingError::BorkedOsStr => "Could not convert shell OsStr to &str"@,
    }
}

impl ShellParsingError {
    /// The diagnostic text for this error.
    pub fn message(&self) -> (r: String)
        ensures
            r@ == spec_message(*self),
    {
        match self {
            ShellParsingError::UnknownShell(t) => String::from_str("Unknown shell: ").concat(
                t.as_str(),
            ),
            ShellParsingError::NoFileName => String::from_str(
                "Could not get file name from shell path",
            ),
            ShellParsingError::BorkedOsStr => String::from_str(
                "Could not convert shell OsStr to &str",
            ),
        }
    }
}

} // verus!
