use vstd::prelude::*;

verus! {

/// Optional strings as sequences of characters.
pub open spec fn opt_view(o: Option<String>) -> Option<Seq<char>> {
    match o {
        Some(s) => Some(s@),
        None => None,
    }
}

/// Base commands that replace the built-in push, fetch and checkout.
#[derive(Clone, Debug)]
pub struct GitExternCommands {
    /// base push command (git push)
    pub push_base: Option<String>,
    /// base fetch command (git fetch)
    pub fetch_base: Option<String>,
    /// base checkout command (git checkout)
    pub checkout_base: Option<String>,
}

impl GitExternCommands {
    pub open spec fn model(&self) -> (Option<Seq<char>>, Option<Seq<char>>, Option<Seq<char>>) {
        (opt_view(self.push_base), opt_view(self.fetch_base), opt_view(self.checkout_base))
    }
}

impl Default for GitExternCommands {
    fn default() -> (r: Self)
        ensures
            r.push_base.is_none(),
            r.fetch_base.is_none(),
            r.checkout_base.is_none(),
    {
        GitExternCommands { push_base: None, fetch_base: None, checkout_base: None }
    }
}

/// The `status.showUntrackedFiles` git config state.
#[derive(Clone, Copy, Debug, PartialEq, Eq, Hash, Structural)]
pub enum ShowUntrackedFilesConfig {
    No,
    Normal,
    All,
}

impl Default for ShowUntrackedFilesConfig {
    fn default() -> (r: Self)
        ensures
            r == ShowUntrackedFilesConfig::No,
    {
        ShowUntrackedFilesConfig::No
    }
}

impl ShowUntrackedFilesConfig {
    pub fn include_none(self) -> (r: bool)
        ensures
            r == (self == ShowUntrackedFilesConfig::No),
    {
        matches!(self, ShowUntrackedFilesConfig::No)
    }

    pub fn include_untracked(self) -> (r: bool)
        ensures
            r == (self == ShowUntrackedFilesConfig::Normal || self == ShowUntrackedFilesConfig::All),
    {
        matches!(self, ShowUntrackedFilesConfig::Normal | ShowUntrackedFilesConfig::All)
    }

    pub fn recurse_untracked_dirs(self) -> (r: bool)
        ensures
            r == (self == ShowUntrackedFilesConfig::All),
    {
        matches!(self, ShowUntrackedFilesConfig::All)
    }
}

/// The setting that a value of `status.showUntrackedFiles` stands for:
/// `no` and `normal` by name, anything else (or no value) means `all`.
pub open spec fn untracked_setting(value: Option<Seq<char>>) -> ShowUntrackedFilesConfig {
    match value {
        Some(v) => if v == seq!['n', 'o'] {
            ShowUntrackedFilesConfig::No
        } else if v == seq!['n', 'o', 'r', 'm', 'a', 'l'] {
            ShowUntrackedFilesConfig::Normal
        } else {
            ShowUntrackedFilesConfig::All
        },
        None => ShowUntrackedFilesConfig::All,
    }
}

/// Whether the characters of `s` are exactly `lit`.
pub fn str_is(s: &str, lit: &str) -> (r: bool)
    ensures
        r == (s@ == lit@),
{
    let a = crate::text::chars_of(s);
    let b = crate::text::chars_of(lit);
    if a.len() != b.len() {
        return false;
    }
    let mut i: usize = 0;
    while i < a.len()
        invariant
            a@ == s@,
            b@ == lit@,
            a@.len() == b@.len(),
            i <= a@.len(),
            forall|k: int| 0 <= k < i ==> a@[k] == b@[k],
        decreases a@.len() - i,
    {
        if a[i] != b[i] {
            return false;
        }
        i += 1;
    }
    assert(a@ =~= b@);
    true
}

/// Interprets the value of `status.showUntrackedFiles`.
pub fn untracked_config_from_value(value: Option<&str>) -> (r: ShowUntrackedFilesConfig)
    ensures
        r == untracked_setting(match value {
            Some(v) => Some(v@),
            None => None,
        }),
{
    proof {
        reveal_strlit("no");
        reveal_strlit("normal");
    }
    match value {
        Some(v) => {
            if str_is(v, "no") {
                assert("no"@ =~= seq!['n', 'o']);
                ShowUntrackedFilesConfig::No
            } else if str_is(v, "normal") {
                assert("normal"@ =~= seq!['n', 'o', 'r', 'm', 'a', 'l']);
                ShowUntrackedFilesConfig::Normal
            } else {
                assert("no"@ =~= seq!['n', 'o']);
                assert("normal"@ =~= seq!['n', 'o', 'r', 'm', 'a', 'l']);
                ShowUntrackedFilesConfig::All
            }
        },
        None => ShowUntrackedFilesConfig::All,
    }
}

/// Diff settings: whitespace handling, context lines and lines between hunks.
#[derive(Clone, Copy, Debug, PartialEq, Eq, Structural)]
pub struct DiffOptions {
    pub ignore_whitespace: bool,
    pub context: u32,
    pub interhunk_lines: u32,
}

impl Default for DiffOptions {
    fn default() -> (r: Self)
        ensures
            r == (DiffOptions { ignore_whitespace: false, context: 3, interhunk_lines: 0 }),
    {
        DiffOptions { ignore_whitespace: false, context: 3, interhunk_lines: 0 }
    }
}

} // verus!
