use vstd::prelude::*;
use crate::alias::{names_unique, str_eq, Alias};

verus! {

/// How the line editor completes.
#[derive(Clone, Copy, Debug, PartialEq, Eq, Structural)]
pub enum CompletionType {
    Circular,
    List,
}

/// Key bindings of the line editor.
#[derive(Clone, Copy, Debug, PartialEq, Eq, Structural)]
pub enum EditMode {
    Emacs,
    Vi,
}

/// The settings that persist between sessions.
pub struct ClickConfig {
    pub namespace: Option<String>,
    pub context: Option<String>,
    pub editor: Option<String>,
    pub terminal: Option<String>,
    pub completiontype: CompletionType,
    pub editmode: EditMode,
    pub aliases: Vec<Alias>,
}

impl ClickConfig {
    /// Whether no two aliases share a name.
    pub fn aliases_unique(&self) -> (r: bool)
        ensures
            r == names_unique(self.aliases@),
    {
        let n = self.aliases.len();
        let mut i: usize = 0;
        while i < n
            invariant
                n == self.aliases@.len(),
                i <= n,
                forall|a: int, b: int|
                    0 <= a < i && 0 <= b < n && a != b ==> self.aliases@[a].alias@
                        != self.aliases@[b].alias@,
            decreases n - i,
        {
            let mut j: usize = 0;
            while j < n
                invariant
                    n == self.aliases@.len(),
                    i < n,
                    j <= n,
                    forall|b: int|
                        0 <= b < j && b != i ==> self.aliases@[i as int].alias@
                            != self.aliases@[b].alias@,
                decreases n - j,
            {
                if j != i && str_eq(self.aliases[i].alias.as_str(), self.aliases[j].alias.as_str()) {
                    return false;
                }
                j = j + 1;
            }
            i = i + 1;
        }
        true
    }
}

} // verus!
