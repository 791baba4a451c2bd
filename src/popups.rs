use vstd::prelude::*;
use crate::blame_search::string_of;
use crate::text::push_str;

verus! {

/// An option that the options popup can change.
#[derive(Clone, Copy, Debug, PartialEq, Eq, Structural)]
pub enum AppOption {
    StatusShowUntracked,
    DiffIgnoreWhitespaces,
    DiffContextLines,
    DiffInterhunkLines,
}

/// The tabs of the options popup.
#[derive(Clone, Copy, Debug, PartialEq, Eq, Structural)]
pub enum TabType {
    Misc,
    GitCmds,
}

impl TabType {
    /// The other tab.
    pub fn next(self) -> (r: Self)
        ensures
            r != self,
    {
        match self {
            TabType::Misc => TabType::GitCmds,
            TabType::GitCmds => TabType::Misc,
        }
    }
}

/// The configurable git base commands, in the order the popup lists them.
#[derive(Clone, Copy, Debug, PartialEq, Eq, Structural)]
pub enum GitCmdOption {
    GitPush,
    GitFetch,
    GitCheckout,
}

impl GitCmdOption {
    pub open spec fn index(self) -> int {
        match self {
            GitCmdOption::GitPush => 0,
            GitCmdOption::GitFetch => 1,
            GitCmdOption::GitCheckout => 2,
        }
    }

    /// Selects the following entry, cycling.
    pub fn next(&mut self)
        ensures
            final(self).index() == (old(self).index() + 1) % 3,
    {
        *self = match *self {
            GitCmdOption::GitPush => GitCmdOption::GitFetch,
            GitCmdOption::GitFetch => GitCmdOption::GitCheckout,
            GitCmdOption::GitCheckout => GitCmdOption::GitPush,
        };
    }

    /// Selects the preceding entry, cycling.
    pub fn prev(&mut self)
        ensures
            final(self).index() == (old(self).index() + 2) % 3,
    {
        *self = match *self {
            GitCmdOption::GitPush => GitCmdOption::GitCheckout,
            GitCmdOption::GitCheckout => GitCmdOption::GitFetch,
            GitCmdOption::GitFetch => GitCmdOption::GitPush,
        };
    }
}

/// Which pane of the split log view has the focus.
#[derive(Clone, Copy, Debug, PartialEq, Eq, Structural)]
pub enum Focus {
    MainLog,
    CompareLog,
}

impl Focus {
    /// The other pane.
    pub fn get_next(&self) -> (r: Focus)
        ensures
            r != *self,
    {
        match self {
            Focus::CompareLog => Focus::MainLog,
            Focus::MainLog => Focus::CompareLog,
        }
    }
}

/// A search the commit list could not finish on the loaded commits, which
/// the application satisfies by loading more.
#[derive(Clone, Copy, Debug, PartialEq, Eq, Structural)]
pub enum ExternalSearchRequest {
    Empty,
    Forward,
    Backward,
}

/// Modifiers of a push.
#[derive(Clone, Copy, Debug, PartialEq, Eq, Structural)]
pub enum PushComponentModifier {
    Plain,
    Force,
    Delete,
    ForceDelete,
}

impl PushComponentModifier {
    pub fn force(&self) -> (r: bool)
        ensures
            r == (*self == PushComponentModifier::Force || *self == PushComponentModifier::ForceDelete),
    {
        *self == PushComponentModifier::Force || *self == PushComponentModifier::ForceDelete
    }

    pub fn delete(&self) -> (r: bool)
        ensures
            r == (*self == PushComponentModifier::Delete || *self == PushComponentModifier::ForceDelete),
    {
        *self == PushComponentModifier::Delete || *self == PushComponentModifier::ForceDelete
    }
}

/// How many fields the search options popup has.
pub const FIELD_COUNT: usize = 3;

/// The title of the search options popup for the chosen fields.
pub open spec fn search_title(author: bool, message: bool, sha: bool) -> Seq<char> {
    let head = seq!['S', 'e', 'a', 'r', 'c', 'h', ' ', 'f', 'o', 'r', '.', '.', '.'];
    if author || message || sha {
        head + seq![' ', '('] + (if author { seq!['A', 'u', 't', 'h', 'o', 'r', ' '] } else { Seq::empty() })
            + (if message { seq!['M', 'e', 's', 's', 'a', 'g', 'e', ' '] } else { Seq::empty() })
            + (if sha { seq!['S', 'H', 'A', ' '] } else { Seq::empty() }) + seq![')']
    } else {
        head
    }
}

/// The popup that picks which commit fields a search looks at.
#[derive(Clone, Debug)]
pub struct SearchOptionsPopupComponent {
    pub visible: bool,
    pub author: bool,
    pub message: bool,
    pub sha: bool,
    pub selected_idx: usize,
    pub title: String,
}

impl SearchOptionsPopupComponent {
    pub fn new() -> (r: Self)
        ensures
            !r.visible,
            r.author && r.message && r.sha,
            r.selected_idx == 0,
            r.title@ == search_title(true, true, true),
    {
        let mut r = SearchOptionsPopupComponent {
            visible: false,
            author: true,
            message: true,
            sha: true,
            selected_idx: 0,
            title: String::new(),
        };
        r.update_title();
        r
    }

    /// Rewrites the title from the chosen fields.
    pub fn update_title(&mut self)
        ensures
            final(self).title@ == search_title(old(self).author, old(self).message, old(self).sha),
            final(self).visible == old(self).visible,
            final(self).author == old(self).author,
            final(self).message == old(self).message,
            final(self).sha == old(self).sha,
            final(self).selected_idx == old(self).selected_idx,
    {
        proof {
            reveal_strlit("Search for...");
            reveal_strlit(" (");
            reveal_strlit("Author ");
            reveal_strlit("Message ");
            reveal_strlit("SHA ");
            reveal_strlit(")");
        }
        let mut v: Vec<char> = Vec::new();
        push_str(&mut v, "Search for...");
        if self.author || self.message || self.sha {
            push_str(&mut v, " (");
            if self.author {
                push_str(&mut v, "Author ");
            }
            if self.message {
                push_str(&mut v, "Message ");
            }
            if self.sha {
                push_str(&mut v, "SHA ");
            }
            push_str(&mut v, ")");
        }
        assert(v@ =~= search_title(self.author, self.message, self.sha));
        self.title = string_of(&v);
    }

    pub fn enable_all(&mut self)
        ensures
            final(self).author && final(self).message && final(self).sha,
            final(self).title@ == search_title(true, true, true),
            final(self).selected_idx == old(self).selected_idx,
            final(self).visible == old(self).visible,
    {
        self.author = true;
        self.message = true;
        self.sha = true;
        self.update_title();
    }

    pub fn author_only(&mut self)
        ensures
            final(self).author && !final(self).message && !final(self).sha,
            final(self).title@ == search_title(true, false, false),
            final(self).selected_idx == old(self).selected_idx,
            final(self).visible == old(self).visible,
    {
        self.author = true;
        self.message = false;
        self.sha = false;
        self.update_title();
    }

    pub fn message_only(&mut self)
        ensures
            !final(self).author && final(self).message && !final(self).sha,
            final(self).title@ == search_title(false, true, false),
            final(self).selected_idx == old(self).selected_idx,
            final(self).visible == old(self).visible,
    {
        self.author = false;
        self.message = true;
        self.sha = false;
        self.update_title();
    }

    pub fn sha_only(&mut self)
        ensures
            !final(self).author && !final(self).message && final(self).sha,
            final(self).title@ == search_title(false, false, true),
            final(self).selected_idx == old(self).selected_idx,
            final(self).visible == old(self).visible,
    {
        self.author = false;
        self.message = false;
        self.sha = true;
        self.update_title();
    }

    /// Flips the selected field.
    pub fn toggle_selected(&mut self)
        ensures
            final(self).author == (if old(self).selected_idx == 0 { !old(self).author } else { old(self).author }),
            final(self).message == (if old(self).selected_idx == 1 { !old(self).message } else { old(self).message }),
            final(self).sha == (if old(self).selected_idx == 2 { !old(self).sha } else { old(self).sha }),
            final(self).selected_idx == old(self).selected_idx,
            final(self).title == old(self).title,
            final(self).visible == old(self).visible,
    {
        if self.selected_idx == 0 {
            self.author = !self.author;
        } else if self.selected_idx == 1 {
            self.message = !self.message;
        } else if self.selected_idx == 2 {
            self.sha = !self.sha;
        }
    }

    /// Moves the field cursor down or up, cycling over the fields.
    pub fn move_selection(&mut self, down: bool)
        requires
            old(self).selected_idx < FIELD_COUNT,
        ensures
            final(self).selected_idx == (if down {
                (old(self).selected_idx + 1) % 3
            } else {
                (old(self).selected_idx + 2) % 3
            }),
            final(self).author == old(self).author,
            final(self).message == old(self).message,
            final(self).sha == old(self).sha,
            final(self).title == old(self).title,
            final(self).visible == old(self).visible,
    {
        self.selected_idx = if down {
            (self.selected_idx + 1) % FIELD_COUNT
        } else {
            (self.selected_idx + FIELD_COUNT - 1) % FIELD_COUNT
        };
    }

    /// Hides the popup and refreshes its title.
    pub fn close(&mut self)
        ensures
            !final(self).visible,
            final(self).title@ == search_title(old(self).author, old(self).message, old(self).sha),
            final(self).author == old(self).author,
            final(self).message == old(self).message,
            final(self).sha == old(self).sha,
            final(self).selected_idx == old(self).selected_idx,
    {
        self.visible = false;
        self.update_title();
    }
}

} // verus!
