use vstd::prelude::*;
use crate::commit::{hex_of, CommitId};
use crate::queue::CopyClipboardOpen;
use crate::rebase_todo::join_lines;
use crate::text::push_str;

verus! {

/// A key as the copy popup sees it, after the key bindings were applied.
#[derive(Clone, Copy, Debug, PartialEq, Eq, Structural)]
pub enum CopyKey {
    Exit,
    Sha,
    Email,
    Author,
    Message,
    Summary,
    Other,
}

/// Which detail of the commits is copied.
#[derive(Clone, Copy, Debug, PartialEq, Eq, Structural)]
pub enum CopyField {
    Sha,
    Email,
    Author,
    Message,
    Summary,
}

/// The full ids of `ids`, one per line.
pub fn sha_text(ids: &Vec<CommitId>) -> (r: String)
    ensures
        r@ == join_lines(ids@.map_values(|c: CommitId| hex_of(c.bytes@))),
{
    let ghost all = ids@.map_values(|c: CommitId| hex_of(c.bytes@));
    let mut v: Vec<char> = Vec::new();
    let mut i: usize = 0;
    while i < ids.len()
        invariant
            all == ids@.map_values(|c: CommitId| hex_of(c.bytes@)),
            i <= ids@.len(),
            v@ == join_lines(all.subrange(0, i as int)),
        decreases ids@.len() - i,
    {
        let ghost sub = all.subrange(0, i + 1);
        assert(sub.drop_last() =~= all.subrange(0, i as int));
        let line = ids[i].to_hex_string();
        if i > 0 {
            v.push('\n');
        }
        push_str(&mut v, line.as_str());
        proof {
            if i == 0 {
                assert(v@ =~= sub[0]);
            } else {
                assert(v@ =~= join_lines(sub.drop_last()) + seq!['\n'] + sub.last());
            }
        }
        i += 1;
    }
    assert(all.subrange(0, ids@.len() as int) =~= all);
    crate::blame_search::string_of(&v)
}

/// The popup offering to copy details of commits.
#[derive(Clone, Debug)]
pub struct CopyPopupComponent {
    pub visible: bool,
    pub copy_request: Option<CopyClipboardOpen>,
}

impl CopyPopupComponent {
    pub fn new() -> (r: Self)
        ensures
            !r.visible,
            r.copy_request.is_none(),
    {
        CopyPopupComponent { visible: false, copy_request: None }
    }

    /// Shows the popup for the given commits.
    pub fn open(&mut self, copy: CopyClipboardOpen)
        ensures
            final(self).visible,
            final(self).copy_request == Some(copy),
    {
        self.copy_request = Some(copy);
        self.visible = true;
    }

    /// Handles a key: Escape closes the popup; a copy key closes it and
    /// names the detail to copy, if commits were given.
    pub fn event(&mut self, key: CopyKey) -> (r: Option<CopyField>)
        requires
            old(self).visible,
        ensures
            key == CopyKey::Other ==> r.is_none() && final(self).visible,
            key != CopyKey::Other ==> !final(self).visible,
            key == CopyKey::Exit ==> r.is_none(),
            key != CopyKey::Exit && key != CopyKey::Other ==> (r.is_some() <==> old(self).copy_request.is_some()),
            r == Some(CopyField::Sha) ==> key == CopyKey::Sha,
            r == Some(CopyField::Email) ==> key == CopyKey::Email,
            r == Some(CopyField::Author) ==> key == CopyKey::Author,
            r == Some(CopyField::Message) ==> key == CopyKey::Message,
            r == Some(CopyField::Summary) ==> key == CopyKey::Summary,
            final(self).copy_request == old(self).copy_request,
    {
        let field = match key {
            CopyKey::Exit => {
                self.visible = false;
                return None;
            },
            CopyKey::Sha => CopyField::Sha,
            CopyKey::Email => CopyField::Email,
            CopyKey::Author => CopyField::Author,
            CopyKey::Message => CopyField::Message,
            CopyKey::Summary => CopyField::Summary,
            CopyKey::Other => {
                return None;
            },
        };
        self.visible = false;
        if self.copy_request.is_some() {
            Some(field)
        } else {
            None
        }
    }
}

} // verus!
