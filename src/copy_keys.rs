use vstd::prelude::*;

verus! {

/// The popup listing the keys of the diff's copy commands.
#[derive(Clone, Copy, Debug)]
pub struct CopyPopupComponent {
    pub visible: bool,
}

impl CopyPopupComponent {
    pub fn new() -> (r: Self)
        ensures
            !r.visible,
    {
        CopyPopupComponent { visible: false }
    }
}

} // verus!
