//! The input of the generator: an impl block whose functions may be marked
//! as factories.

use crate::item::{ItemImpl, ItemImplView};
use vstd::prelude::*;

verus! {

#[derive(Debug, PartialEq, Eq)]
pub struct Ast {
    pub item: ItemImpl,
}

impl View for Ast {
    type V = ItemImplView;

    open spec fn view(&self) -> ItemImplView {
        self.item@
    }
}

} // verus!
