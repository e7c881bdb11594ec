//! Delete one or all layers of the client UI.
use vstd::prelude::*;

use crate::ui::common::{AsCommand, Command};

verus! {

/// What to delete.
#[derive(Debug, Clone, Copy, PartialEq, Eq)]
pub enum DeleteType {
    /// Code 0.
    NoOperation,
    /// Code 1.
    DeleteLayer,
    /// Code 2.
    DeleteAllLayers,
}

impl DeleteType {
    /// The wire code.
    pub open spec fn spec_code(self) -> u8 {
        match self {
            DeleteType::NoOperation => 0,
            DeleteType::DeleteLayer => 1,
            DeleteType::DeleteAllLayers => 2,
        }
    }

    /// The wire code.
    pub fn code(&self) -> (r: u8)
        ensures
            r == self.spec_code(),
    {
        match self {
            DeleteType::NoOperation => 0,
            DeleteType::DeleteLayer => 1,
            DeleteType::DeleteAllLayers => 2,
        }
    }
}

/// The delete codes of the client UI protocol: no operation 0, delete a
/// layer 1, delete all layers 2.
pub proof fn lemma_delete_codes()
    ensures
        DeleteType::NoOperation.spec_code() == 0,
        DeleteType::DeleteLayer.spec_code() == 1,
        DeleteType::DeleteAllLayers.spec_code() == 2,
{
}

/// Robot to Client
#[derive(Debug, Clone, Copy, PartialEq, Eq)]
pub struct DeleteLayer {
    pub delete_type: DeleteType,
    pub layer: u8,
}

impl DeleteLayer {
    pub fn new(delete_type: DeleteType, layer: u8) -> (r: Self)
        ensures
            r.delete_type == delete_type,
            r.layer == layer,
    {
        Self { delete_type, layer }
    }
}

impl AsCommand<2> for DeleteLayer {
    open spec fn spec_command(&self) -> Command {
        Command::DeleteLayer
    }

    open spec fn spec_data(&self) -> Seq<u8> {
        seq![self.delete_type.spec_code(), self.layer]
    }

    fn as_command(&self) -> (r: Command) {
        Command::DeleteLayer
    }

    fn as_data(&self) -> (r: [u8; 2]) {
        let r = [self.delete_type.code(), self.layer];
        assert(r@ =~= self.spec_data());
        r
    }
}

} // verus!
