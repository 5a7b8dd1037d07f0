//! Forms: routing by the name in the correlation identifier, and one handler
//! for each form.

pub mod code;

use vstd::prelude::*;
use crate::error::Error;
use crate::models::custom_id::{decoded, CustomId};
use crate::models::interaction::ModalInteraction;
use crate::text::same_text;

verus! {

/// The forms that the gateway handles.
#[derive(Debug, Clone, Copy, PartialEq, Eq, Structural)]
pub enum ModalKind {
    Code,
}

/// The handler registered under a form's name, if there is one. Names are
/// compared exactly, letter case included.
pub open spec fn registered_modal(id: Seq<char>) -> Option<ModalKind> {
    if id == "code"@ {
        Some(ModalKind::Code)
    } else {
        None
    }
}

/// Routes a submitted form to its handler.
pub fn handle_interaction(interaction: &ModalInteraction) -> (routed: Result<ModalKind, Error>)
    ensures
        match routed {
            Ok(kind) => decoded(interaction.custom_id@) is Ok && registered_modal(
                decoded(interaction.custom_id@)->Ok_0.id,
            ) == Some(kind),
            Err(Error::CustomId(error)) => decoded(interaction.custom_id@) == Err::<
                crate::models::custom_id::CustomIdView,
                crate::models::custom_id::CustomIdError,
            >(error),
            Err(Error::UnknownModal(id)) => decoded(interaction.custom_id@) is Ok && id@
                == decoded(interaction.custom_id@)->Ok_0.id && registered_modal(id@) is None,
            Err(_) => false,
        },
{
    match CustomId::decode(interaction.custom_id.as_str()) {
        Err(error) => Err(Error::CustomId(error)),
        Ok(custom_id) => {
            if same_text(custom_id.id.as_str(), "code") {
                Ok(ModalKind::Code)
            } else {
                Err(Error::UnknownModal(custom_id.id))
            }
        },
    }
}

} // verus!
