//! The code form: the user writes a program in it, and submitting it runs the
//! program in the language that the form's correlation identifier carries.

use vstd::prelude::*;
use crate::error::Error;
use crate::handlers::commands::code::{execute_request, runs};
use crate::models::api::code::ExecuteRequest;
use crate::models::custom_id::{decoded, encoded, CustomId, CustomIdView};
use crate::models::interaction::{ModalComponent, ModalInteraction};
use crate::models::reply::{InputTextSpec, InputTextStyle, ModalSpec, ResponsePattern};

verus! {

/// The handler of the code form.
pub struct CodeModal;

/// The correlation identifier of a code form that carries `data`.
pub open spec fn code_modal_id(data: Seq<Seq<char>>) -> Result<Seq<char>, Error> {
    match encoded(CustomIdView { id: "code"@, data }) {
        Ok(text) => Ok(text),
        Err(error) => Err(Error::CustomId(error)),
    }
}

/// Whether `modal` is the code form that carries `data`: titled, with one
/// required paragraph field for the program, and `data` in its correlation
/// identifier.
pub open spec fn is_code_modal(modal: ModalSpec, data: Seq<Seq<char>>) -> bool {
    &&& code_modal_id(data) == Ok::<Seq<char>, Error>(modal.custom_id@)
    &&& modal.title@ == "Execute Code"@
    &&& modal.fields@.len() == 1
    &&& modal.fields@[0].style == InputTextStyle::Paragraph
    &&& modal.fields@[0].label@ == "Code"@
    &&& modal.fields@[0].custom_id@ == "code"@
    &&& modal.fields@[0].required
}

/// The language that a submitted code form is for: the first field of its
/// correlation identifier.
pub open spec fn modal_language(custom_id: Seq<char>) -> Result<Seq<char>, Error> {
    match decoded(custom_id) {
        Err(error) => Err(Error::CustomId(error)),
        Ok(read) => if read.data.len() == 0 {
            Err(Error::MissingModalLanguage)
        } else {
            Ok(read.data[0])
        },
    }
}

/// The program that a submitted code form holds: what was written in the
/// first field of its first row.
pub open spec fn modal_program(rows: Seq<Vec<ModalComponent>>) -> Result<Seq<char>, Error> {
    if rows.len() == 0 {
        Err(Error::MissingCodeRow)
    } else if rows[0]@.len() == 0 {
        Err(Error::MissingCodeComponent)
    } else {
        match rows[0]@[0] {
            ModalComponent::InputText(Some(code)) => Ok(code@),
            _ => Err(Error::CodeNotText),
        }
    }
}

impl CodeModal {
    /// How a submitted form is answered: it is acknowledged once the language
    /// and the program are read, and answered when the execution is over.
    pub fn pattern() -> (pattern: ResponsePattern)
        ensures
            pattern == ResponsePattern::Deferred,
    {
        ResponsePattern::Deferred
    }

    /// The form to open: one required paragraph field for the program, and
    /// `data` in the correlation identifier.
    pub fn modal(data: Vec<String>) -> (made: Result<ModalSpec, Error>)
        ensures
            match made {
                Ok(modal) => is_code_modal(modal, crate::text::views(data@)),
                Err(error) => code_modal_id(crate::text::views(data@)) == Err::<Seq<char>, Error>(
                    error,
                ),
            },
    {
        let custom_id = match CustomId::new("code").data(data).try_to_string() {
            Ok(text) => text,
            Err(error) => {
                return Err(Error::CustomId(error));
            },
        };
        let mut fields: Vec<InputTextSpec> = Vec::new();
        fields.push(
            InputTextSpec {
                style: InputTextStyle::Paragraph,
                label: "Code".to_owned(),
                custom_id: "code".to_owned(),
                required: true,
            },
        );
        Ok(ModalSpec { custom_id, title: "Execute Code".to_owned(), fields })
    }

    /// Reads the language and the program out of a submitted form and makes
    /// the request that runs the program. The language is looked for first.
    pub fn handle_modal(interaction: &ModalInteraction) -> (request: Result<ExecuteRequest, Error>)
        ensures
            match request {
                Ok(request) => modal_language(interaction.custom_id@) is Ok && modal_program(
                    interaction.rows@,
                ) is Ok && runs(
                    request,
                    modal_language(interaction.custom_id@)->Ok_0,
                    modal_program(interaction.rows@)->Ok_0,
                ),
                Err(error) => match modal_language(interaction.custom_id@) {
                    Err(first) => error == first,
                    Ok(_) => modal_program(interaction.rows@) == Err::<Seq<char>, Error>(error),
                },
            },
    {
        let custom_id = match CustomId::decode(interaction.custom_id.as_str()) {
            Ok(custom_id) => custom_id,
            Err(error) => {
                return Err(Error::CustomId(error));
            },
        };
        if custom_id.data.len() == 0 {
            return Err(Error::MissingModalLanguage);
        }
        let language = &custom_id.data[0];
        if interaction.rows.len() == 0 {
            return Err(Error::MissingCodeRow);
        }
        let row = &interaction.rows[0];
        if row.len() == 0 {
            return Err(Error::MissingCodeComponent);
        }
        match &row[0] {
            ModalComponent::InputText(Some(code)) => Ok(
                execute_request(language.as_str(), code.as_str()),
            ),
            _ => Err(Error::CodeNotText),
        }
    }
}

} // verus!
