//! Token issuance: a static credential check and a check of the grant form.
//! This is no OAuth2 server: whoever presents the configured header and a
//! well-formed form gets the one configured token.

use vstd::prelude::*;
use vstd::utf8::encode_utf8;
use crate::authorizer::{header_bytes, header_is, Secrets};
use crate::errors::ApiError;
use crate::text::str_equal;

verus! {

/// One field of the grant form: its name, if it has one, and its text.
#[derive(Debug, PartialEq, Eq)]
pub struct FormField {
    pub name: Option<String>,
    pub text: String,
}

/// The mathematical value of a [`FormField`].
pub struct FormFieldView {
    pub name: Option<Seq<char>>,
    pub text: Seq<char>,
}

impl DeepView for FormField {
    type V = FormFieldView;

    open spec fn deep_view(&self) -> FormFieldView {
        FormFieldView { name: self.name.deep_view(), text: self.text@ }
    }
}

impl View for FormField {
    type V = FormFieldView;

    open spec fn view(&self) -> FormFieldView {
        self.deep_view()
    }
}

/// What a field of the grant form is, going by its name.
#[derive(Debug, PartialEq, Eq, Clone, Copy, Structural)]
pub enum FieldKind {
    /// The field `grant_type`.
    GrantType,
    /// The field `scope`.
    Scope,
    /// Any other field, or one without a name.
    Other,
}

/// The kind of the field called `name`.
pub open spec fn field_kind(name: Option<Seq<char>>) -> FieldKind {
    if name == Some("grant_type"@) {
        FieldKind::GrantType
    } else if name == Some("scope"@) {
        FieldKind::Scope
    } else {
        FieldKind::Other
    }
}

/// Says what the field called `name` is. Only the text of a `grant_type` field
/// matters to the form; a reader may skip the text of the others.
pub fn classify_field(name: Option<&str>) -> (kind: FieldKind)
    ensures
        kind == field_kind(name.deep_view()),
{
    match name {
        Some(name) => {
            if str_equal(name, "grant_type") {
                FieldKind::GrantType
            } else if str_equal(name, "scope") {
                FieldKind::Scope
            } else {
                FieldKind::Other
            }
        },
        None => FieldKind::Other,
    }
}

/// What has been seen of a grant form so far.
#[derive(Debug, PartialEq, Eq, Clone, Copy, Structural)]
pub struct GrantForm {
    pub found_grant_type: bool,
    pub found_scope: bool,
}

impl GrantForm {
    /// The form of which nothing has been seen.
    pub open spec fn blank() -> GrantForm {
        GrantForm { found_grant_type: false, found_scope: false }
    }

    /// The form after `field`, or why the field is refused: a grant type other
    /// than `client_credentials`, or a field that is neither `grant_type` nor
    /// `scope`.
    pub open spec fn after(self, field: FormFieldView) -> Result<GrantForm, ApiError> {
        match field_kind(field.name) {
            FieldKind::GrantType => if field.text == "client_credentials"@ {
                Ok(GrantForm { found_grant_type: true, found_scope: self.found_scope })
            } else {
                Err(ApiError::InvalidGrantType)
            },
            FieldKind::Scope => Ok(
                GrantForm { found_grant_type: self.found_grant_type, found_scope: true },
            ),
            FieldKind::Other => Err(ApiError::InvalidFormData),
        }
    }

    /// Whether the form is complete once its fields are read: both
    /// `grant_type` and `scope` must have been there.
    pub open spec fn closing(self) -> Result<(), ApiError> {
        if self.found_grant_type && self.found_scope {
            Ok(())
        } else {
            Err(ApiError::MissingGrantFields)
        }
    }

    /// How the form ends when `fields` follow what was seen: the first field
    /// that is refused decides, else the closing check.
    pub open spec fn outcome(self, fields: Seq<FormFieldView>) -> Result<(), ApiError>
        decreases fields.len(),
    {
        if fields.len() == 0 {
            self.closing()
        } else {
            match self.after(fields.first()) {
                Ok(next) => next.outcome(fields.drop_first()),
                Err(error) => Err(error),
            }
        }
    }

    /// A form of which nothing has been seen.
    pub fn new() -> (form: GrantForm)
        ensures
            form == GrantForm::blank(),
    {
        GrantForm { found_grant_type: false, found_scope: false }
    }

    /// Takes in one field.
    pub fn accept(self, name: Option<&str>, text: &str) -> (result: Result<GrantForm, ApiError>)
        ensures
            result == self.after(FormFieldView { name: name.deep_view(), text: text@ }),
    {
        match classify_field(name) {
            FieldKind::GrantType => {
                if str_equal(text, "client_credentials") {
                    Ok(GrantForm { found_grant_type: true, found_scope: self.found_scope })
                } else {
                    Err(ApiError::InvalidGrantType)
                }
            },
            FieldKind::Scope => Ok(
                GrantForm { found_grant_type: self.found_grant_type, found_scope: true },
            ),
            FieldKind::Other => Err(ApiError::InvalidFormData),
        }
    }

    /// Closes the form after its last field.
    pub fn finish(self) -> (result: Result<(), ApiError>)
        ensures
            result == self.closing(),
    {
        if self.found_grant_type && self.found_scope {
            Ok(())
        } else {
            Err(ApiError::MissingGrantFields)
        }
    }
}

/// Whether the header lets a caller ask for a token: it must be there, and be
/// the configured header byte for byte.
pub open spec fn grant_gate(expected: Seq<char>, header: Option<Seq<u8>>) -> Result<(), ApiError> {
    match header {
        None => Err(ApiError::MissingAuthorization),
        Some(bytes) => if bytes == encode_utf8(expected) {
            Ok(())
        } else {
            Err(ApiError::InvalidCredentials)
        },
    }
}

/// How a request for a token ends: the header is checked first, then the form.
pub open spec fn grant_outcome(
    expected: Seq<char>,
    header: Option<Seq<u8>>,
    fields: Seq<FormFieldView>,
) -> Result<(), ApiError> {
    match grant_gate(expected, header) {
        Ok(()) => GrantForm::blank().outcome(fields),
        Err(error) => Err(error),
    }
}

/// Checks the header of a request for a token.
pub fn check_grant_header(secrets: &Secrets, header: Option<&[u8]>) -> (result: Result<
    (),
    ApiError,
>)
    ensures
        result == grant_gate(secrets.basic_auth_header@, header_bytes(header)),
{
    if header.is_none() {
        return Err(ApiError::MissingAuthorization);
    }
    if header_is(header, secrets.basic_auth_header.as_str()) {
        Ok(())
    } else {
        Err(ApiError::InvalidCredentials)
    }
}

/// Checks a grant form that was read as a whole.
pub fn check_grant_form(fields: &Vec<FormField>) -> (result: Result<(), ApiError>)
    ensures
        result == GrantForm::blank().outcome(fields.deep_view()),
{
    let ghost all = fields.deep_view();
    let mut form = GrantForm::new();
    let mut i: usize = 0;
    assert(all.skip(0) =~= all);
    while i < fields.len()
        invariant
            i <= fields@.len(),
            all == fields.deep_view(),
            GrantForm::blank().outcome(all) == form.outcome(all.skip(i as int)),
        decreases fields@.len() - i,
    {
        let field = &fields[i];
        let name: Option<&str> = match &field.name {
            Some(name) => Some(name.as_str()),
            None => None,
        };
        proof {
            assert(all.skip(i as int).first() == field@);
            assert(all.skip(i as int).drop_first() =~= all.skip(i + 1));
        }
        match form.accept(name, field.text.as_str()) {
            Ok(next) => {
                form = next;
            },
            Err(error) => {
                return Err(error);
            },
        }
        i = i + 1;
    }
    form.finish()
}

} // verus!
