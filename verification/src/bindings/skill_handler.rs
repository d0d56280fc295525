//! What a host sees of a skill: its errors and its description.
use vstd::prelude::*;

verus! {

/// The text `text` between double quotes, with the characters that cannot
/// stand there escaped: what `{:?}` prints for a string.
pub uninterp spec fn debug_text(text: Seq<char>) -> Seq<char>;

/// Formats a string with `{:?}`, that is with the `Debug` of `str`.
///
/// The contract claims that the result depends on the characters alone and
/// gives it the name [`debug_text`].
#[verifier::external_body]
fn debug_quote(text: &str) -> (quoted: String)
    ensures
        quoted@ == debug_text(text@),
{
    format!("{:?}", text)
}

/// What an [`Error`] holds.
pub enum ErrorView {
    Internal(Seq<char>),
    InvalidInput(Seq<char>),
}

/// Why a run of a skill failed. There are no other kinds.
#[derive(Clone, Debug, PartialEq)]
pub enum Error {
    /// The skill failed, or its output could not be encoded. Holds the
    /// description of the failure.
    Internal(String),
    /// The input could not be decoded. Holds the reason.
    InvalidInput(String),
}

impl View for Error {
    type V = ErrorView;

    open spec fn view(&self) -> ErrorView {
        match self {
            Error::Internal(reason) => ErrorView::Internal(reason@),
            Error::InvalidInput(reason) => ErrorView::InvalidInput(reason@),
        }
    }
}

impl ErrorView {
    /// The error as the host shows it: the name of its kind, and in round
    /// brackets its text as `{:?}` prints it.
    pub open spec fn rendered(self) -> Seq<char> {
        match self {
            ErrorView::Internal(reason) => "Error::Internal("@ + debug_text(reason) + ")"@,
            ErrorView::InvalidInput(reason) => "Error::InvalidInput("@ + debug_text(reason) + ")"@,
        }
    }
}

impl Error {
    /// This error as the host shows it.
    pub fn to_string(&self) -> (text: String)
        ensures
            text@ == self@.rendered(),
    {
        match self {
            Error::Internal(reason) => {
                let mut text = "Error::Internal(".to_owned();
                let quoted = debug_quote(reason.as_str());
                text.append(quoted.as_str());
                text.append(")");
                text
            },
            Error::InvalidInput(reason) => {
                let mut text = "Error::InvalidInput(".to_owned();
                let quoted = debug_quote(reason.as_str());
                text.append(quoted.as_str());
                text.append(")");
                text
            },
        }
    }
}

/// What a [`SkillMetadata`] holds.
pub struct SkillMetadataView {
    pub description: Option<Seq<char>>,
    pub input_schema: Seq<u8>,
    pub output_schema: Seq<u8>,
}

/// What a skill tells about itself: what it is for, and the JSON Schemas of
/// its input and its output, each as the bytes of its JSON text.
#[derive(Clone, Debug, PartialEq)]
pub struct SkillMetadata {
    pub description: Option<String>,
    pub input_schema: Vec<u8>,
    pub output_schema: Vec<u8>,
}

impl View for SkillMetadata {
    type V = SkillMetadataView;

    open spec fn view(&self) -> SkillMetadataView {
        SkillMetadataView {
            description: match self.description {
                Some(text) => Some(text@),
                None => None,
            },
            input_schema: self.input_schema@,
            output_schema: self.output_schema@,
        }
    }
}

impl SkillMetadata {
    /// The metadata of a skill that is documented with `description` and
    /// takes and gives what the two schemas say. A skill without
    /// documentation, that is with an empty `description`, has no
    /// description.
    pub fn new(description: &str, input_schema: Vec<u8>, output_schema: Vec<u8>) -> (metadata:
        SkillMetadata)
        ensures
            metadata@ == (SkillMetadataView {
                description: if description@.len() == 0 {
                    None
                } else {
                    Some(description@)
                },
                input_schema: input_schema@,
                output_schema: output_schema@,
            }),
    {
        let description = if description.is_empty() {
            None
        } else {
            Some(description.to_owned())
        };
        SkillMetadata { description, input_schema, output_schema }
    }
}

} // verus!
