//! Language selection as the host takes and gives it.
use crate::bindings::batch::map_each;
use crate::csi::language;
use crate::csi::language::{language_of, LanguageCode};
use crate::text::texts;
use vstd::prelude::*;
use vstd::std_specs::convert::FromSpecImpl;

verus! {

/// The codes of `languages`, in order.
pub open spec fn codes(languages: Seq<LanguageCode>) -> Seq<Seq<char>> {
    languages.map_values(|language: LanguageCode| language.code())
}

/// What a [`SelectLanguageRequest`] of the host boundary holds: the
/// candidate languages are there by their codes.
pub struct SelectLanguageRequestView {
    pub text: Seq<char>,
    pub languages: Seq<Seq<char>>,
}

/// A language selection request at the host boundary.
#[derive(Clone, Debug, PartialEq)]
pub struct SelectLanguageRequest {
    pub text: String,
    pub languages: Vec<String>,
}

impl View for SelectLanguageRequest {
    type V = SelectLanguageRequestView;

    open spec fn view(&self) -> SelectLanguageRequestView {
        SelectLanguageRequestView { text: self.text@, languages: texts(self.languages@) }
    }
}

/// The request that the host gets for `request`: the same text, and each
/// language by its code.
pub open spec fn wire_request(
    request: language::SelectLanguageRequestView,
) -> SelectLanguageRequestView {
    SelectLanguageRequestView { text: request.text, languages: codes(request.languages) }
}

impl FromSpecImpl<language::SelectLanguageRequest> for SelectLanguageRequest {
    open spec fn obeys_from_spec() -> bool {
        false
    }

    open spec fn from_spec(value: language::SelectLanguageRequest) -> SelectLanguageRequest {
        arbitrary()
    }
}

impl From<language::SelectLanguageRequest> for SelectLanguageRequest {
    /// The same request, with each language written as its code.
    fn from(value: language::SelectLanguageRequest) -> (wire: SelectLanguageRequest)
        ensures
            wire@ == wire_request(value@),
    {
        let language::SelectLanguageRequest { text, languages } = value;
        let convert = |language: LanguageCode| -> (code: String)
            ensures
                code@ == language.code(),
            {
                language.to_string()
            };
        let written = map_each(languages, convert);
        assert(texts(written@) =~= codes(languages@));
        SelectLanguageRequest { text, languages: written }
    }
}

/// The requests of a batch, as the host takes them.
pub fn select_language_requests(requests: Vec<language::SelectLanguageRequest>) -> (wire: Vec<
    SelectLanguageRequest,
>)
    ensures
        wire.len() == requests.len(),
        forall|i: int| 0 <= i < wire.len() ==> (#[trigger] wire[i])@ == wire_request(requests[i]@),
{
    let convert = |request: language::SelectLanguageRequest| -> (wire: SelectLanguageRequest)
        ensures
            wire@ == wire_request(request@),
        {
            SelectLanguageRequest::from(request)
        };
    map_each(requests, convert)
}

/// Whether each code that the host gave is the code of a language.
pub open spec fn all_known(selected: Seq<Option<String>>) -> bool {
    forall|i: int|
        0 <= i < selected.len() ==> ((#[trigger] selected[i]) matches Some(code) ==> language_of(
            code@,
        ) is Some)
}

/// The answer that the skill gets for `selected`: no language where the host
/// detected none, else the language whose code the host gave.
pub open spec fn selected_language(selected: Option<String>) -> Option<LanguageCode> {
    match selected {
        Some(code) => language_of(code@),
        None => None,
    }
}

/// The language that the host selected, read from its code.
///
/// The set of codes is shared with the host, so a code outside it is not an
/// answer that can be handed on: `requires` leaves it out, and
/// [`try_select_language`] tells whether a batch holds one.
pub fn select_language(selected: Option<String>) -> (language: Option<LanguageCode>)
    requires
        selected matches Some(code) ==> language_of(code@) is Some,
    ensures
        language == selected_language(selected),
{
    match selected {
        Some(code) => LanguageCode::parse(code.as_str()),
        None => None,
    }
}

/// The answers of a batch, as the skill takes them.
pub fn select_languages(selected: Vec<Option<String>>) -> (languages: Vec<Option<LanguageCode>>)
    requires
        all_known(selected@),
    ensures
        languages.len() == selected.len(),
        forall|i: int|
            0 <= i < languages.len() ==> (#[trigger] languages[i]) == selected_language(
                selected[i],
            ),
{
    let convert = |answer: Option<String>| -> (language: Option<LanguageCode>)
        requires
            answer matches Some(code) ==> language_of(code@) is Some,
        ensures
            language == selected_language(answer),
        {
            select_language(answer)
        };
    map_each(selected, convert)
}

/// The answers of a batch, as the skill takes them, or `None` if the host
/// gave a code that is the code of no language.
pub fn try_select_languages(selected: Vec<Option<String>>) -> (languages: Option<
    Vec<Option<LanguageCode>>,
>)
    ensures
        match languages {
            Some(read) => {
                &&& all_known(selected@)
                &&& read.len() == selected.len()
                &&& forall|i: int|
                    0 <= i < read.len() ==> (#[trigger] read[i]) == selected_language(selected[i])
            },
            None => !all_known(selected@),
        },
{
    let mut i: usize = 0;
    while i < selected.len()
        invariant
            i <= selected.len(),
            forall|k: int|
                0 <= k < i ==> ((#[trigger] selected[k]) matches Some(code) ==> language_of(
                    code@,
                ) is Some),
        decreases selected.len() - i,
    {
        let known = match &selected[i] {
            Some(code) => LanguageCode::parse(code.as_str()).is_some(),
            None => true,
        };
        if !known {
            return None;
        }
        i += 1;
    }
    Some(select_languages(selected))
}

} // verus!
