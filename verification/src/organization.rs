//! The closed set of organizations the gateway serves, and how a request
//! names one of them.

use crate::errors::ServiceError;
use crate::text::push_char;
use vstd::prelude::*;
use vstd::string::StringExecFns;

verus! {

/// Name of the request header that carries the organization.
pub const ORGANIZATION_HEADER: &'static str = "SF-Organization";

/// One of the organizations configured at startup.
#[derive(Debug, Clone, Copy, PartialEq, Eq, Structural)]
pub enum SalesforceOrganization {
    NationalFunding,
    QuickBridge,
    Underwriting,
}

/// Header text that names `organization`.
pub open spec fn organization_name(organization: SalesforceOrganization) -> Seq<char> {
    match organization {
        SalesforceOrganization::NationalFunding => "NationalFunding"@,
        SalesforceOrganization::QuickBridge => "QuickBridge"@,
        SalesforceOrganization::Underwriting => "Underwriting"@,
    }
}

/// What parsing `raw` yields: the organization it names, or the text of the
/// error for a name that is not configured.
pub open spec fn spec_parse(raw: Seq<char>) -> Result<SalesforceOrganization, Seq<char>> {
    if raw == "NationalFunding"@ {
        Ok(SalesforceOrganization::NationalFunding)
    } else if raw == "QuickBridge"@ {
        Ok(SalesforceOrganization::QuickBridge)
    } else if raw == "Underwriting"@ {
        Ok(SalesforceOrganization::Underwriting)
    } else {
        Err(raw + " is not a valid organization."@)
    }
}

/// Whether `byte` may stand in a header value that is read as text: a
/// printable ASCII character or a tab.
pub open spec fn is_visible_ascii(byte: u8) -> bool {
    (32 <= byte && byte < 127) || byte == 9
}

/// The text of a header value, where all of its bytes are visible ASCII.
pub open spec fn spec_header_text(value: Seq<u8>) -> Option<Seq<char>> {
    if forall|i: int| 0 <= i < value.len() ==> is_visible_ascii(#[trigger] value[i]) {
        Some(Seq::new(value.len(), |i: int| value[i] as char))
    } else {
        None
    }
}

/// What reading an organization from a header value yields.
pub open spec fn spec_from_header_value(value: Seq<u8>) -> Result<
    SalesforceOrganization,
    Seq<char>,
> {
    match spec_header_text(value) {
        Some(text) => spec_parse(text),
        None => Err("failed to convert header to a str"@),
    }
}

/// The value of a header as a sequence of bytes, if there is one.
pub open spec fn header_bytes(header: Option<&[u8]>) -> Option<Seq<u8>> {
    match header {
        Some(value) => Some(value@),
        None => None,
    }
}

/// What extracting the organization from a request yields, given the value
/// of its organization header if it has one.
pub open spec fn spec_from_header(header: Option<Seq<u8>>) -> Result<
    SalesforceOrganization,
    Seq<char>,
> {
    match header {
        Some(value) => spec_from_header_value(value),
        None => Err("Salesforce header value was not found."@),
    }
}

/// `outcome` is the organization that `expected` names, or the
/// `InvalidOrganization` error with the text that `expected` holds.
pub open spec fn resolves_as(
    outcome: Result<SalesforceOrganization, ServiceError>,
    expected: Result<SalesforceOrganization, Seq<char>>,
) -> bool {
    match expected {
        Ok(organization) => outcome == Ok::<SalesforceOrganization, ServiceError>(organization),
        Err(text) => outcome matches Err(ServiceError::InvalidOrganization(message)) && message@
            == text,
    }
}

/// Different organizations have different names, so a name is parsed to one
/// organization at most.
pub proof fn lemma_names_are_distinct(a: SalesforceOrganization, b: SalesforceOrganization)
    ensures
        organization_name(a) == organization_name(b) ==> a == b,
        spec_parse(organization_name(a)) == Ok::<SalesforceOrganization, Seq<char>>(a),
{
    reveal_strlit("NationalFunding");
    reveal_strlit("QuickBridge");
    reveal_strlit("Underwriting");
    assert("NationalFunding"@.len() == 15);
    assert("QuickBridge"@.len() == 11);
    assert("Underwriting"@.len() == 12);
}

/// A text is parsed to an organization exactly when it is that
/// organization's name.
pub proof fn lemma_parse_accepts_only_names(raw: Seq<char>, organization: SalesforceOrganization)
    ensures
        spec_parse(raw) == Ok::<SalesforceOrganization, Seq<char>>(organization) <==> raw
            == organization_name(organization),
{
    lemma_names_are_distinct(organization, organization);
    lemma_names_are_distinct(organization, SalesforceOrganization::NationalFunding);
    lemma_names_are_distinct(organization, SalesforceOrganization::QuickBridge);
    lemma_names_are_distinct(organization, SalesforceOrganization::Underwriting);
}

fn text_equals(text: &str, name: &str) -> (equal: bool)
    ensures
        equal == (text@ == name@),
{
    let text: String = text.to_owned();
    let name: String = name.to_owned();
    text == name
}

/// The text of a header value, or nothing where a byte of it is not visible
/// ASCII.
pub fn header_text(value: &[u8]) -> (text: Option<String>)
    ensures
        match spec_header_text(value@) {
            Some(expected) => text matches Some(t) && t@ == expected,
            None => text is None,
        },
{
    let mut text = String::new();
    let mut i: usize = 0;
    while i < value.len()
        invariant
            i <= value.len(),
            text@ == Seq::new(i as nat, |k: int| value@[k] as char),
            forall|k: int| 0 <= k < i ==> is_visible_ascii(#[trigger] value@[k]),
        decreases value.len() - i,
    {
        let byte: u8 = value[i];
        if !((32 <= byte && byte < 127) || byte == 9) {
            assert(!is_visible_ascii(value@[i as int]));
            return None;
        }
        push_char(&mut text, byte as char);
        i += 1;
        assert(text@ =~= Seq::new(i as nat, |k: int| value@[k] as char));
    }
    Some(text)
}

impl SalesforceOrganization {
    /// The header text that names this organization.
    pub fn name(&self) -> (name: String)
        ensures
            name@ == organization_name(*self),
    {
        match self {
            SalesforceOrganization::NationalFunding => "NationalFunding".to_owned(),
            SalesforceOrganization::QuickBridge => "QuickBridge".to_owned(),
            SalesforceOrganization::Underwriting => "Underwriting".to_owned(),
        }
    }

    /// The organization that `raw` names. Any other text is rejected with an
    /// error that quotes it.
    pub fn parse(raw: &str) -> (parsed: Result<SalesforceOrganization, ServiceError>)
        ensures
            resolves_as(parsed, spec_parse(raw@)),
    {
        if text_equals(raw, "NationalFunding") {
            Ok(SalesforceOrganization::NationalFunding)
        } else if text_equals(raw, "QuickBridge") {
            Ok(SalesforceOrganization::QuickBridge)
        } else if text_equals(raw, "Underwriting") {
            Ok(SalesforceOrganization::Underwriting)
        } else {
            let message = raw.to_owned().concat(" is not a valid organization.");
            Err(ServiceError::InvalidOrganization(message))
        }
    }

    /// The organization named by the bytes of a header value. A value that
    /// is not visible ASCII is rejected before its text is looked at.
    pub fn try_from(header_value: &[u8]) -> (parsed: Result<SalesforceOrganization, ServiceError>)
        ensures
            resolves_as(parsed, spec_from_header_value(header_value@)),
    {
        match header_text(header_value) {
            Some(text) => SalesforceOrganization::parse(text.as_str()),
            None => Err(
                ServiceError::InvalidOrganization("failed to convert header to a str".to_owned()),
            ),
        }
    }
}

/// The organization a request was made for, taken from its header.
#[derive(Debug, Clone, Copy)]
pub struct ExtractSalesforceOrg(pub SalesforceOrganization);

impl ExtractSalesforceOrg {
    /// Reads the organization from the value of the organization header, if
    /// the request has one. A request without the header is rejected.
    pub fn from_request_parts(header: Option<&[u8]>) -> (extracted: Result<
        ExtractSalesforceOrg,
        ServiceError,
    >)
        ensures
            match spec_from_header(header_bytes(header)) {
                Ok(organization) => extracted matches Ok(org) && org.0 == organization,
                Err(text) => extracted matches Err(ServiceError::InvalidOrganization(message))
                    && message@ == text,
            },
    {
        match header {
            None => Err(
                ServiceError::InvalidOrganization(
                    "Salesforce header value was not found.".to_owned(),
                ),
            ),
            Some(value) => match SalesforceOrganization::try_from(value) {
                Ok(organization) => Ok(ExtractSalesforceOrg(organization)),
                Err(error) => Err(ServiceError::InvalidOrganization(error.message())),
            },
        }
    }
}

} // verus!
