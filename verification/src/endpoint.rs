//! The address of the WebSocket device.

use vstd::prelude::*;

verus! {

/// `url::ParseError`: why the parser took no URL. Carried through as it is;
/// nothing is read from it.
#[verifier::external_type_specification]
#[verifier::external_body]
pub struct ExParseError(url::ParseError);

/// What `url::Url::parse` makes of a text: the serialization of the URL it
/// reads, `None` where it reads none.
pub uninterp spec fn parsed_url(input: Seq<char>) -> Option<Seq<char>>;

/// Calls `url::Url::parse` and hands back the serialization of the URL.
/// Trusted: whether the text is taken, and the serialization, are those named
/// by [`parsed_url`], which depend on the text alone.
#[verifier::external_body]
fn parse_url(input: &str) -> (parsed: Result<String, url::ParseError>)
    ensures
        match parsed {
            Ok(text) => parsed_url(input@) == Some(text@),
            Err(_) => parsed_url(input@) is None,
        },
{
    url::Url::parse(input).map(String::from)
}

/// Why an address cannot be used.
#[derive(Clone, Copy, Debug, PartialEq, Eq, Structural)]
pub enum EndpointError {
    /// The address is no absolute URL.
    InvalidUrl,
}

/// The address at which the device serves its stream.
pub fn default_endpoint() -> (address: &'static str)
    ensures
        address@ == "ws://multi-emg.local:81"@,
{
    "ws://multi-emg.local:81"
}

/// Turns what the parser said of an address into the endpoint to connect to,
/// or into the error to hand to the collaborator.
pub fn endpoint_from(parsed: Result<String, url::ParseError>) -> (endpoint: Result<
    String,
    EndpointError,
>)
    ensures
        endpoint is Ok <==> parsed is Ok,
        endpoint matches Ok(text) ==> text@ == parsed->Ok_0@,
        endpoint matches Err(error) ==> error == EndpointError::InvalidUrl,
{
    match parsed {
        Ok(text) => Ok(text),
        Err(_) => Err(EndpointError::InvalidUrl),
    }
}

/// Reads an address and hands back the URL to connect to, in its serialized
/// form.
pub fn resolve_endpoint(address: &str) -> (endpoint: Result<String, EndpointError>)
    ensures
        endpoint is Ok <==> parsed_url(address@) is Some,
        endpoint matches Ok(text) ==> parsed_url(address@) == Some(text@),
        endpoint matches Err(error) ==> error == EndpointError::InvalidUrl,
{
    endpoint_from(parse_url(address))
}

} // verus!
