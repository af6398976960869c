use crate::helpers::text::{optional_text, texts};
use vstd::prelude::*;
use vstd::string::*;

verus! {

/// How the gateway is reached: where it is, the key that opens it, the
/// model that answers and the version of its interface. It is made once, when
/// the program starts, and handed to whoever talks to the gateway.
#[derive(Debug)]
pub struct GatewayConfig {
    pub endpoint: String,
    pub key: String,
    pub model: String,
    pub api_version: String,
}

/// A `GatewayConfig` as plain values.
pub struct GatewayConfigView {
    pub endpoint: Seq<char>,
    pub key: Seq<char>,
    pub model: Seq<char>,
    pub api_version: Seq<char>,
}

impl View for GatewayConfig {
    type V = GatewayConfigView;

    open spec fn view(&self) -> GatewayConfigView {
        GatewayConfigView {
            endpoint: self.endpoint@,
            key: self.key@,
            model: self.model@,
            api_version: self.api_version@,
        }
    }
}

/// A header of a request, name and value.
#[derive(Debug)]
pub struct Header {
    pub name: String,
    pub value: String,
}

impl GatewayConfigView {
    /// The address to which chat completions are posted.
    pub open spec fn chat_completions_address(self) -> Seq<char> {
        self.endpoint + "/openai/deployments/"@ + self.model + "/chat/completions?api-version="@
            + self.api_version
    }
}

impl GatewayConfig {
    /// The address to which chat completions are posted.
    pub fn chat_completions_url(&self) -> (url: String)
        ensures
            url@ == self@.chat_completions_address(),
    {
        let mut url = self.endpoint.clone();
        url.append("/openai/deployments/");
        url.append(self.model.as_str());
        url.append("/chat/completions?api-version=");
        url.append(self.api_version.as_str());
        url
    }

    /// The headers that every request to the gateway carries: the kind of
    /// its body, then the key.
    pub fn create_client(&self) -> (headers: Vec<Header>)
        ensures
            headers@.len() == 2,
            headers@[0].name@ == "Content-Type"@,
            headers@[0].value@ == "application/json"@,
            headers@[1].name@ == "api-key"@,
            headers@[1].value@ == self@.key,
    {
        let mut headers: Vec<Header> = Vec::new();
        headers.push(
            Header {
                name: String::from_str("Content-Type"),
                value: String::from_str("application/json"),
            },
        );
        headers.push(Header { name: String::from_str("api-key"), value: self.key.clone() });
        headers
    }
}

/// The first of the choices, if there is any.
pub open spec fn first_choice(choices: Seq<Seq<char>>) -> Option<Seq<char>> {
    if choices.len() > 0 {
        Some(choices[0])
    } else {
        None
    }
}

/// The reply of the gateway: the text of the first choice that it
/// offers, if it offers any.
pub fn call_gpt(choices: &Vec<String>) -> (reply: Option<String>)
    ensures
        optional_text(reply) == first_choice(texts(choices@)),
{
    if choices.len() > 0 {
        Some(choices[0].clone())
    } else {
        None
    }
}

} // verus!
