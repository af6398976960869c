use crate::models::ai::chatgpt::{Message, MessageView};
use vstd::prelude::*;
use vstd::string::*;

verus! {

/// Where the code template lies.
pub const CODE_TEMPLATE_PATH: &'static str = "template/code_template.rs";

/// Where the generated source is written and read again.
pub const EXEC_MAIN_PATH: &'static str = "template/main.rs";

/// Where the schema of the generated service's routes is written.
pub const API_SCHEMA_PATH: &'static str = "template/api_schema.json";

/// The directory in which the generated project is built and run.
pub const WEB_SERVER_PROJECT_PATH: &'static str = "template";

/// The address under which the generated service listens.
pub const WEB_SERVER_ADDRESS: &'static str = "http://localhost:8080";

/// How long the service is given to come up, in seconds.
pub const WARM_UP_SECONDS: u64 = 5;

/// How long one probe may take, in seconds.
pub const PROBE_TIMEOUT_SECONDS: u64 = 5;

/// The status with which a healthy endpoint answers.
pub const STATUS_OK: u16 = 200;

/// The prompt that makes the gateway act as a function: it is shown the
/// function's description and the input, and asked for the output alone.
pub open spec fn extended(description: Seq<char>, input: Seq<char>) -> MessageView {
    MessageView {
        role: "system"@,
        content: "FUNCTION: "@ + description
            + "\n    INSTRUCTION: You are a function printer. You ONLY print the results of functions.\n    Nothing else. No commentary. Here is the input to the function: "@
            + input + ".\n    Print out what the function will return"@,
    }
}

/// Wraps the description that `ai_func` gives for `func_input` into a
/// prompt that asks for the function's output and nothing else.
pub fn extend_ai_function(ai_func: impl Fn(&str) -> &'static str, func_input: &str) -> (message:
    Message)
    requires
        call_requires(ai_func, (func_input,)),
    ensures
        exists|description: &'static str|
            call_ensures(ai_func, (func_input,), description) && message@ == extended(
                description@,
                func_input@,
            ),
{
    let description = ai_func(func_input);
    let mut content = String::from_str("FUNCTION: ");
    content.append(description);
    content.append(
        "\n    INSTRUCTION: You are a function printer. You ONLY print the results of functions.\n    Nothing else. No commentary. Here is the input to the function: ",
    );
    content.append(func_input);
    content.append(".\n    Print out what the function will return");
    Message { role: String::from_str("system"), content }
}

/// The address of the endpoint `route` of the generated service.
pub open spec fn probe_address(route: Seq<char>) -> Seq<char> {
    WEB_SERVER_ADDRESS@ + route
}

/// The address to get when `route` is probed.
pub fn probe_url(route: &str) -> (url: String)
    ensures
        url@ == probe_address(route@),
{
    let mut url = String::from_str(WEB_SERVER_ADDRESS);
    url.append(route);
    url
}

} // verus!
