//! What a call through the C interface reports back: a status code and the text left in
//! the caller's error slot, together with the texts of the errors it can report.
use vstd::prelude::*;
use vstd::string::*;
use vstd::utf8::*;

verus! {

/// The JSON text arguments of the C interface.
#[derive(Debug, PartialEq, Eq)]
pub enum JsonInput {
    /// `config_json` of runtime creation.
    Config,
    /// `request_json` of a client request.
    Request,
    /// `notification_json` of a client notification.
    Notification,
    /// `response_json` of a reply to a server request.
    Response,
}

/// The parameter name of a JSON text argument, as the error texts spell it.
pub open spec fn input_name(input: JsonInput) -> Seq<char> {
    match input {
        JsonInput::Config => "config_json"@,
        JsonInput::Request => "request_json"@,
        JsonInput::Notification => "notification_json"@,
        JsonInput::Response => "response_json"@,
    }
}

/// The word that names an argument's contents in a parse error.
pub open spec fn input_label(input: JsonInput) -> Seq<char> {
    match input {
        JsonInput::Config => "config"@,
        JsonInput::Request => "request"@,
        JsonInput::Notification => "notification"@,
        JsonInput::Response => "response"@,
    }
}

/// Whether the call taking this argument also takes a runtime handle.
pub open spec fn takes_runtime(input: JsonInput) -> bool {
    !(input is Config)
}

/// The error reported when a required pointer is null.
pub open spec fn null_message(input: JsonInput) -> Seq<char> {
    if takes_runtime(input) {
        "runtime or "@ + input_name(input) + " is null"@
    } else {
        input_name(input) + " is null"@
    }
}

/// The error reported when an argument is not UTF-8.
pub open spec fn not_utf8_message(input: JsonInput) -> Seq<char> {
    input_name(input) + " is not valid utf-8"@
}

/// The error reported when an argument is not the JSON the call expects.
pub open spec fn invalid_json_message(input: JsonInput, detail: Seq<char>) -> Seq<char> {
    "invalid "@ + input_label(input) + " json: "@ + detail
}

/// The error reported when the worker threads cannot be started.
pub open spec fn runtime_build_message(detail: Seq<char>) -> Seq<char> {
    "failed to create tokio runtime: "@ + detail
}

/// Whether a text can be handed to C as a NUL-terminated string: its UTF-8 bytes hold no 0.
pub open spec fn nul_free(text: Seq<char>) -> bool {
    !encode_utf8(text).contains(0u8)
}

/// What a call leaves in the caller's error slot.
#[derive(Debug, PartialEq, Eq)]
pub enum ErrorSlot {
    /// The slot is not written.
    Untouched,
    /// The slot is set to null.
    Null,
    /// The slot is set to a newly allocated C string holding this text.
    Message(String),
}

/// Status code and error slot of a call that reports success or failure.
#[derive(Debug, PartialEq, Eq)]
pub struct CallOutcome {
    /// 0 on success, -1 on failure.
    pub status: i32,
    pub error: ErrorSlot,
}

/// Whether `slot` is what reporting `text` leaves in the error slot.
pub open spec fn reports(slot: ErrorSlot, text: Seq<char>) -> bool {
    if nul_free(text) {
        slot matches ErrorSlot::Message(m) && m@ == text
    } else {
        slot is Null
    }
}

/// A status and a slot agree: success clears the slot, and a written message means failure.
pub open spec fn consistent(outcome: CallOutcome) -> bool {
    &&& (outcome.status == 0 || outcome.status == -1)
    &&& outcome.status == 0 ==> outcome.error is Null
    &&& outcome.error is Message ==> outcome.status == -1
}

/// The name of an argument.
fn input_name_str(input: &JsonInput) -> (name: &'static str)
    ensures
        name@ == input_name(*input),
{
    match input {
        JsonInput::Config => "config_json",
        JsonInput::Request => "request_json",
        JsonInput::Notification => "notification_json",
        JsonInput::Response => "response_json",
    }
}

/// The contents word of an argument.
fn input_label_str(input: &JsonInput) -> (label: &'static str)
    ensures
        label@ == input_label(*input),
{
    match input {
        JsonInput::Config => "config",
        JsonInput::Request => "request",
        JsonInput::Notification => "notification",
        JsonInput::Response => "response",
    }
}

/// Whether the UTF-8 bytes of `text` are free of 0.
pub fn is_nul_free(text: &str) -> (free: bool)
    ensures
        free == nul_free(text@),
        free == !encode_utf8(text@).contains(0u8),
{
    let bytes = text.as_bytes();
    let mut i: usize = 0;
    while i < bytes.len()
        invariant
            bytes@ == encode_utf8(text@),
            i <= bytes@.len(),
            forall|j: int| 0 <= j < i ==> bytes@[j] != 0u8,
        decreases bytes@.len() - i,
    {
        if bytes[i] == 0u8 {
            assert(bytes@[i as int] == 0u8);
            return false;
        }
        i = i + 1;
    }
    assert(!bytes@.contains(0u8));
    true
}

/// What reporting `text` leaves in the error slot: the text, or null when C cannot hold it.
pub fn error_slot(text: String) -> (slot: ErrorSlot)
    ensures
        reports(slot, text@),
        !encode_utf8(text@).contains(0u8) ==> slot == ErrorSlot::Message(text),
        encode_utf8(text@).contains(0u8) ==> slot is Null,
{
    if is_nul_free(text.as_str()) {
        ErrorSlot::Message(text)
    } else {
        ErrorSlot::Null
    }
}

/// The outcome of a call that succeeded: status 0 and a cleared error slot.
pub fn success() -> (outcome: CallOutcome)
    ensures
        outcome.status == 0,
        outcome.error is Null,
        consistent(outcome),
{
    CallOutcome { status: 0, error: ErrorSlot::Null }
}

/// The outcome of a call that failed with `text`: status -1 and the text reported.
pub fn failure(text: String) -> (outcome: CallOutcome)
    ensures
        outcome.status == -1,
        reports(outcome.error, text@),
        consistent(outcome),
{
    CallOutcome { status: -1, error: error_slot(text) }
}

/// The outcome of a call whose work ended in `result`: success, or failure with the
/// error's text.
pub fn call_outcome(result: Result<(), String>) -> (outcome: CallOutcome)
    ensures
        consistent(outcome),
        match result {
            Ok(()) => outcome.status == 0 && outcome.error is Null,
            Err(text) => outcome.status == -1 && reports(outcome.error, text@),
        },
{
    match result {
        Ok(()) => success(),
        Err(text) => failure(text),
    }
}

/// The error for a null pointer argument.
pub fn null_argument_message(input: JsonInput) -> (text: String)
    ensures
        text@ == null_message(input),
{
    let mut text = if takes_runtime_exec(&input) {
        "runtime or ".to_owned()
    } else {
        "".to_owned()
    };
    text.append(input_name_str(&input));
    text.append(" is null");
    proof {
        reveal_strlit("runtime or ");
        reveal_strlit("");
        reveal_strlit(" is null");
        assert(text@ =~= null_message(input));
    }
    text
}

/// Whether the call taking this argument also takes a runtime handle.
fn takes_runtime_exec(input: &JsonInput) -> (takes: bool)
    ensures
        takes == takes_runtime(*input),
{
    match input {
        JsonInput::Config => false,
        _ => true,
    }
}

/// The error for an argument that is not UTF-8.
pub fn not_utf8_argument_message(input: JsonInput) -> (text: String)
    ensures
        text@ == not_utf8_message(input),
{
    let mut text = input_name_str(&input).to_owned();
    text.append(" is not valid utf-8");
    text
}

/// The error for an argument that is not the JSON the call expects; `detail` is the
/// parser's explanation.
pub fn invalid_json_error(input: JsonInput, detail: &str) -> (text: String)
    ensures
        text@ == invalid_json_message(input, detail@),
{
    let mut text = "invalid ".to_owned();
    text.append(input_label_str(&input));
    text.append(" json: ");
    text.append(detail);
    text
}

/// The error for worker threads that cannot be started; `detail` explains why.
pub fn runtime_build_error(detail: &str) -> (text: String)
    ensures
        text@ == runtime_build_message(detail@),
{
    let mut text = "failed to create tokio runtime: ".to_owned();
    text.append(detail);
    text
}

/// Decodes `bytes` as UTF-8 (a call of `std::str::from_utf8`): some text exactly when the
/// bytes are valid UTF-8, and then the text whose encoding they are.
#[verifier::external_body]
fn decode_utf8_text(bytes: &[u8]) -> (text: Option<String>)
    ensures
        text is Some <==> valid_utf8(bytes@),
        text matches Some(t) ==> encode_utf8(t@) == bytes@,
{
    std::str::from_utf8(bytes).ok().map(str::to_owned)
}

/// The text of a JSON argument of a C call. `bytes` holds the bytes before the argument's
/// terminating NUL, or is `None` for a null pointer; `runtime_present` tells whether the
/// runtime handle of the call is non-null (creation takes none).
pub fn read_json_argument(input: JsonInput, runtime_present: bool, bytes: Option<&[u8]>) -> (text: Result<String, String>)
    ensures
        match bytes {
            None => text matches Err(e) && e@ == null_message(input),
            Some(b) => if takes_runtime(input) && !runtime_present {
                text matches Err(e) && e@ == null_message(input)
            } else if valid_utf8(b@) {
                text matches Ok(t) && encode_utf8(t@) == b@
            } else {
                text matches Err(e) && e@ == not_utf8_message(input)
            },
        },
{
    if takes_runtime_exec(&input) && !runtime_present {
        return Err(null_argument_message(input));
    }
    match bytes {
        None => Err(null_argument_message(input)),
        Some(b) => match decode_utf8_text(b) {
            Some(t) => Ok(t),
            None => Err(not_utf8_argument_message(input)),
        },
    }
}

/// Checks the runtime handle of an event poll: an error when it is null.
pub fn check_runtime_handle(runtime_present: bool) -> (checked: Result<(), String>)
    ensures
        runtime_present <==> checked is Ok,
        checked matches Err(e) ==> e@ == "runtime is null"@,
{
    if runtime_present {
        Ok(())
    } else {
        Err("runtime is null".to_owned())
    }
}

/// The error texts of a null argument, spelled out for every argument.
pub proof fn law_null_argument_texts()
    ensures
        null_message(JsonInput::Config) == "config_json is null"@,
        null_message(JsonInput::Request) == "runtime or request_json is null"@,
        null_message(JsonInput::Notification) == "runtime or notification_json is null"@,
        null_message(JsonInput::Response) == "runtime or response_json is null"@,
{
    reveal_strlit("config_json is null");
    reveal_strlit("runtime or request_json is null");
    reveal_strlit("runtime or notification_json is null");
    reveal_strlit("runtime or response_json is null");
    reveal_strlit("runtime or ");
    reveal_strlit(" is null");
    reveal_strlit("config_json");
    reveal_strlit("request_json");
    reveal_strlit("notification_json");
    reveal_strlit("response_json");
    assert(null_message(JsonInput::Config) =~= "config_json is null"@);
    assert(null_message(JsonInput::Request) =~= "runtime or request_json is null"@);
    assert(null_message(JsonInput::Notification) =~= "runtime or notification_json is null"@);
    assert(null_message(JsonInput::Response) =~= "runtime or response_json is null"@);
}

/// The error texts of an argument that is not UTF-8, spelled out for every argument.
pub proof fn law_not_utf8_texts()
    ensures
        not_utf8_message(JsonInput::Config) == "config_json is not valid utf-8"@,
        not_utf8_message(JsonInput::Request) == "request_json is not valid utf-8"@,
        not_utf8_message(JsonInput::Notification) == "notification_json is not valid utf-8"@,
        not_utf8_message(JsonInput::Response) == "response_json is not valid utf-8"@,
{
    reveal_strlit("config_json is not valid utf-8");
    reveal_strlit("request_json is not valid utf-8");
    reveal_strlit("notification_json is not valid utf-8");
    reveal_strlit("response_json is not valid utf-8");
    reveal_strlit(" is not valid utf-8");
    reveal_strlit("config_json");
    reveal_strlit("request_json");
    reveal_strlit("notification_json");
    reveal_strlit("response_json");
    assert(not_utf8_message(JsonInput::Config) =~= "config_json is not valid utf-8"@);
    assert(not_utf8_message(JsonInput::Request) =~= "request_json is not valid utf-8"@);
    assert(not_utf8_message(JsonInput::Notification) =~= "notification_json is not valid utf-8"@);
    assert(not_utf8_message(JsonInput::Response) =~= "response_json is not valid utf-8"@);
}

/// A parse error names the argument's contents and ends with the parser's explanation,
/// for every explanation.
pub proof fn law_invalid_json_texts(detail: Seq<char>)
    ensures
        invalid_json_message(JsonInput::Config, detail) == "invalid config json: "@ + detail,
        invalid_json_message(JsonInput::Request, detail) == "invalid request json: "@ + detail,
        invalid_json_message(JsonInput::Notification, detail) == "invalid notification json: "@
            + detail,
        invalid_json_message(JsonInput::Response, detail) == "invalid response json: "@ + detail,
{
    reveal_strlit("invalid config json: ");
    reveal_strlit("invalid request json: ");
    reveal_strlit("invalid notification json: ");
    reveal_strlit("invalid response json: ");
    reveal_strlit("invalid ");
    reveal_strlit(" json: ");
    reveal_strlit("config");
    reveal_strlit("request");
    reveal_strlit("notification");
    reveal_strlit("response");
    assert(invalid_json_message(JsonInput::Config, detail) =~= "invalid config json: "@ + detail);
    assert(invalid_json_message(JsonInput::Request, detail) =~= "invalid request json: "@ + detail);
    assert(invalid_json_message(JsonInput::Notification, detail) =~= "invalid notification json: "@
        + detail);
    assert(invalid_json_message(JsonInput::Response, detail) =~= "invalid response json: "@ + detail);
}

/// The error for worker threads that cannot be started names the cause after a fixed
/// prefix, for every cause.
pub proof fn law_runtime_build_text(detail: Seq<char>)
    ensures
        runtime_build_message(detail) == "failed to create tokio runtime: "@ + detail,
{
}

/// A reported error text reaches the caller verbatim whenever its bytes hold no 0, and
/// the slot is null otherwise; a call succeeds exactly with status 0 and a null slot.
pub proof fn law_error_text_reaches_caller(slot: ErrorSlot, text: Seq<char>, outcome: CallOutcome)
    ensures
        reports(slot, text) && !encode_utf8(text).contains(0u8) ==> (slot matches ErrorSlot::Message(m)
            && m@ == text),
        reports(slot, text) && encode_utf8(text).contains(0u8) ==> slot is Null,
        consistent(outcome) ==> (outcome.status == 0 ==> outcome.error is Null),
        consistent(outcome) ==> (outcome.error is Message ==> outcome.status == -1),
{
}

} // verus!
