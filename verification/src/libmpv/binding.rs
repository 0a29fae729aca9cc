//! What the binding decides around a call into the engine: whether a text
//! can be handed over, what a status means, and what a property that was
//! read holds.

use vstd::prelude::*;
use vstd::string::{StrSliceExecFns, StringExecFns};
use crate::libmpv::error::Error;
use crate::libmpv::models::{
    is_plain_value, property_model, MpvFormat, MpvNode, NodeModel, PropertyModel, PropertyValue,
};
use crate::libmpv::node::{unsupported_node_text, RawNode};
use crate::libmpv::text::{decimal_text, join2, unsigned_text};

verus! {

/// The text holds a NUL character, so it cannot be handed to the engine.
pub open spec fn has_nul(s: Seq<char>) -> bool {
    exists|i: int| 0 <= i < s.len() && s[i] == '\0'
}

/// Tells whether the text holds a NUL character.
pub fn contains_nul(s: &str) -> (res: bool)
    ensures
        res == has_nul(s@),
{
    let n = s.unicode_len();
    let mut i: usize = 0;
    while i < n
        invariant
            n == s@.len(),
            i <= n,
            forall|k: int| 0 <= k < i ==> s@[k] != '\0',
        decreases n - i,
    {
        if s.get_char(i) == '\0' {
            return true;
        }
        i += 1;
    }
    false
}

/// The words of a command: its name, then its arguments.
pub open spec fn words_of(name: Seq<char>, args: Seq<String>) -> Seq<Seq<char>> {
    seq![name] + Seq::new(args.len(), |i: int| args[i]@)
}

/// The views of the texts.
pub open spec fn views_of(texts: Seq<String>) -> Seq<Seq<char>> {
    Seq::new(texts.len(), |i: int| texts[i]@)
}

/// The words to send a command with: its name, then its arguments in
/// order. A word with a NUL character in it cannot be sent.
pub fn command_words(name: &str, args: &Vec<String>) -> (res: Result<Vec<String>, Error>)
    ensures
        match res {
            Ok(words) => views_of(words@) == words_of(name@, args@) && forall|i: int|
                0 <= i < words@.len() ==> !has_nul(#[trigger] words_of(name@, args@)[i]),
            Err(e) => e == Error::InvalidCString && exists|i: int|
                0 <= i < words_of(name@, args@).len() && has_nul(
                    #[trigger] words_of(name@, args@)[i],
                ),
        },
{
    let ghost all = words_of(name@, args@);
    if contains_nul(name) {
        proof {
            assert(has_nul(all[0]));
        }
        return Err(Error::InvalidCString);
    }
    let mut words: Vec<String> = Vec::new();
    words.push(String::from_str(name));
    let mut i: usize = 0;
    while i < args.len()
        invariant
            i <= args.len(),
            all == words_of(name@, args@),
            words@.len() == i + 1,
            forall|k: int| 0 <= k < i + 1 ==> (#[trigger] words@[k])@ == all[k],
            forall|k: int| 0 <= k < i + 1 ==> !has_nul(#[trigger] all[k]),
        decreases args.len() - i,
    {
        if contains_nul(args[i].as_str()) {
            proof {
                assert(has_nul(all[i + 1]));
            }
            return Err(Error::InvalidCString);
        }
        words.push(args[i].clone());
        i += 1;
    }
    proof {
        assert(views_of(words@) =~= all);
    }
    Ok(words)
}

/// The text for an engine status: the engine's own, or a fixed one where it
/// has none.
pub open spec fn status_text(text: Option<Seq<char>>) -> Seq<char> {
    match text {
        Some(t) => t,
        None => "Unknown error"@,
    }
}

/// The text for an engine status, given the engine's own text for it, if it
/// has one.
pub fn error_string(text: Option<&str>) -> (res: String)
    ensures
        res@ == status_text(
            match text {
                Some(t) => Some(t@),
                None => None,
            },
        ),
{
    match text {
        Some(t) => String::from_str(t),
        None => String::from_str("Unknown error"),
    }
}

/// A status below zero is a failure.
pub open spec fn is_failure(status: i32) -> bool {
    status < 0
}

/// The code of the failure for a format in which no property can be read.
pub open spec fn unsupported_format_text(code: u32) -> Seq<char> {
    "Unsupported format for get_property: "@ + decimal_text(code as int)
}

/// What reading a property gives, as a model: `Err` with the text of the
/// failure's code where the format cannot be read, the engine reported a
/// failure, or the value cannot be decoded; else the value in the format.
/// `data` is what the engine wrote, `None` where it left a null pointer: a
/// text is then empty, a flag false, a number zero and a dynamic value
/// null.
pub open spec fn read_value(
    format_code: u32,
    status: i32,
    text: Option<Seq<char>>,
    data: Option<RawNode>,
) -> Result<PropertyModel, Seq<char>> {
    match MpvFormat::spec_from_code(format_code) {
        None => Err(unsupported_format_text(format_code)),
        Some(format) => if is_failure(status) {
            Err(status_text(text))
        } else {
            match format {
                MpvFormat::String => Ok(
                    PropertyModel::Text(
                        match data {
                            Some(d) => d.string@,
                            None => Seq::empty(),
                        },
                    ),
                ),
                MpvFormat::Flag => Ok(
                    PropertyModel::Flag(
                        match data {
                            Some(d) => d.flag != 0,
                            None => false,
                        },
                    ),
                ),
                MpvFormat::Int64 => Ok(
                    PropertyModel::Int64(
                        match data {
                            Some(d) => d.int64 as int,
                            None => 0,
                        },
                    ),
                ),
                MpvFormat::Double => Ok(
                    PropertyModel::Double(
                        match data {
                            Some(d) => d.double_bits,
                            None => 0,
                        },
                    ),
                ),
                MpvFormat::Node => match data {
                    None => Ok(PropertyModel::Node(NodeModel::Null)),
                    Some(d) => match d.decoded() {
                        Ok(m) => Ok(PropertyModel::Node(m)),
                        Err(code) => Err(unsupported_node_text(code)),
                    },
                },
            }
        },
    }
}

/// The value of a property that was read in the format of the given code,
/// from the status that the engine returned, its text for that status, and
/// what it wrote. A failure names the property; a value that cannot be
/// decoded fails as decoding does.
pub fn read_property(
    key: &str,
    format_code: u32,
    status: i32,
    text: Option<&str>,
    data: Option<&RawNode>,
) -> (res: Result<PropertyValue, Error>)
    ensures
        match read_value(
            format_code,
            status,
            match text {
                Some(t) => Some(t@),
                None => None,
            },
            match data {
                Some(d) => Some(*d),
                None => None,
            },
        ) {
            Ok(m) => res is Ok && property_model(res->Ok_0) == m,
            Err(code) => res is Err && match res->Err_0 {
                Error::GetProperty { key: k, code: c } => k@ == key@ && c@ == code
                    && !(MpvFormat::spec_from_code(format_code) == Some(MpvFormat::Node)
                    && !is_failure(status)),
                Error::NodeConversion(m) => m@ == code && MpvFormat::spec_from_code(format_code)
                    == Some(MpvFormat::Node) && !is_failure(status),
                _ => false,
            },
        },
{
    let format = match MpvFormat::from_code(format_code) {
        Some(format) => format,
        None => {
            let code = unsigned_text(format_code as u64);
            return Err(
                Error::GetProperty {
                    key: String::from_str(key),
                    code: join2("Unsupported format for get_property: ", code.as_str()),
                },
            );
        },
    };
    if status < 0 {
        return Err(Error::GetProperty { key: String::from_str(key), code: error_string(text) });
    }
    match format {
        MpvFormat::String => Ok(
            PropertyValue::String(
                match data {
                    Some(d) => d.string.clone(),
                    None => String::new(),
                },
            ),
        ),
        MpvFormat::Flag => Ok(
            PropertyValue::Flag(
                match data {
                    Some(d) => d.flag != 0,
                    None => false,
                },
            ),
        ),
        MpvFormat::Int64 => Ok(
            PropertyValue::Int64(
                match data {
                    Some(d) => d.int64,
                    None => 0,
                },
            ),
        ),
        MpvFormat::Double => Ok(
            PropertyValue::Double(
                match data {
                    Some(d) => d.double_bits,
                    None => 0,
                },
            ),
        ),
        MpvFormat::Node => match data {
            None => Ok(PropertyValue::Node(MpvNode::Null)),
            Some(d) => match MpvNode::from_node(d) {
                Ok(node) => Ok(PropertyValue::Node(node)),
                Err(e) => Err(e),
            },
        },
    }
}

/// A call into the engine that returns a status, with the name that its
/// failure carries.
#[derive(Debug, Clone, PartialEq, Eq)]
pub enum EngineCall {
    Initialize,
    SetOption(String),
    SetProperty(String),
    GetProperty(String),
    Command(String),
    ObserveProperty(String),
    LoadConfigFile(String),
}

/// `e` is the failure of the call with the engine's text `code`.
pub open spec fn is_call_failure(call: EngineCall, code: Seq<char>, e: Error) -> bool {
    match call {
        EngineCall::Initialize => e matches Error::Initialize(c) && c@ == code,
        EngineCall::SetOption(key) => e matches Error::SetOption { key: k, code: c } && k@ == key@
            && c@ == code,
        EngineCall::SetProperty(key) => e matches Error::SetProperty { key: k, code: c } && k@
            == key@ && c@ == code,
        EngineCall::GetProperty(key) => e matches Error::GetProperty { key: k, code: c } && k@
            == key@ && c@ == code,
        EngineCall::Command(name) => e matches Error::Command { name: n, code: c } && n@ == name@
            && c@ == code,
        EngineCall::ObserveProperty(name) => e matches Error::PropertyObserve { name: n, code: c }
            && n@ == name@ && c@ == code,
        EngineCall::LoadConfigFile(path) => e matches Error::LoadConfig { path: p, code: c } && p@
            == path@ && c@ == code,
    }
}

/// The result of a call into the engine, from the status that it returned
/// and the engine's text for that status: a status below zero is the
/// call's failure, any other is success.
pub fn call_result(call: EngineCall, status: i32, text: Option<&str>) -> (res: Result<(), Error>)
    ensures
        !is_failure(status) ==> res is Ok,
        is_failure(status) ==> res is Err && is_call_failure(
            call,
            status_text(
                match text {
                    Some(t) => Some(t@),
                    None => None,
                },
            ),
            res->Err_0,
        ),
{
    if status >= 0 {
        return Ok(());
    }
    let code = error_string(text);
    Err(
        match call {
            EngineCall::Initialize => Error::Initialize(code),
            EngineCall::SetOption(key) => Error::SetOption { key, code },
            EngineCall::SetProperty(key) => Error::SetProperty { key, code },
            EngineCall::GetProperty(key) => Error::GetProperty { key, code },
            EngineCall::Command(name) => Error::Command { name, code },
            EngineCall::ObserveProperty(name) => Error::PropertyObserve { name, code },
            EngineCall::LoadConfigFile(path) => Error::LoadConfig { path, code },
        },
    )
}

/// The format code and the payload to write a property value with. A
/// dynamic value is written as the engine lays it out.
pub fn write_payload(value: &PropertyValue) -> (res: (u32, RawNode))
    ensures
        match *value {
            PropertyValue::String(s) => res.0 == MpvFormat::String.spec_code() && res.1.string@
                == s@,
            PropertyValue::Flag(b) => res.0 == MpvFormat::Flag.spec_code() && (res.1.flag != 0)
                == b,
            PropertyValue::Int64(i) => res.0 == MpvFormat::Int64.spec_code() && res.1.int64 == i,
            PropertyValue::Double(bits) => res.0 == MpvFormat::Double.spec_code()
                && res.1.double_bits == bits,
            PropertyValue::Node(node) => res.0 == MpvFormat::Node.spec_code() && (
            is_plain_value(node.model()) ==> res.1.decoded() == Ok::<
                NodeModel,
                u32,
            >(node.model())),
        },
{
    match value {
        PropertyValue::String(s) => {
            let mut raw = RawNode::blank(MpvFormat::String.code());
            raw.string = s.clone();
            (MpvFormat::String.code(), raw)
        },
        PropertyValue::Flag(b) => {
            let mut raw = RawNode::blank(MpvFormat::Flag.code());
            raw.flag = if *b {
                1
            } else {
                0
            };
            (MpvFormat::Flag.code(), raw)
        },
        PropertyValue::Int64(i) => {
            let mut raw = RawNode::blank(MpvFormat::Int64.code());
            raw.int64 = *i;
            (MpvFormat::Int64.code(), raw)
        },
        PropertyValue::Double(bits) => {
            let mut raw = RawNode::blank(MpvFormat::Double.code());
            raw.double_bits = *bits;
            (MpvFormat::Double.code(), raw)
        },
        PropertyValue::Node(node) => (MpvFormat::Node.code(), node.to_raw()),
    }
}

/// One step of ending an engine handle.
#[derive(Debug, Clone, Copy, PartialEq, Eq)]
pub enum TerminateStep {
    /// Take the wake-up callback off the handle.
    UnregisterWakeup,
    /// Ask the engine to terminate and free the handle.
    TerminateEngine,
    /// Release the closure that the wake-up callback ran.
    ReleaseCallback,
}

/// The steps of ending an engine handle, in order: the wake-up callback is
/// taken off first, then the engine is freed; a closure that the callback
/// ran is released only after that, and only where one was installed.
pub fn termination_steps(has_callback: bool) -> (res: Vec<TerminateStep>)
    ensures
        res@ == if has_callback {
            seq![
                TerminateStep::UnregisterWakeup,
                TerminateStep::TerminateEngine,
                TerminateStep::ReleaseCallback,
            ]
        } else {
            seq![TerminateStep::UnregisterWakeup, TerminateStep::TerminateEngine]
        },
{
    let mut steps: Vec<TerminateStep> = Vec::new();
    steps.push(TerminateStep::UnregisterWakeup);
    steps.push(TerminateStep::TerminateEngine);
    if has_callback {
        steps.push(TerminateStep::ReleaseCallback);
        proof {
            assert(steps@ =~= seq![
                TerminateStep::UnregisterWakeup,
                TerminateStep::TerminateEngine,
                TerminateStep::ReleaseCallback,
            ]);
        }
    } else {
        proof {
            assert(steps@ =~= seq![
                TerminateStep::UnregisterWakeup,
                TerminateStep::TerminateEngine,
            ]);
        }
    }
    steps
}

} // verus!
