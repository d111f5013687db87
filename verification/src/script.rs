//! The program texts sent to the automation server: a user script wrapped for
//! synchronous or asynchronous execution, and the script that clicks an
//! element.

use crate::error::BridgeError;
use crate::json::{json_model, json_text, value_to_string};
use crate::text::{
    decimal, decimal_text, has_infix, join, joined, lemma_joined_prefix_agrees,
};
use vstd::prelude::*;

verus! {

/// What stands between two call arguments.
pub const ARGUMENT_SEPARATOR: &'static str = ", ";

/// The name of the extra argument through which an asynchronous script
/// reports its result.
pub const RESOLVER: &'static str = "res";

/// How long an asynchronous script may run before its promise is rejected,
/// in milliseconds.
pub const ASYNC_TIMEOUT_MS: u16 = 15000;

pub const SYNC_OPEN: &'static str = "
                  (function () {
                    ";

pub const SYNC_CALL: &'static str = "
                  }(";

pub const SYNC_CLOSE: &'static str = "));
                ";

pub const ASYNC_OPEN: &'static str = "
                let promiseResult = new Promise((res, rej) => {
                  const timeout = setTimeout(() => {
                    rej(\"Script execution timed out\");
                  }, ";

pub const ASYNC_BODY: &'static str = "); // 15 secs

                  (async function asyncMethod () {
                    ";

pub const ASYNC_CALL: &'static str = "
                  }(";

pub const ASYNC_THEN: &'static str = ")).then(result => {
                    clearTimeout(timeout);
                    res(result);
                  }).catch(error => {
                    clearTimeout(timeout);
                    rej(error);
                  });
                });
                ";

pub const ASYNC_RETURN: &'static str = "return promiseResult;
                ";

pub const CLICK_OPEN: &'static str = "let elementId = '";

pub const CLICK_CLOSE: &'static str = "'; ";

pub const CLICK_BODY: &'static str = "
                let element;
                if (!window.__webdriver_script_results) {
                    throw new Error('No elements found');
                }
                // Find element by UUID
                for (const [el, id] of window.__webdriver_script_results) {
                    if (id === elementId) {
                        element = el;
                        break;
                    }
                }

                if (!element) {
                    throw new Error('Element not found');
                }
                element.click();
                return \"clicked\";
                ";

/// The JSON texts of a list of argument values.
pub open spec fn argument_models(args: Seq<serde_json::Value>) -> Seq<Seq<char>> {
    Seq::new(args.len(), |i: int| json_text(json_model(args[i])))
}

/// The call arguments of a synchronous script: the argument texts,
/// separated.
pub open spec fn sync_arguments(arg_texts: Seq<Seq<char>>) -> Seq<char> {
    joined(arg_texts, ARGUMENT_SEPARATOR@)
}

/// The call arguments of an asynchronous script: the argument texts and
/// after them the resolver, separated.
pub open spec fn async_arguments(arg_texts: Seq<Seq<char>>) -> Seq<char> {
    joined(arg_texts.push(RESOLVER@), ARGUMENT_SEPARATOR@)
}

/// A script as the body of a function that is called at once with the given
/// arguments.
pub open spec fn sync_wrapper(script: Seq<char>, arg_texts: Seq<Seq<char>>) -> Seq<char> {
    SYNC_OPEN@ + script + SYNC_CALL@ + sync_arguments(arg_texts) + SYNC_CLOSE@
}

/// A script as the body of an asynchronous function, called at once inside a
/// promise that is rejected when the time limit passes, and returned at the
/// end.
pub open spec fn async_wrapper(script: Seq<char>, arg_texts: Seq<Seq<char>>) -> Seq<char> {
    ASYNC_OPEN@ + decimal(ASYNC_TIMEOUT_MS as nat) + ASYNC_BODY@ + script + ASYNC_CALL@
        + async_arguments(arg_texts) + ASYNC_THEN@ + ASYNC_RETURN@
}

/// The script that looks an element up by its handle and clicks it.
pub open spec fn click_text(element: Seq<char>) -> Seq<char> {
    CLICK_OPEN@ + element + CLICK_CLOSE@ + CLICK_BODY@
}

/// With the resolver added, a non-empty argument list is the list it was,
/// a separator and the resolver; an empty one is the resolver alone.
pub proof fn lemma_async_arguments(arg_texts: Seq<Seq<char>>)
    ensures
        async_arguments(arg_texts) == if arg_texts.len() == 0 {
            RESOLVER@
        } else {
            sync_arguments(arg_texts) + ARGUMENT_SEPARATOR@ + RESOLVER@
        },
{
    let extended = arg_texts.push(RESOLVER@);
    lemma_joined_prefix_agrees(arg_texts, extended, ARGUMENT_SEPARATOR@, arg_texts.len());
}

/// The time limit as it stands in the text of an asynchronous script.
pub proof fn lemma_timeout_text()
    ensures
        decimal(ASYNC_TIMEOUT_MS as nat) == "15000"@,
{
    reveal_with_fuel(decimal, 5);
    reveal_strlit("15000");
    assert(decimal(ASYNC_TIMEOUT_MS as nat) =~= "15000"@);
}

/// Whatever the script and its arguments, the text for asynchronous
/// execution holds the time limit in milliseconds, passes the resolver as the
/// last argument of the call, and ends by returning the promise.
pub proof fn lemma_async_wrapper_shape(script: Seq<char>, arg_texts: Seq<Seq<char>>)
    ensures
        has_infix(async_wrapper(script, arg_texts), decimal(ASYNC_TIMEOUT_MS as nat)),
        has_infix(async_wrapper(script, arg_texts), async_arguments(arg_texts)),
        RESOLVER@.is_suffix_of(async_arguments(arg_texts)),
        ASYNC_RETURN@.is_suffix_of(async_wrapper(script, arg_texts)),
{
    let text = async_wrapper(script, arg_texts);
    let limit = decimal(ASYNC_TIMEOUT_MS as nat);
    let arguments = async_arguments(arg_texts);
    let at_limit = ASYNC_OPEN@.len() as int;
    assert(text.subrange(at_limit, at_limit + limit.len()) =~= limit);
    let at_arguments = at_limit + limit.len() + ASYNC_BODY@.len() + script.len()
        + ASYNC_CALL@.len();
    assert(text.subrange(at_arguments, at_arguments + arguments.len()) =~= arguments);
    lemma_async_arguments(arg_texts);
    assert(arguments.subrange(arguments.len() - RESOLVER@.len(), arguments.len() as int)
        =~= RESOLVER@);
    assert(text.subrange(text.len() - ASYNC_RETURN@.len(), text.len() as int) =~= ASYNC_RETURN@);
}

/// Writes each argument value as JSON text, in order.
///
/// Every list can be written: the JSON writer takes any value.
pub fn argument_texts(args: &Vec<serde_json::Value>) -> (r: Result<Vec<String>, BridgeError>)
    ensures
        r matches Ok(texts) && texts.deep_view() == argument_models(args@),
{
    let mut texts: Vec<String> = Vec::new();
    let mut i: usize = 0;
    while i < args.len()
        invariant
            i <= args.len(),
            texts.len() == i,
            forall|j: int| 0 <= j < i ==> (#[trigger] texts[j])@ == json_text(json_model(args[j])),
        decreases args.len() - i,
    {
        match value_to_string(&args[i]) {
            Ok(text) => {
                texts.push(text);
            },
            Err(_) => {
                return Err(BridgeError::UnserializableArgument);
            },
        }
        i += 1;
    }
    assert(texts.deep_view() =~= argument_models(args@));
    Ok(texts)
}

/// Wraps a script for synchronous execution.
pub fn wrap_script(script: &str, arg_texts: &Vec<String>) -> (r: String)
    ensures
        r@ == sync_wrapper(script@, arg_texts.deep_view()),
{
    let arguments = join(arg_texts, ARGUMENT_SEPARATOR);
    let mut out = String::new();
    out.append(SYNC_OPEN);
    out.append(script);
    out.append(SYNC_CALL);
    out.append(arguments.as_str());
    out.append(SYNC_CLOSE);
    out
}

/// Wraps a script for asynchronous execution.
pub fn wrap_async_script(script: &str, arg_texts: &Vec<String>) -> (r: String)
    ensures
        r@ == async_wrapper(script@, arg_texts.deep_view()),
{
    let mut arguments = join(arg_texts, ARGUMENT_SEPARATOR);
    if arg_texts.len() > 0 {
        arguments.append(ARGUMENT_SEPARATOR);
    }
    arguments.append(RESOLVER);
    proof {
        lemma_async_arguments(arg_texts.deep_view());
    }
    let limit = decimal_text(ASYNC_TIMEOUT_MS);
    let mut out = String::new();
    out.append(ASYNC_OPEN);
    out.append(limit.as_str());
    out.append(ASYNC_BODY);
    out.append(script);
    out.append(ASYNC_CALL);
    out.append(arguments.as_str());
    out.append(ASYNC_THEN);
    out.append(ASYNC_RETURN);
    out
}

/// Builds the script that clicks the element with the given handle.
pub fn click_script(element: &str) -> (r: String)
    ensures
        r@ == click_text(element@),
{
    let mut out = String::new();
    out.append(CLICK_OPEN);
    out.append(element);
    out.append(CLICK_CLOSE);
    out.append(CLICK_BODY);
    out
}

} // verus!
