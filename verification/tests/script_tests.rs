use simulator_bridge::error::BridgeError;
use simulator_bridge::script::{
    argument_texts, click_script, wrap_async_script, wrap_script, ARGUMENT_SEPARATOR,
    ASYNC_TIMEOUT_MS, RESOLVER,
};

const SYNC_TEMPLATE: &str = "
                  (function () {
                    __SCRIPT__
                  }(__SCRIPT_ARGS__));
                ";

const ASYNC_TEMPLATE: &str = "
                let promiseResult = new Promise((res, rej) => {
                  const timeout = setTimeout(() => {
                    rej(\"Script execution timed out\");
                  }, 15000); // 15 secs

                  (async function asyncMethod () {
                    __SCRIPT__
                  }(__SCRIPT_ARGS__)).then(result => {
                    clearTimeout(timeout);
                    res(result);
                  }).catch(error => {
                    clearTimeout(timeout);
                    rej(error);
                  });
                });
                return promiseResult;
                ";

fn fill(template: &str, script: &str, args: &str) -> String {
    template.replace("__SCRIPT__", script).replace("__SCRIPT_ARGS__", args)
}

fn values(texts: &[&str]) -> Vec<serde_json::Value> {
    texts.iter().map(|text| serde_json::from_str(text).unwrap()).collect()
}

#[test]
fn sync_wrapper_without_arguments_calls_with_an_empty_list() {
    let wrapped = wrap_script("return 1+1;", &Vec::new());
    assert_eq!(
        wrapped,
        "\n                  (function () {\n                    return 1+1;\n                  }());\n                "
    );
    assert_eq!(wrapped, fill(SYNC_TEMPLATE, "return 1+1;", ""));
}

#[test]
fn sync_wrapper_passes_the_arguments_separated() {
    let texts = vec!["1".to_string(), "\"two\"".to_string(), "[3]".to_string()];
    let wrapped = wrap_script("return arguments.length;", &texts);
    assert_eq!(wrapped, fill(SYNC_TEMPLATE, "return arguments.length;", "1, \"two\", [3]"));
    assert!(wrapped.contains("}(1, \"two\", [3]));"));
}

#[test]
fn sync_wrapper_keeps_the_script_as_it_is() {
    let script = "let a = 'x';\n  return a + \"y\";";
    let wrapped = wrap_script(script, &vec!["null".to_string()]);
    assert_eq!(wrapped, fill(SYNC_TEMPLATE, script, "null"));
}

#[test]
fn async_wrapper_without_arguments_passes_only_the_resolver() {
    let wrapped = wrap_async_script("res(1);", &Vec::new());
    assert_eq!(wrapped, fill(ASYNC_TEMPLATE, "res(1);", "res"));
    assert!(wrapped.contains("}(res)).then(result => {"));
}

#[test]
fn async_wrapper_appends_the_resolver_to_the_arguments() {
    let texts = vec!["1".to_string(), "{\"a\":true}".to_string()];
    let wrapped = wrap_async_script("arguments[2](arguments[0]);", &texts);
    assert_eq!(
        wrapped,
        fill(ASYNC_TEMPLATE, "arguments[2](arguments[0]);", "1, {\"a\":true}, res")
    );
}

#[test]
fn async_wrapper_holds_the_time_limit_and_returns_the_promise() {
    let wrapped = wrap_async_script("", &Vec::new());
    assert_eq!(ASYNC_TIMEOUT_MS, 15000);
    assert!(wrapped.contains("}, 15000); // 15 secs"));
    assert!(wrapped.contains("rej(\"Script execution timed out\");"));
    assert!(wrapped.trim_end().ends_with("return promiseResult;"));
    assert_eq!(RESOLVER, "res");
    assert_eq!(ARGUMENT_SEPARATOR, ", ");
}

#[test]
fn argument_texts_writes_compact_json() {
    let args = values(&["1", " \"a b\" ", "[1, 2]", "{ \"k\" : null }", "true", "1.5"]);
    assert_eq!(
        argument_texts(&args),
        Ok(vec![
            "1".to_string(),
            "\"a b\"".to_string(),
            "[1,2]".to_string(),
            "{\"k\":null}".to_string(),
            "true".to_string(),
            "1.5".to_string(),
        ])
    );
}

#[test]
fn argument_texts_escapes_strings() {
    let args = vec![serde_json::Value::String("say \"hi\"\n".to_string())];
    assert_eq!(argument_texts(&args), Ok(vec!["\"say \\\"hi\\\"\\n\"".to_string()]));
}

#[test]
fn argument_texts_of_no_arguments_is_empty() {
    let none: Result<Vec<String>, BridgeError> = Ok(Vec::new());
    assert_eq!(argument_texts(&Vec::new()), none);
}

#[test]
fn click_script_names_the_element_and_looks_it_up() {
    let script = click_script("abc-123");
    assert!(script.starts_with("let elementId = 'abc-123'; \n                let element;\n"));
    assert!(script.contains("if (id === elementId) {"));
    assert!(script.contains("throw new Error('Element not found');"));
    assert!(script.contains("throw new Error('No elements found');"));
    assert!(script.contains("element.click();"));
    assert!(script.ends_with("return \"clicked\";\n                "));
}

#[test]
fn click_script_is_the_declaration_a_space_and_the_body() {
    let body = "
                let element;
                if (!window.__webdriver_script_results) {
                    throw new Error('No elements found');
                }
                // Find element by UUID
                for (const [el, id] of window.__webdriver_script_results) {
                    if (id === elementId) {
                        element = el;
                        break;
                    }
                }

                if (!element) {
                    throw new Error('Element not found');
                }
                element.click();
                return \"clicked\";
                ";
    let expected = [format!("let elementId = '{}';", "e-1"), body.to_string()].join(" ");
    assert_eq!(click_script("e-1"), expected);
}
