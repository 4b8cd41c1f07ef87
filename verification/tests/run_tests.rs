use script_macro::capabilities::Listing;
use script_macro::failure::Failure;
use script_macro::position::Position;
use script_macro::run::{conclude, evaluate, run_script, run_script_on};
use script_macro::sandbox::get_default_engine;
use script_macro::scope::build_scope;
use std::path::PathBuf;

fn no_files(_pattern: &str) -> Listing<PathBuf> {
    Ok(Vec::new())
}

const ITEM: &str = "fn it_works(a: usize, b: usize, output: usize) { assert_eq!(add(a, b), output); }";

const NESTED: &str = "fn inner(x) {\n    x.no_such_method()\n}\nfn middle(x) {\n    inner(x)\n}\nfn outer(x) {\n    middle(x)\n}\nlet v = 1;\nouter(v);\n`never`";

fn context_of(message: &str) -> &str {
    let at = message.find("\n\n").expect("a message has an empty line");
    &message[at + 2..]
}

#[test]
fn script_returns_generated_function() {
    let generated = run_script("return `fn f() {}`;", no_files);
    assert_eq!(generated, Ok("fn f() {}".to_string()));
    let parsed = syn::parse_str::<syn::ItemFn>(&generated.unwrap()).expect("a function definition");
    assert_eq!(parsed.sig.ident.to_string(), "f");
    assert!(parsed.sig.inputs.is_empty());
}

#[test]
fn script_on_item_generates_one_test_for_each_pair() {
    let script = "let output = item;\nfor a in 0..2 {\n    for b in 0..2 {\n        let fn_name = slugify_ident(`it works ${a}-${b}`);\n        output += `\n#[test]\nfn ${fn_name}() {\n    it_works(${a}, ${b}, ${a + b});\n}\n`;\n    }\n}\nreturn output;";
    let generated = run_script_on(script, ITEM, no_files).expect("the script runs");
    let expected = format!(
        "{}{}{}{}{}",
        ITEM,
        "#[test]\nfn it_works_0_0() {\n    it_works(0, 0, 0);\n}\n",
        "#[test]\nfn it_works_0_1() {\n    it_works(0, 1, 1);\n}\n",
        "#[test]\nfn it_works_1_0() {\n    it_works(1, 0, 1);\n}\n",
        "#[test]\nfn it_works_1_1() {\n    it_works(1, 1, 2);\n}\n"
    );
    assert_eq!(generated, expected);
    let file = syn::parse_str::<syn::File>(&generated).expect("generated text is source text");
    let mut names: Vec<String> = Vec::new();
    for item in file.items.iter() {
        match item {
            syn::Item::Fn(function) => names.push(function.sig.ident.to_string()),
            _ => panic!("only functions are generated"),
        }
    }
    assert_eq!(names, vec!["it_works", "it_works_0_0", "it_works_0_1", "it_works_1_0", "it_works_1_1"]);
}

#[test]
fn script_sees_the_item_as_text() {
    assert_eq!(run_script_on("item + `!`", "fn x() {}", no_files), Ok("fn x() {}!".to_string()));
    assert_eq!(run_script_on("`${item.len()}`", "abc", no_files), Ok("3".to_string()));
    assert_eq!(run_script_on("type_of(item)", "abc", no_files), Ok("string".to_string()));
}

#[test]
fn script_alone_has_no_item() {
    let generated = run_script("item", no_files);
    assert_eq!(
        generated,
        Err("Variable not found: item (line 1, position 1)\n\n--> item\n".to_string())
    );
}

#[test]
fn number_as_final_value_is_a_failure() {
    let generated = run_script("42", no_files);
    let message = generated.expect_err("a number is no text");
    assert!(message.starts_with("Output type incorrect"));
    assert_eq!(context_of(&message), "");
    assert!(run_script("let a = 1;\nlet b = 2;\na + b", no_files).is_err());
    assert!(run_script("true", no_files).is_err());
    assert!(run_script("let x = 1;", no_files).is_err());
    assert!(run_script_on("item.len()", "abc", no_files).is_err());
}

#[test]
fn failure_in_the_middle_marks_its_line() {
    let script = "let a = 1;\nlet b = 2;\nlet c = 3;\nlet d = 4;\nlet e = a.missing();\nlet f = 6;\nlet g = 7;\nlet h = 8;\nlet i = 9;\n`x`";
    let message = run_script(script, no_files).expect_err("the script fails");
    assert!(message.starts_with("Function not found: missing (i64) (line 5, position 11)\n\n"));
    assert_eq!(
        context_of(&message),
        "    let c = 3;\n    let d = 4;\n--> let e = a.missing();\n    let f = 6;\n    let g = 7;\n    let h = 8;\n"
    );
}

#[test]
fn failure_on_the_first_line_is_shown_from_the_start() {
    let script = "let e = 1.missing();\nlet f = 6;\nlet g = 7;\nlet h = 8;\nlet i = 9;\n`x`";
    let message = run_script(script, no_files).expect_err("the script fails");
    assert_eq!(
        context_of(&message),
        "--> let e = 1.missing();\n    let f = 6;\n    let g = 7;\n    let h = 8;\n"
    );
}

#[test]
fn failure_on_the_second_line_is_shown_from_the_start() {
    let script = "let a = 1;\nlet e = a.missing();\nlet g = 7;\nlet h = 8;\nlet i = 9;\nlet j = 10;\n`x`";
    let message = run_script(script, no_files).expect_err("the script fails");
    assert_eq!(
        context_of(&message),
        "    let a = 1;\n--> let e = a.missing();\n    let g = 7;\n    let h = 8;\n    let i = 9;\n"
    );
}

#[test]
fn failure_on_the_last_line_is_shown_to_the_end() {
    let script = "let a = 1;\nlet b = 2;\nlet c = 3;\nlet d = 4;\na.missing()";
    let message = run_script(script, no_files).expect_err("the script fails");
    assert_eq!(context_of(&message), "    let c = 3;\n    let d = 4;\n--> a.missing()\n");
}

#[test]
fn failure_near_the_end_is_shown_to_the_end() {
    let script = "let a = 1;\nlet b = 2;\nlet c = 3;\nlet d = a.missing();\n`x`\n";
    let message = run_script(script, no_files).expect_err("the script fails");
    assert_eq!(
        context_of(&message),
        "    let b = 2;\n    let c = 3;\n--> let d = a.missing();\n    `x`\n    \n"
    );
}

#[test]
fn failure_three_calls_deep_shows_the_innermost_line() {
    let message = run_script(NESTED, no_files).expect_err("the script fails");
    assert_eq!(
        message,
        "Function not found: no_such_method (i64) (line 2, position 7)\nin call to function 'inner' (line 5, position 5)\nin call to function 'middle' (line 8, position 5)\nin call to function 'outer' (line 11, position 1)\n\n    fn inner(x) {\n-->     x.no_such_method()\n    }\n    fn middle(x) {\n        inner(x)\n"
    );
}

#[test]
fn evaluate_reads_the_whole_chain() {
    let engine = get_default_engine(no_files);
    let mut scope = build_scope(None);
    let failure = evaluate(&engine, &mut scope, NESTED).expect_err("the script fails");
    assert_eq!(failure.position(), Position { line: Some(11), column: Some(1) });
    let mut depth = 0;
    let mut lines: Vec<Option<usize>> = Vec::new();
    let mut current = &failure;
    loop {
        lines.push(current.position().line());
        match current {
            Failure::InFunctionCall { cause, .. } => {
                depth += 1;
                current = cause;
            }
            Failure::InModule { .. } => panic!("no module is loaded"),
            Failure::Other { description, position } => {
                assert_eq!(description, "Function not found: no_such_method (i64) (line 2, position 7)");
                assert_eq!(*position, Position { line: Some(2), column: Some(7) });
                break;
            }
        }
    }
    assert_eq!(depth, 3);
    assert_eq!(lines, vec![Some(11), Some(8), Some(5), Some(2)]);
    assert_eq!(failure.innermost().position().line(), Some(2));
}

#[test]
fn evaluate_hands_back_the_final_text() {
    let engine = get_default_engine(no_files);
    let mut scope = build_scope(Some("it"));
    assert_eq!(evaluate(&engine, &mut scope, "item + `em`"), Ok("item".to_string()));
}

#[test]
fn failure_outside_the_script_has_no_context() {
    let engine = get_default_engine(no_files);
    let mut scope = build_scope(None);
    let failure = evaluate(&engine, &mut scope, "1").expect_err("a number is no text");
    assert_eq!(failure.position(), Position::none());
    assert!(matches!(failure, Failure::Other { .. }));
}

#[test]
fn syntax_error_is_shown_with_its_line() {
    let generated = run_script("let a = 1;\nlet x = 1 +;\n`x`", no_files);
    let message = generated.expect_err("the script does not parse");
    assert!(message.starts_with("Syntax error: "));
    assert_eq!(context_of(&message), "    let a = 1;\n--> let x = 1 +;\n    `x`\n");
}

#[test]
fn thrown_value_is_a_failure() {
    assert_eq!(
        run_script("throw `boom`;", no_files),
        Err("Runtime error: boom (line 1, position 1)\n\n--> throw `boom`;\n".to_string())
    );
}

#[test]
fn conclude_hands_generated_text_on() {
    assert_eq!(conclude("whatever", Ok("fn f() {}".to_string())), Ok("fn f() {}".to_string()));
    assert_eq!(conclude("", Ok(String::new())), Ok(String::new()));
}

#[test]
fn conclude_writes_the_message_of_a_failure() {
    let failure = Failure::InFunctionCall {
        description: "outer".to_string(),
        position: Position::at_line(3),
        cause: Box::new(Failure::Other { description: "inner".to_string(), position: Position::at_line(1) }),
    };
    assert_eq!(
        conclude("first\nsecond\nthird", Err(failure)),
        Err("outer\n\n--> first\n    second\n    third\n".to_string())
    );
}

#[test]
fn two_runs_of_one_script_generate_the_same_text() {
    let script = "let out = item;\nfor n in 0..3 {\n    out += slugify_ident(`-${n} x`);\n}\nout += stringify_json(parse_json(`{\"b\": 1, \"a\": [true, null]}`));\nout";
    let first = run_script_on(script, "mod m {}", no_files);
    let second = run_script_on(script, "mod m {}", no_files);
    assert_eq!(first, second);
    assert_eq!(first, Ok("mod m {}_0_x_1_x_2_x{\"a\":[true,null],\"b\":1}".to_string()));
    let failing = "let a = 1;\na.missing()";
    assert_eq!(run_script(failing, no_files), run_script(failing, no_files));
}
