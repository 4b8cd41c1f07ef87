use script_macro::capabilities::Listing;
use script_macro::failure::Failure;
use script_macro::run::{evaluate, run_script, run_script_on};
use script_macro::sandbox::get_default_engine;
use script_macro::scope::build_scope;
use std::path::PathBuf;

fn no_files(_pattern: &str) -> Listing<PathBuf> {
    Ok(Vec::new())
}

fn searched_by_glob(pattern: &str) -> Listing<PathBuf> {
    match glob::glob(pattern) {
        Err(e) => Err(format!("{e:?}")),
        Ok(paths) => Ok(paths.map(|entry| entry.map_err(|e| format!("{e:?}"))).collect()),
    }
}

fn write_file(path: &str, text: &str) {
    let script = format!("let f = open_file(`{}`, `w`);\nf.truncate_file();\nf.write(item);\n`written`", path);
    assert_eq!(run_script_on(&script, text, no_files), Ok("written".to_string()));
}

#[test]
fn script_generates_tests_from_a_file_of_cases() {
    let path = "/tmp/script_macro_cases_of_one_test.json";
    write_file(path, "[[0, 0, 0], [0, 1, 1], [1, 0, 1], [1, 1, 2]]");
    let script = format!(
        "let output = item;\nfor testcase in parse_json(open_file(`{}`, `r`).read_string()) {{\n    let a = testcase[0];\n    let b = testcase[1];\n    let result = testcase[2];\n    let fn_name = slugify_ident(`it_works_${{a}}_${{b}}`);\n    output += `\nfn ${{fn_name}}() {{ it_works(${{a}}, ${{b}}, ${{result}}); }}`;\n}}\nreturn output;",
        path
    );
    let generated = run_script_on(&script, "fn it_works(a: usize, b: usize, output: usize) {}", no_files);
    assert_eq!(
        generated,
        Ok("fn it_works(a: usize, b: usize, output: usize) {}fn it_works_0_0() { it_works(0, 0, 0); }fn it_works_0_1() { it_works(0, 1, 1); }fn it_works_1_0() { it_works(1, 0, 1); }fn it_works_1_1() { it_works(1, 1, 2); }".to_string())
    );
}

#[test]
fn script_finds_files_by_pattern() {
    let dir = "/tmp";
    write_file(&format!("{}/script_macro_found_b.case", dir), "b");
    write_file(&format!("{}/script_macro_found_a.case", dir), "a");
    let script = format!(
        "let out = ``;\nfor p in glob(`{}/script_macro_found_*.case`) {{\n    out += basename(p) + `=` + open_file(p, `r`).read_string() + `;`;\n}}\nout",
        dir
    );
    assert_eq!(
        run_script(&script, searched_by_glob),
        Ok("script_macro_found_a.case=a;script_macro_found_b.case=b;".to_string())
    );
}

#[test]
fn failure_in_a_module_wraps_the_failure_inside() {
    let path = "/tmp/script_macro_failing_module.rhai";
    write_file(path, "let a = 1;\nlet b = 2;\nlet c = a.missing();\n");
    let module = &path[..path.len() - ".rhai".len()];
    let script = format!("import `{}` as m;\n`loaded`", module);
    let engine = get_default_engine(no_files);
    let mut scope = build_scope(None);
    let failure = evaluate(&engine, &mut scope, &script).expect_err("the module fails");
    match &failure {
        Failure::InModule { position, cause, .. } => {
            assert_eq!(position.line(), Some(1));
            assert!(matches!(**cause, Failure::Other { .. }));
            assert_eq!(cause.position().line(), Some(3));
        }
        _ => panic!("a failure in a module: {:?}", failure),
    }
    assert_eq!(failure.innermost().position().line(), Some(3));
}
