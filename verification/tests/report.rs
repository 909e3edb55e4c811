use testgen::context::TestGenContext;
use testgen::model::{Function, Param, Ty};
use testgen::report::{render_function, render_param};

fn ty(name: &str) -> Ty {
    Ty { name: name.to_string() }
}

fn param(name: &str, written_type: &str) -> Param {
    Param { name: name.to_string(), ty: ty(written_type) }
}

fn function(name: &str, inputs: Vec<Param>, output: &str) -> Function {
    Function { name: name.to_string(), inputs, output: ty(output) }
}

#[test]
fn new_context_is_empty() {
    let ctx = TestGenContext::new();
    assert!(ctx.get_functions().is_empty());
}

#[test]
fn push_appends_in_order() {
    let mut ctx = TestGenContext::new();
    ctx.push_function(function("first", vec![], "()"));
    assert_eq!(ctx.get_functions().len(), 1);
    ctx.push_function(function("second", vec![param("_", "i32")], "i32"));
    ctx.push_function(function("third", vec![], "bool"));
    let names: Vec<&str> = ctx.get_functions().iter().map(|f| f.name.as_str()).collect();
    assert_eq!(names, vec!["first", "second", "third"]);
    assert_eq!(ctx.get_functions()[1], function("second", vec![param("_", "i32")], "i32"));
}

#[test]
fn push_does_not_deduplicate() {
    let mut ctx = TestGenContext::new();
    ctx.push_function(function("same", vec![], "()"));
    ctx.push_function(function("same", vec![], "()"));
    assert_eq!(ctx.get_functions().len(), 2);
    assert_eq!(ctx.get_functions()[0], ctx.get_functions()[1]);
}

#[test]
fn get_functions_can_be_read_repeatedly() {
    let mut ctx = TestGenContext::new();
    ctx.push_function(function("f", vec![], "()"));
    let first: Vec<Function> = ctx.get_functions().clone();
    let second: Vec<Function> = ctx.get_functions().clone();
    assert_eq!(first, second);
    ctx.push_function(function("g", vec![], "()"));
    assert_eq!(ctx.get_functions().len(), 2);
    assert_eq!(ctx.get_functions()[0], first[0]);
}

#[test]
fn param_text_is_name_colon_type_comma() {
    let mut text = String::from("(");
    render_param(&mut text, &param("_", "i32"));
    assert_eq!(text, "(_: i32,");
    render_param(&mut text, &param("name", "std::string::String"));
    assert_eq!(text, "(_: i32,name: std::string::String,");
}

#[test]
fn function_line_without_parameters() {
    let mut text = String::new();
    render_function(&mut text, &function("main", vec![], "()"));
    assert_eq!(text, "fn main() -> () {}\n");
}

#[test]
fn function_line_with_parameters() {
    let mut text = String::from("before\n");
    let f = function("add", vec![param("_", "i32"), param("_", "i32")], "i32");
    render_function(&mut text, &f);
    assert_eq!(text, "before\nfn add(_: i32,_: i32,) -> i32 {}\n");
}

#[test]
fn empty_context_dumps_the_header_alone() {
    assert_eq!(TestGenContext::new().dump(), "=== DUMP ===\n");
}

#[test]
fn dump_has_one_line_per_function_in_push_order() {
    let mut ctx = TestGenContext::new();
    ctx.push_function(function("add", vec![param("_", "i32"), param("_", "i32")], "i32"));
    ctx.push_function(function("greet", vec![param("_", "String")], "()"));
    assert_eq!(
        ctx.dump(),
        "=== DUMP ===\nfn add(_: i32,_: i32,) -> i32 {}\nfn greet(_: String,) -> () {}\n"
    );
}

#[test]
fn dump_does_not_change_the_context() {
    let mut ctx = TestGenContext::new();
    ctx.push_function(function("f", vec![param("x", "u8")], "u8"));
    let before: Vec<Function> = ctx.get_functions().clone();
    let first = ctx.dump();
    let second = ctx.dump();
    assert_eq!(first, second);
    assert_eq!(first, "=== DUMP ===\nfn f(x: u8,) -> u8 {}\n");
    assert_eq!(ctx.get_functions(), &before);
}
