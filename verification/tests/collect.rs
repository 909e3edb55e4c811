use testgen::collect::{extract, extract_output, extract_params, run, FnCollect};
use testgen::context::TestGenContext;
use testgen::error::ExtractError;
use testgen::model::{Function, Param, Ty};
use testgen::syntax::{FnDecl, FnRetTy, Item, ItemKind, Path, PathSegment, QPath, TyKind};

fn path_type(idents: &[&str]) -> TyKind {
    TyKind::Path(QPath::Resolved {
        has_self_type: false,
        path: Path {
            segments: idents
                .iter()
                .map(|ident| PathSegment { ident: ident.to_string(), has_generic_args: false })
                .collect(),
        },
    })
}

fn function_item(name: &str, inputs: Vec<TyKind>, output: FnRetTy) -> Item {
    Item { ident: name.to_string(), kind: ItemKind::Fn(FnDecl { inputs, output }) }
}

fn other_item(name: &str, kind: ItemKind) -> Item {
    Item { ident: name.to_string(), kind }
}

fn placeholder_param(written_type: &str) -> Param {
    Param { name: "_".to_string(), ty: Ty { name: written_type.to_string() } }
}

fn add_item() -> Item {
    function_item(
        "add",
        vec![path_type(&["i32"]), path_type(&["i32"])],
        FnRetTy::Return(path_type(&["i32"])),
    )
}

fn greet_item() -> Item {
    function_item("greet", vec![path_type(&["String"])], FnRetTy::DefaultReturn)
}

fn bad_item() -> Item {
    function_item("bad", vec![TyKind::Ref], FnRetTy::DefaultReturn)
}

#[test]
fn dump_of_add_and_greet() {
    let items = vec![add_item(), greet_item()];
    assert_eq!(
        run(&items),
        Ok("=== DUMP ===\nfn add(_: i32,_: i32,) -> i32 {}\nfn greet(_: String,) -> () {}\n"
            .to_string())
    );
}

#[test]
fn reference_parameter_fails_the_run() {
    let items = vec![bad_item()];
    assert_eq!(run(&items), Err(ExtractError::UnsupportedTypeShape));
    assert!(extract(&items).is_err());
}

#[test]
fn empty_program_dumps_the_header_alone() {
    assert_eq!(run(&Vec::new()), Ok("=== DUMP ===\n".to_string()));
}

#[test]
fn one_record_per_function_item() {
    let items = vec![
        other_item("Config", ItemKind::Struct),
        add_item(),
        other_item("LIMIT", ItemKind::Const),
        greet_item(),
        other_item("", ItemKind::Impl),
        function_item("main", vec![], FnRetTy::DefaultReturn),
    ];
    let ctx = match extract(&items) {
        Ok(ctx) => ctx,
        Err(_) => panic!("every declared type is a plain path"),
    };
    let functions = ctx.get_functions();
    assert_eq!(functions.len(), 3);
    assert_eq!(functions[0].name, "add");
    assert_eq!(functions[0].inputs.len(), 2);
    assert_eq!(functions[1].name, "greet");
    assert_eq!(functions[1].inputs.len(), 1);
    assert_eq!(functions[2].name, "main");
    assert_eq!(functions[2].inputs.len(), 0);
}

#[test]
fn parameters_keep_declaration_order() {
    let items = vec![function_item(
        "mix",
        vec![path_type(&["u8"]), path_type(&["std", "string", "String"]), path_type(&["bool"])],
        FnRetTy::Return(path_type(&["core", "option", "Option"])),
    )];
    let ctx = match extract(&items) {
        Ok(ctx) => ctx,
        Err(_) => panic!("every declared type is a plain path"),
    };
    let expected = Function {
        name: "mix".to_string(),
        inputs: vec![
            placeholder_param("u8"),
            placeholder_param("std::string::String"),
            placeholder_param("bool"),
        ],
        output: Ty { name: "core::option::Option".to_string() },
    };
    assert_eq!(ctx.get_functions(), &vec![expected]);
}

#[test]
fn records_follow_visitation_order_not_names() {
    let items = vec![
        function_item("zeta", vec![], FnRetTy::DefaultReturn),
        function_item("alpha", vec![], FnRetTy::DefaultReturn),
        function_item("mid", vec![], FnRetTy::DefaultReturn),
    ];
    assert_eq!(
        run(&items),
        Ok("=== DUMP ===\nfn zeta() -> () {}\nfn alpha() -> () {}\nfn mid() -> () {}\n".to_string())
    );
}

#[test]
fn same_named_functions_are_separate_records() {
    let items = vec![
        function_item("helper", vec![path_type(&["u8"])], FnRetTy::DefaultReturn),
        other_item("inner", ItemKind::Mod),
        function_item("helper", vec![], FnRetTy::Return(path_type(&["u8"]))),
    ];
    assert_eq!(
        run(&items),
        Ok("=== DUMP ===\nfn helper(_: u8,) -> () {}\nfn helper() -> u8 {}\n".to_string())
    );
}

#[test]
fn missing_return_type_is_the_unit_type() {
    assert_eq!(extract_output(&FnRetTy::DefaultReturn), Ok(Ty { name: "()".to_string() }));
    let items = vec![function_item("noop", vec![], FnRetTy::DefaultReturn)];
    let ctx = match extract(&items) {
        Ok(ctx) => ctx,
        Err(_) => panic!("nothing unsupported is declared"),
    };
    assert_eq!(ctx.get_functions()[0].output, Ty { name: "()".to_string() });
}

#[test]
fn written_return_type_is_canonicalized() {
    assert_eq!(
        extract_output(&FnRetTy::Return(path_type(&["std", "vec", "Vec"]))),
        Ok(Ty { name: "std::vec::Vec".to_string() })
    );
    assert_eq!(
        extract_output(&FnRetTy::Return(TyKind::Tup)),
        Err(ExtractError::UnsupportedTypeShape)
    );
}

#[test]
fn parameters_get_the_placeholder_name() {
    let decl = FnDecl {
        inputs: vec![path_type(&["i32"]), path_type(&["a", "B"])],
        output: FnRetTy::DefaultReturn,
    };
    assert_eq!(extract_params(&decl), Ok(vec![placeholder_param("i32"), placeholder_param("a::B")]));
    let none = FnDecl { inputs: vec![], output: FnRetTy::DefaultReturn };
    assert_eq!(extract_params(&none), Ok(vec![]));
}

#[test]
fn one_unsupported_parameter_fails_all_parameters() {
    let decl = FnDecl {
        inputs: vec![path_type(&["i32"]), TyKind::Slice, path_type(&["u8"])],
        output: FnRetTy::DefaultReturn,
    };
    assert_eq!(extract_params(&decl), Err(ExtractError::UnsupportedTypeShape));
}

#[test]
fn unsupported_return_type_fails_the_run() {
    let items = vec![
        add_item(),
        function_item("pair", vec![path_type(&["i32"])], FnRetTy::Return(TyKind::Tup)),
    ];
    assert_eq!(run(&items), Err(ExtractError::UnsupportedTypeShape));
}

#[test]
fn unsupported_type_anywhere_fails_the_run() {
    let shapes = vec![
        TyKind::Slice,
        TyKind::Array,
        TyKind::Ptr,
        TyKind::Ref,
        TyKind::BareFn,
        TyKind::Never,
        TyKind::Tup,
        TyKind::OpaqueDef,
        TyKind::TraitObject,
        TyKind::Typeof,
        TyKind::Infer,
        TyKind::Malformed,
        TyKind::Path(QPath::TypeRelative),
        TyKind::Path(QPath::LangItem),
    ];
    for shape in shapes {
        let first = vec![
            function_item("f", vec![shape.clone()], FnRetTy::DefaultReturn),
            add_item(),
        ];
        assert_eq!(run(&first), Err(ExtractError::UnsupportedTypeShape));
        let last = vec![
            add_item(),
            greet_item(),
            function_item("f", vec![path_type(&["u8"]), shape], FnRetTy::DefaultReturn),
        ];
        assert_eq!(run(&last), Err(ExtractError::UnsupportedTypeShape));
    }
}

#[test]
fn generic_type_fails_the_run() {
    let generic = TyKind::Path(QPath::Resolved {
        has_self_type: false,
        path: Path {
            segments: vec![PathSegment { ident: "Vec".to_string(), has_generic_args: true }],
        },
    });
    let items = vec![function_item("sum", vec![generic], FnRetTy::Return(path_type(&["i32"])))];
    assert_eq!(run(&items), Err(ExtractError::UnsupportedTypeShape));
}

#[test]
fn path_without_segment_fails_the_run() {
    let as_parameter = vec![
        add_item(),
        function_item("f", vec![path_type(&[])], FnRetTy::DefaultReturn),
    ];
    assert_eq!(run(&as_parameter), Err(ExtractError::UnsupportedTypeShape));
    let as_output = vec![function_item("g", vec![], FnRetTy::Return(path_type(&[])))];
    assert_eq!(run(&as_output), Err(ExtractError::UnsupportedTypeShape));
    let mut ctx = TestGenContext::new();
    {
        let mut visitor = FnCollect::new(&mut ctx);
        assert_eq!(
            visitor.visit_item(&as_parameter[1]),
            Err(ExtractError::UnsupportedTypeShape)
        );
    }
    assert!(ctx.get_functions().is_empty());
}

#[test]
fn malformed_segment_fails_the_run() {
    for idents in [vec![""], vec!["a", "b::c"], vec![":"]] {
        let items = vec![function_item("f", vec![path_type(&idents)], FnRetTy::DefaultReturn)];
        assert_eq!(run(&items), Err(ExtractError::UnsupportedTypeShape));
    }
}

#[test]
fn self_type_fails_the_run() {
    let qualified = TyKind::Path(QPath::Resolved {
        has_self_type: true,
        path: Path {
            segments: vec![
                PathSegment { ident: "Iterator".to_string(), has_generic_args: false },
                PathSegment { ident: "Item".to_string(), has_generic_args: false },
            ],
        },
    });
    let items = vec![function_item("next", vec![], FnRetTy::Return(qualified))];
    assert_eq!(run(&items), Err(ExtractError::UnsupportedTypeShape));
}

#[test]
fn other_items_are_visited_without_a_record() {
    let kinds = vec![
        ItemKind::Use,
        ItemKind::Static,
        ItemKind::Const,
        ItemKind::Mod,
        ItemKind::TyAlias,
        ItemKind::Enum,
        ItemKind::Struct,
        ItemKind::Union,
        ItemKind::Trait,
        ItemKind::Impl,
        ItemKind::Other,
    ];
    let mut ctx = TestGenContext::new();
    {
        let mut visitor = FnCollect::new(&mut ctx);
        for kind in kinds {
            assert_eq!(visitor.visit_item(&other_item("thing", kind)), Ok(()));
        }
    }
    assert!(ctx.get_functions().is_empty());
}

#[test]
fn visitor_writes_into_the_borrowed_context() {
    let mut ctx = TestGenContext::new();
    ctx.push_function(Function {
        name: "earlier".to_string(),
        inputs: vec![],
        output: Ty { name: "()".to_string() },
    });
    {
        let mut visitor = FnCollect::new(&mut ctx);
        assert_eq!(visitor.ctx.get_functions().len(), 1);
        visitor.push_function(Function {
            name: "pushed".to_string(),
            inputs: vec![],
            output: Ty { name: "u8".to_string() },
        });
        assert_eq!(visitor.visit_item(&add_item()), Ok(()));
    }
    let names: Vec<&str> = ctx.get_functions().iter().map(|f| f.name.as_str()).collect();
    assert_eq!(names, vec!["earlier", "pushed", "add"]);
}

#[test]
fn failed_visit_leaves_the_context_as_it_was() {
    let mut ctx = TestGenContext::new();
    {
        let mut visitor = FnCollect::new(&mut ctx);
        assert_eq!(visitor.visit_item(&add_item()), Ok(()));
        assert_eq!(visitor.visit_item(&bad_item()), Err(ExtractError::UnsupportedTypeShape));
        let late = function_item(
            "late",
            vec![path_type(&["i32"])],
            FnRetTy::Return(TyKind::TraitObject),
        );
        assert_eq!(visitor.visit_item(&late), Err(ExtractError::UnsupportedTypeShape));
    }
    assert_eq!(ctx.get_functions().len(), 1);
    assert_eq!(ctx.get_functions()[0].name, "add");
}

#[test]
fn traversal_stops_at_the_first_unsupported_item() {
    let items = vec![
        add_item(),
        other_item("S", ItemKind::Struct),
        greet_item(),
        bad_item(),
        function_item("after", vec![], FnRetTy::DefaultReturn),
    ];
    let mut ctx = TestGenContext::new();
    {
        let mut visitor = FnCollect::new(&mut ctx);
        assert_eq!(visitor.visit_all(&items), Err(ExtractError::UnsupportedTypeShape));
    }
    let names: Vec<&str> = ctx.get_functions().iter().map(|f| f.name.as_str()).collect();
    assert_eq!(names, vec!["add", "greet"]);
}

#[test]
fn traversal_of_a_supported_program_visits_every_item() {
    let items = vec![greet_item(), other_item("T", ItemKind::Trait), add_item()];
    let mut ctx = TestGenContext::new();
    {
        let mut visitor = FnCollect::new(&mut ctx);
        assert_eq!(visitor.visit_all(&items), Ok(()));
    }
    let names: Vec<&str> = ctx.get_functions().iter().map(|f| f.name.as_str()).collect();
    assert_eq!(names, vec!["greet", "add"]);
}

#[test]
fn rerun_gives_the_same_dump() {
    let items = vec![add_item(), other_item("m", ItemKind::Mod), greet_item()];
    let first = run(&items);
    let second = run(&items);
    assert_eq!(first, second);
    let copy = items.clone();
    assert_eq!(run(&copy), first);
    let failing = vec![add_item(), bad_item()];
    assert_eq!(run(&failing), run(&failing));
}

#[test]
fn collected_types_are_canonical_names() {
    let items = vec![
        function_item(
            "f",
            vec![path_type(&["a", "b", "C"]), path_type(&["D"])],
            FnRetTy::Return(path_type(&["e", "F"])),
        ),
        greet_item(),
    ];
    let ctx = match extract(&items) {
        Ok(ctx) => ctx,
        Err(_) => panic!("every declared type is a plain path"),
    };
    for function in ctx.get_functions() {
        let mut names: Vec<&str> = function.inputs.iter().map(|p| p.ty.name.as_str()).collect();
        names.push(function.output.name.as_str());
        for name in names {
            assert!(!name.is_empty());
            assert!(!name.starts_with("::"));
            assert!(!name.ends_with("::"));
        }
    }
}
