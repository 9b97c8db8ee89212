use functional_macro::analyze::FnAnalysis;
use functional_macro::decl::{FunctionDeclaration, Parameter, RefMode, StatementKind};
use functional_macro::parse::parse;

fn declaration(func: &str) -> FunctionDeclaration {
    parse("", func).unwrap()
}

#[test]
fn find_imut_self() {
    let func = r#"fn test(&self) { }"#;
    let item_fn = declaration(func);
    let fn_analysis = FnAnalysis::new(item_fn);
    assert_eq!(fn_analysis.args().len(), 1);
    assert_eq!(fn_analysis.stmts().len(), 0);
    let mode = match &fn_analysis.args()[0] {
        Parameter::Receiver { mode } => *mode,
        _ => panic!("not a receiver"),
    };
    assert_eq!(true, mode != RefMode::Mutable);
    assert_eq!(RefMode::Shared, mode);
    assert_eq!(true, fn_analysis.has_self());
}

#[test]
fn find_mut_self() {
    let func = r#"fn test(&mut self) { }"#;
    let item_fn = declaration(func);
    let fn_analysis = FnAnalysis::new(item_fn);
    assert_eq!(fn_analysis.args().len(), 1);
    assert_eq!(fn_analysis.stmts().len(), 0);
    let mode = match &fn_analysis.args()[0] {
        Parameter::Receiver { mode } => *mode,
        _ => panic!("not a receiver"),
    };
    assert_eq!(true, mode == RefMode::Mutable);
    assert_eq!(true, fn_analysis.has_self());
    assert_eq!(false, fn_analysis.has_mut_arg());
    assert_eq!(true, fn_analysis.has_mut_self());
}

#[test]
fn find_arc_mutex_args() {
    let func = r#"fn test(i1: Arc<Mutex<i32>>) { }"#;
    let item_fn = declaration(func);
    println!("item_fn ===>  {:#?}", item_fn);
    let fn_analysis = FnAnalysis::new(item_fn);
    assert_eq!(fn_analysis.args().len(), 1);
    assert_eq!(fn_analysis.stmts().len(), 0);
    let (binding, mode) = match &fn_analysis.args()[0] {
        Parameter::Named { binding, mode } => (binding.clone(), *mode),
        _ => panic!("not a typed"),
    };
    let name = match binding {
        Some(n) => n,
        None => panic!("not an ident"),
    };
    assert_eq!("i1", name);
    assert_eq!(RefMode::Owned, mode);
    assert_eq!(false, fn_analysis.has_self());
    assert_eq!(false, fn_analysis.has_mut_arg());
}

#[test]
fn find_imut_args() {
    let func = r#"fn test(i1: String) { }"#;
    let item_fn = declaration(func);
    let fn_analysis = FnAnalysis::new(item_fn);
    assert_eq!(fn_analysis.args().len(), 1);
    assert_eq!(fn_analysis.stmts().len(), 0);
    let (binding, mode) = match &fn_analysis.args()[0] {
        Parameter::Named { binding, mode } => (binding.clone(), *mode),
        _ => panic!("not a typed"),
    };
    let name = match binding {
        Some(n) => n,
        None => panic!("not an ident"),
    };
    assert_eq!("i1", name);
    assert_eq!(RefMode::Owned, mode);
    assert_eq!(false, fn_analysis.has_self());
    assert_eq!(false, fn_analysis.has_mut_arg());
}

#[test]
fn find_imut_ref_args() {
    let func = r#"fn test(i1: &String) { }"#;
    let item_fn = declaration(func);
    let fn_analysis = FnAnalysis::new(item_fn);
    assert_eq!(fn_analysis.args().len(), 1);
    assert_eq!(fn_analysis.stmts().len(), 0);
    let (binding, mode) = match &fn_analysis.args()[0] {
        Parameter::Named { binding, mode } => (binding.clone(), *mode),
        _ => panic!("not a typed"),
    };
    let name = match binding {
        Some(n) => n,
        None => panic!("not an ident"),
    };
    assert_eq!("i1", name);
    assert_eq!(RefMode::Shared, mode);
    assert_eq!(false, fn_analysis.has_self());
    assert_eq!(false, fn_analysis.has_mut_arg());
}

#[test]
fn find_mut_args() {
    let func = r#"fn test(i1: &mut String) { }"#;
    let item_fn = declaration(func);
    let fn_analysis = FnAnalysis::new(item_fn);
    assert_eq!(fn_analysis.args().len(), 1);
    assert_eq!(fn_analysis.stmts().len(), 0);
    let (binding, mode) = match &fn_analysis.args()[0] {
        Parameter::Named { binding, mode } => (binding.clone(), *mode),
        _ => panic!("not a typed"),
    };
    let name = match binding {
        Some(n) => n,
        None => panic!("not an ident"),
    };
    assert_eq!("i1", name);
    assert_ne!(RefMode::Shared, mode);
    assert_eq!(RefMode::Mutable, mode);
    assert_eq!(false, fn_analysis.has_self());
    assert_eq!(true, fn_analysis.has_mut_arg());
}

#[test]
fn find_inner() {
    let func = r#"fn test() {
            let inner_var = "hello";
        }"#;
    let item_fn = declaration(func);
    let fn_analysis = FnAnalysis::new(item_fn);
    assert_eq!(fn_analysis.args().len(), 0);
    assert_eq!(fn_analysis.stmts().len(), 1);
    assert!(matches!(fn_analysis.stmts()[0].kind, StatementKind::Local { .. }));
    let local = fn_analysis.locals[0].clone();
    let name = match local {
        Some(n) => n,
        None => panic!("not an ident"),
    };
    assert_eq!("inner_var", name);
}

#[test]
fn find_inner_using_global() {
    let func = r#"pub fn test(i1: u32) -> u32 {
            let i2 = i1 + 1;
            i2         
        }"#;
    let item_fn = declaration(func);
    let fn_analysis = FnAnalysis::new(item_fn);
    assert_eq!(fn_analysis.args().len(), 1);
    assert_eq!(fn_analysis.stmts().len(), 2);
    assert!(matches!(fn_analysis.stmts()[0].kind, StatementKind::Local { .. }));
    assert!(matches!(fn_analysis.stmts()[1].kind, StatementKind::Expr));
    let local = fn_analysis.locals[0].clone();
    let name = match local {
        Some(n) => n,
        None => panic!("not an ident"),
    };
    assert_eq!("i2", name);
}

#[test]
fn typed_local_binding_is_found() {
    let fn_analysis = FnAnalysis::new(declaration("fn f() { let x: u32 = 1; let (a, b) = (1, 2); x; }"));
    assert_eq!(fn_analysis.locals.len(), 2);
    assert_eq!(fn_analysis.locals[0], Some("x".to_string()));
    assert_eq!(fn_analysis.locals[1], None);
    assert!(matches!(fn_analysis.stmts()[2].kind, StatementKind::Expr));
}

#[test]
fn locals_in_nested_blocks_are_not_listed() {
    let fn_analysis = FnAnalysis::new(declaration("fn f() { { let y = 2; } let z = 3; }"));
    assert_eq!(fn_analysis.locals, vec![Some("z".to_string())]);
}

#[test]
fn arg_names_keep_declaration_order() {
    let fn_analysis = FnAnalysis::new(declaration("fn f(b: u8, a: &str, c: Vec<u8>) {}"));
    assert_eq!(fn_analysis.arg_names, vec!["b".to_string(), "a".to_string(), "c".to_string()]);
}

#[test]
fn destructured_parameter_has_no_binding() {
    let fn_analysis = FnAnalysis::new(declaration("fn f((a, b): (u8, u8), c: u8) {}"));
    assert!(matches!(fn_analysis.args()[0], Parameter::Named { binding: None, .. }));
    assert!(fn_analysis.has_unsupported_pattern());
    assert_eq!(fn_analysis.arg_names, vec!["c".to_string()]);
}
