use unicorn::ast::Expr;
use unicorn::emit::Compiler;
use unicorn::errors::CompileError;

fn ident(name: &str) -> Expr {
    Expr::Ident(name.to_string())
}

fn lit(text: &str) -> Expr {
    Expr::Lit(text.to_string())
}

fn call(name: &str, args: Vec<Expr>) -> Expr {
    Expr::Call { ident: Box::new(ident(name)), args }
}

fn function(name: &str, params: Vec<(&str, &str)>, ret: &str, body: Vec<Expr>) -> Expr {
    Expr::Function {
        name: Box::new(ident(name)),
        function_ty: Box::new(Expr::FunctionType {
            params: params.into_iter().map(|(p, t)| (ident(p), ident(t))).collect(),
            ret_ty: Box::new(ident(ret)),
        }),
        body,
    }
}

#[test]
fn emits_a_relocatable_object() {
    let foo = function(
        "foo",
        vec![("a", "i64"), ("b", "i64")],
        "i64",
        vec![call("add", vec![ident("a"), ident("b")])],
    );
    let main = function(
        "main",
        vec![],
        "i64",
        vec![
            Expr::Assign(
                (Box::new(ident("r")), Box::new(ident("i64"))),
                Box::new(call("foo", vec![lit("20"), lit("30")])),
            ),
            call("stdprint", vec![ident("r")]),
        ],
    );
    let bytes = Compiler::new().expect("the host has a native backend").compile(&vec![foo, main]).unwrap();
    assert!(!bytes.is_empty());
    // ELF, Mach-O or COFF — whatever the host is, the bytes start with a
    // recognizable object-file magic, not our input.
    assert!(bytes.len() > 64);
}

#[test]
fn emission_reports_compile_errors() {
    let bad = function("main", vec![], "i64", vec![ident("nope")]);
    assert_eq!(Compiler::new().expect("the host has a native backend").compile(&vec![bad]), Err(CompileError::UnknownVariable));
}

#[test]
fn emission_requires_an_entry_function() {
    let foo = function("foo", vec![], "i64", vec![lit("1")]);
    assert_eq!(Compiler::new().expect("the host has a native backend").compile(&vec![foo]), Err(CompileError::UnknownFunction));
}
