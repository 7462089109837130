use unicorn::ast::Expr;
use unicorn::errors::CompileError;
use unicorn::middleware::{Expression, Expressions};

fn ident(name: &str) -> Expr {
    Expr::Ident(name.to_string())
}

fn lit(text: &str) -> Expr {
    Expr::Lit(text.to_string())
}

fn call(name: &str, args: Vec<Expr>) -> Expr {
    Expr::Call { ident: Box::new(ident(name)), args }
}

#[test]
fn literal_lowers_to_machine_integer() {
    let lowered = Expressions::lower(&vec![lit("20")]).unwrap();
    assert_eq!(lowered.0, vec![Expression::Lit(20)]);
}

#[test]
fn statement_call_gets_marker_and_tail_position() {
    let lowered = Expressions::lower(&vec![call("stdprint", vec![lit("7")])]).unwrap();
    assert_eq!(lowered.0.len(), 2);
    assert_eq!(lowered.0[0], Expression::BeforeCall(1));
    match &lowered.0[1] {
        Expression::ReturnCall { ident, args } => {
            assert_eq!(**ident, Expression::Ident("stdprint".to_string()));
            assert_eq!(args.0, vec![Expression::Lit(7)]);
        }
        other => panic!("expected a tail call, got {other:?}"),
    }
}

#[test]
fn non_tail_call_stays_plain_call() {
    let lowered = Expressions::lower(&vec![call("stdprint", vec![lit("7")]), lit("0")]).unwrap();
    assert_eq!(lowered.0.len(), 3);
    assert_eq!(lowered.0[0], Expression::BeforeCall(1));
    assert!(matches!(lowered.0[1], Expression::Call { .. }));
    assert_eq!(lowered.0[2], Expression::Lit(0));
}

#[test]
fn nested_call_argument_is_block_wrapped() {
    // add { add { 1 2 } 3 }: the inner call must become a block holding
    // its own marker/call pair.
    let inner = call("add", vec![lit("1"), lit("2")]);
    let outer = call("add", vec![inner, lit("3")]);
    let lowered = Expressions::lower(&vec![outer]).unwrap();
    assert_eq!(lowered.0[0], Expression::BeforeCall(2));
    match &lowered.0[1] {
        Expression::ReturnCall { args, .. } => {
            match &args.0[0] {
                Expression::Block(body) => {
                    assert_eq!(body.0.len(), 2);
                    assert_eq!(body.0[0], Expression::BeforeCall(2));
                    assert!(matches!(body.0[1], Expression::Call { .. }));
                }
                other => panic!("expected a block-wrapped argument, got {other:?}"),
            }
            assert_eq!(args.0[1], Expression::Lit(3));
        }
        other => panic!("expected a tail call, got {other:?}"),
    }
}

#[test]
fn assignment_lowers_structurally() {
    let assign = Expr::Assign(
        (Box::new(ident("a")), Box::new(ident("i64"))),
        Box::new(lit("20")),
    );
    let lowered = Expressions::lower(&vec![assign]).unwrap();
    match &lowered.0[0] {
        Expression::Assign((target, ty), value) => {
            assert_eq!(**target, Expression::Ident("a".to_string()));
            assert_eq!(**ty, Expression::Ident("i64".to_string()));
            assert_eq!(**value, Expression::Lit(20));
        }
        other => panic!("expected an assignment, got {other:?}"),
    }
}

#[test]
fn bad_literal_is_rejected() {
    assert_eq!(Expressions::lower(&vec![lit("not_a_number")]), Err(CompileError::BadLiteral));
    assert_eq!(Expressions::lower(&vec![lit("")]), Err(CompileError::BadLiteral));
    // Larger than the 64-bit value slot can hold.
    assert_eq!(
        Expressions::lower(&vec![lit("9223372036854775808")]),
        Err(CompileError::BadLiteral)
    );
}

#[test]
fn largest_literal_fits() {
    let lowered = Expressions::lower(&vec![lit("9223372036854775807")]).unwrap();
    assert_eq!(lowered.0, vec![Expression::Lit(i64::MAX)]);
}

#[test]
fn call_through_non_identifier_is_rejected() {
    let bad = Expr::Call { ident: Box::new(lit("3")), args: vec![] };
    assert_eq!(Expressions::lower(&vec![bad]), Err(CompileError::NotAnIdentifier));
}

#[test]
fn assignment_to_non_identifier_is_rejected() {
    let bad = Expr::Assign((Box::new(lit("3")), Box::new(ident("i64"))), Box::new(lit("1")));
    assert_eq!(Expressions::lower(&vec![bad]), Err(CompileError::NotAnIdentifier));
}

#[test]
fn global_data_address_is_unsupported() {
    let bad = Expr::GlobalDataAddr(Box::new(ident("g")));
    assert_eq!(Expressions::lower(&vec![bad]), Err(CompileError::Unsupported));
}

#[test]
fn first_error_wins() {
    // The bad literal comes before the bad assignment target.
    let stmts = vec![
        lit("x"),
        Expr::Assign((Box::new(lit("3")), Box::new(ident("i64"))), Box::new(lit("1"))),
    ];
    assert_eq!(Expressions::lower(&stmts), Err(CompileError::BadLiteral));
}

#[test]
fn function_declaration_lowers_structurally() {
    let f = Expr::Function {
        name: Box::new(ident("foo")),
        function_ty: Box::new(Expr::FunctionType {
            params: vec![(ident("a"), ident("i64")), (ident("b"), ident("i64"))],
            ret_ty: Box::new(ident("i64")),
        }),
        body: vec![call("add", vec![ident("a"), ident("b")])],
    };
    let lowered = Expressions::lower(&vec![f]).unwrap();
    match &lowered.0[0] {
        Expression::Function { name, function_ty, body } => {
            assert_eq!(**name, Expression::Ident("foo".to_string()));
            match &**function_ty {
                Expression::FunctionType { params, ret_ty } => {
                    assert_eq!(params.len(), 2);
                    assert_eq!(params[0].0, Expression::Ident("a".to_string()));
                    assert_eq!(params[1].1, Expression::Ident("i64".to_string()));
                    assert_eq!(**ret_ty, Expression::Ident("i64".to_string()));
                }
                other => panic!("expected a function type, got {other:?}"),
            }
            // The body's tail call is marked.
            assert_eq!(body.0[0], Expression::BeforeCall(2));
            assert!(matches!(body.0[1], Expression::ReturnCall { .. }));
        }
        other => panic!("expected a function, got {other:?}"),
    }
}
