use babbelaar_compiler::interpreter::ast::{
    BiExpression, BiOperator, Expression, ForStatement, FunctionCallExpression, FunctionStatement,
    PrimaryExpression, RangeExpression, Statement, TemplateStringExpressionPart,
};
use babbelaar_compiler::interpreter::builtin::Builtin;
use babbelaar_compiler::interpreter::interpreter::{Failure, Interpreter, CALL_DEPTH_LIMIT};
use babbelaar_compiler::interpreter::scope::Scope;
use babbelaar_compiler::interpreter::value::Value;

fn integer(value: i64) -> Expression {
    Expression::Primary(PrimaryExpression::IntegerLiteral(value))
}

fn text(value: &str) -> Expression {
    Expression::Primary(PrimaryExpression::StringLiteral(String::from(value)))
}

fn reference(name: &str) -> Expression {
    Expression::Primary(PrimaryExpression::Reference(String::from(name)))
}

fn binary(operator: BiOperator, lhs: Expression, rhs: Expression) -> Expression {
    Expression::BiExpression(BiExpression { operator, lhs: Box::new(lhs), rhs: Box::new(rhs) })
}

fn call(name: &str, arguments: Vec<Expression>) -> Statement {
    Statement::Expression(Expression::Function(FunctionCallExpression {
        function_identifier: String::from(name),
        arguments,
    }))
}

fn repeat(name: &str, start: i64, end: i64, body: Vec<Statement>) -> Statement {
    Statement::For(ForStatement {
        iterator_name: String::from(name),
        range: RangeExpression {
            start: PrimaryExpression::IntegerLiteral(start),
            end: PrimaryExpression::IntegerLiteral(end),
        },
        body,
    })
}

fn lines(program: &[Statement]) -> Vec<String> {
    let mut interpreter = Interpreter::new();
    for statement in program {
        interpreter.execute(statement);
    }
    interpreter.output().clone()
}

#[test]
fn scope_finds_innermost_binding() {
    let mut scope = Scope::new();
    assert_eq!(scope.find("a"), Value::Null);
    scope.set("a", Value::Integer(1));
    scope.set("b", Value::String(String::from("buiten")));
    let mut scope = scope.push();
    assert_eq!(scope.find("a"), Value::Integer(1));
    scope.set("a", Value::Integer(2));
    assert_eq!(scope.find("a"), Value::Integer(2));
    assert_eq!(scope.find("b"), Value::String(String::from("buiten")));
    scope.set("a", Value::Integer(3));
    assert_eq!(scope.find("a"), Value::Integer(3));
    assert_eq!(scope.variables.len(), 1);
    let scope = scope.pop();
    assert_eq!(scope.find("a"), Value::Integer(1));
    assert_eq!(scope.find("c"), Value::Null);
    assert!(scope.parent.is_none());
}

#[test]
fn values_have_their_text() {
    assert_eq!(Value::Null.to_text(), "null");
    assert_eq!(Value::Integer(-12).to_text(), "-12");
    assert_eq!(Value::Integer(0).to_text(), "0");
    assert_eq!(Value::String(String::from("hé")).to_text(), "hé");
    assert_eq!(Value::default(), Value::Null);
    assert_eq!(Value::Integer(4).clone(), Value::Integer(4));
}

#[test]
fn builtin_writes_its_arguments_as_one_line() {
    assert_eq!(Builtin::find("schrijf"), Some(Builtin::Schrijf));
    assert_eq!(Builtin::find("lees"), None);
    let mut output = vec![String::from("eerst")];
    let value = Builtin::Schrijf.call(
        &mut output,
        &vec![Value::Integer(1), Value::String(String::from("twee")), Value::Null],
    );
    assert_eq!(value, Value::Null);
    assert_eq!(output, vec![String::from("eerst"), String::from("1 twee null")]);
    Builtin::Schrijf.call(&mut output, &vec![]);
    assert_eq!(output[2], "");
}

#[test]
fn arithmetic_and_joining() {
    let program = vec![
        call("schrijf", vec![binary(BiOperator::Add, integer(40), integer(83))]),
        call("schrijf", vec![binary(BiOperator::Subtract, integer(1), integer(3))]),
        call(
            "schrijf",
            vec![binary(BiOperator::Multiply, integer(6), binary(BiOperator::Add, integer(3), integer(4)))],
        ),
        call("schrijf", vec![binary(BiOperator::Add, text("Hallo, "), text("wereld"))]),
    ];
    assert_eq!(lines(&program), vec!["123", "-2", "42", "Hallo, wereld"]);
}

#[test]
fn template_string_holds_values() {
    let template = Expression::Primary(PrimaryExpression::TemplateString {
        parts: vec![
            TemplateStringExpressionPart::String(String::from("x = ")),
            TemplateStringExpressionPart::Expression(binary(BiOperator::Add, integer(1), integer(2))),
            TemplateStringExpressionPart::String(String::from("!")),
            TemplateStringExpressionPart::Expression(reference("geen")),
        ],
    });
    assert_eq!(lines(&[call("schrijf", vec![template])]), vec!["x = 3!null"]);
}

#[test]
fn for_statement_runs_body_for_each_integer() {
    let program = vec![
        repeat("i", 2, 5, vec![call("schrijf", vec![reference("i"), binary(BiOperator::Multiply, reference("i"), reference("i"))])]),
        repeat("i", 5, 5, vec![call("schrijf", vec![text("nooit")])]),
        repeat("i", 5, 2, vec![call("schrijf", vec![text("nooit")])]),
    ];
    let mut interpreter = Interpreter::new();
    for statement in &program {
        interpreter.execute(statement);
    }
    assert_eq!(interpreter.output(), &vec!["2 4", "3 9", "4 16"]);
    assert_eq!(interpreter.variable("i"), Value::Null);
}

#[test]
fn nested_loops_have_their_own_scopes() {
    let program = vec![repeat(
        "a",
        0,
        2,
        vec![repeat("b", 0, 2, vec![call("schrijf", vec![reference("a"), reference("b")])])],
    )];
    assert_eq!(lines(&program), vec!["0 0", "0 1", "1 0", "1 1"]);
}

#[test]
fn declared_function_runs_in_the_scope_of_its_caller() {
    let program = vec![
        Statement::Function(FunctionStatement {
            name: String::from("toon"),
            body: vec![call("schrijf", vec![text("eerste")])],
        }),
        Statement::Function(FunctionStatement {
            name: String::from("toon"),
            body: vec![call("schrijf", vec![text("waarde"), reference("i")])],
        }),
        repeat("i", 7, 9, vec![call("toon", vec![])]),
        call("toon", vec![]),
    ];
    assert_eq!(lines(&program), vec!["waarde 7", "waarde 8", "waarde null"]);
}

#[test]
fn unknown_function_is_reported() {
    let program = vec![call("bestaatNiet", vec![integer(1)])];
    assert_eq!(lines(&program), vec!["Error: Unknown function bestaatNiet"]);
}

#[test]
fn declared_function_comes_before_builtin() {
    let program = vec![
        Statement::Function(FunctionStatement { name: String::from("schrijf"), body: vec![] }),
        call("schrijf", vec![text("stil")]),
    ];
    assert!(lines(&program).is_empty());
}

fn failure(program: &[Statement]) -> Result<(), Failure> {
    let mut interpreter = Interpreter::new();
    for statement in program {
        interpreter.try_execute(statement)?;
    }
    Ok(())
}

#[test]
fn operands_of_the_wrong_kind_fail() {
    assert_eq!(
        failure(&[Statement::Expression(binary(BiOperator::Add, integer(1), text("een")))]),
        Err(Failure::InvalidOperands {
            operator: BiOperator::Add,
            lhs: Value::Integer(1),
            rhs: Value::String(String::from("een")),
        })
    );
    assert_eq!(
        failure(&[Statement::Expression(binary(BiOperator::Subtract, text("a"), text("b")))]),
        Err(Failure::InvalidOperands {
            operator: BiOperator::Subtract,
            lhs: Value::String(String::from("a")),
            rhs: Value::String(String::from("b")),
        })
    );
    assert_eq!(
        failure(&[Statement::Expression(binary(BiOperator::Multiply, reference("geen"), integer(2)))]),
        Err(Failure::InvalidOperands {
            operator: BiOperator::Multiply,
            lhs: Value::Null,
            rhs: Value::Integer(2),
        })
    );
    assert_eq!(
        failure(&[Statement::Expression(binary(BiOperator::Multiply, text("a"), text("b")))]),
        Err(Failure::InvalidOperands {
            operator: BiOperator::Multiply,
            lhs: Value::String(String::from("a")),
            rhs: Value::String(String::from("b")),
        })
    );
    assert_eq!(
        failure(&[Statement::Expression(binary(BiOperator::Add, text("a"), text("b")))]),
        Ok(())
    );
}

#[test]
fn subtraction_takes_the_right_side_from_the_left() {
    assert_eq!(
        lines(&[call("schrijf", vec![binary(BiOperator::Subtract, integer(3), integer(10))])]),
        vec!["-7"]
    );
}

#[test]
fn arithmetic_outside_64_bits_fails() {
    assert_eq!(
        failure(&[Statement::Expression(binary(BiOperator::Add, integer(i64::MAX), integer(1)))]),
        Err(Failure::Overflow { operator: BiOperator::Add })
    );
    assert_eq!(
        failure(&[Statement::Expression(binary(BiOperator::Subtract, integer(i64::MIN), integer(1)))]),
        Err(Failure::Overflow { operator: BiOperator::Subtract })
    );
    assert_eq!(
        failure(&[Statement::Expression(binary(BiOperator::Multiply, integer(i64::MIN), integer(-1)))]),
        Err(Failure::Overflow { operator: BiOperator::Multiply })
    );
    assert_eq!(
        failure(&[Statement::Expression(binary(BiOperator::Add, integer(i64::MAX), integer(0)))]),
        Ok(())
    );
}

#[test]
fn range_needs_integer_literals() {
    let bounds = |start: PrimaryExpression, end: PrimaryExpression| {
        Statement::For(ForStatement {
            iterator_name: String::from("i"),
            range: RangeExpression { start, end },
            body: vec![call("schrijf", vec![text("x")])],
        })
    };
    let statement = bounds(
        PrimaryExpression::IntegerLiteral(0),
        PrimaryExpression::Reference(String::from("n")),
    );
    assert_eq!(failure(&[statement]), Err(Failure::InvalidEnd));
    let statement = bounds(
        PrimaryExpression::StringLiteral(String::from("0")),
        PrimaryExpression::IntegerLiteral(1),
    );
    assert_eq!(failure(&[statement]), Err(Failure::InvalidStart));
    let statement = bounds(
        PrimaryExpression::Reference(String::from("a")),
        PrimaryExpression::Reference(String::from("b")),
    );
    let mut interpreter = Interpreter::new();
    assert_eq!(interpreter.try_execute(&statement), Err(Failure::InvalidStart));
    assert!(interpreter.output().is_empty());
}

#[test]
fn endless_recursion_stops_at_the_limit() {
    let program = vec![
        Statement::Function(FunctionStatement {
            name: String::from("steeds"),
            body: vec![call("schrijf", vec![text("x")]), call("steeds", vec![])],
        }),
        call("steeds", vec![]),
    ];
    let mut interpreter = Interpreter::new();
    assert_eq!(interpreter.try_execute(&program[0]), Ok(()));
    assert_eq!(interpreter.try_execute(&program[1]), Err(Failure::CallDepthExceeded));
    assert_eq!(interpreter.output().len(), CALL_DEPTH_LIMIT);
}

#[test]
fn limit_is_what_the_caller_allows() {
    let program = vec![
        Statement::Function(FunctionStatement {
            name: String::from("binnen"),
            body: vec![call("schrijf", vec![text("binnen")])],
        }),
        Statement::Function(FunctionStatement {
            name: String::from("buiten"),
            body: vec![call("binnen", vec![])],
        }),
        call("buiten", vec![]),
    ];
    let mut interpreter = Interpreter::with_call_depth_limit(1);
    assert_eq!(interpreter.try_execute(&program[0]), Ok(()));
    assert_eq!(interpreter.try_execute(&program[1]), Ok(()));
    assert_eq!(interpreter.try_execute(&program[2]), Err(Failure::CallDepthExceeded));
    assert!(interpreter.output().is_empty());
    let mut interpreter = Interpreter::with_call_depth_limit(2);
    for statement in &program {
        assert_eq!(interpreter.try_execute(statement), Ok(()));
    }
    assert_eq!(interpreter.output(), &vec!["binnen"]);
    let declared = call("binnen", vec![]);
    let builtin = call("schrijf", vec![text("ja")]);
    let mut interpreter = Interpreter::with_call_depth_limit(0);
    assert_eq!(interpreter.try_execute(&program[0]), Ok(()));
    assert_eq!(interpreter.try_execute(&declared), Err(Failure::CallDepthExceeded));
    assert_eq!(interpreter.try_execute(&builtin), Ok(()));
    assert_eq!(interpreter.output(), &vec!["ja"]);
}

#[test]
fn failure_stops_at_the_first_fault() {
    let program = vec![repeat(
        "i",
        0,
        5,
        vec![
            call("schrijf", vec![reference("i")]),
            Statement::Expression(binary(BiOperator::Add, reference("i"), integer(i64::MAX - 1))),
        ],
    )];
    let mut interpreter = Interpreter::new();
    assert_eq!(
        interpreter.try_execute(&program[0]),
        Err(Failure::Overflow { operator: BiOperator::Add })
    );
    assert_eq!(interpreter.output(), &vec!["0", "1", "2"]);
    assert_eq!(interpreter.variable("i"), Value::Integer(2));
}

#[test]
fn statement_leaves_the_variables_as_they_were() {
    let program = vec![
        Statement::Function(FunctionStatement {
            name: String::from("lus"),
            body: vec![repeat("i", 0, 2, vec![call("schrijf", vec![reference("i"), reference("j")])])],
        }),
        repeat("j", 5, 7, vec![call("lus", vec![])]),
    ];
    let mut interpreter = Interpreter::new();
    for statement in &program {
        interpreter.execute(statement);
        assert_eq!(interpreter.variable("i"), Value::Null);
        assert_eq!(interpreter.variable("j"), Value::Null);
    }
    assert_eq!(interpreter.output(), &vec!["0 5", "1 5", "0 6", "1 6"]);
}
