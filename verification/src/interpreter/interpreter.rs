//! Executing statements: what it means, and the interpreter that does it.

use vstd::prelude::*;

use crate::interpreter::ast::{
    BiExpression, BiOperator, Expression, ForStatement, FunctionCallExpression, FunctionStatement,
    PrimaryExpression, Statement, TemplateStringExpressionPart,
};
use crate::interpreter::builtin::Builtin;
use crate::interpreter::scope::{found, Scope};
use crate::interpreter::value::{rendered, Value, ValueView};
use crate::strings::text_equal;

verus! {

/// A running script between two statements.
pub struct Script {
    /// The functions declared so far, in the order of their declaration. Of
    /// two with one name the later counts.
    pub functions: Seq<FunctionStatement>,
    /// The variables, scope by scope, the innermost first.
    pub frames: Seq<Map<Seq<char>, ValueView>>,
    /// The lines written so far.
    pub output: Seq<Seq<char>>,
}

/// Why a script cannot go on.
#[derive(Debug, PartialEq, Eq)]
pub enum Failure {
    /// An operator met operands that it has no meaning for.
    InvalidOperands { operator: BiOperator, lhs: Value, rhs: Value },
    /// The result of arithmetic on integers does not fit in 64 bits.
    Overflow { operator: BiOperator },
    /// The first bound of a range is no integer literal.
    InvalidStart,
    /// The second bound of a range is no integer literal.
    InvalidEnd,
    /// More calls of declared functions stand inside one another than the
    /// interpreter follows.
    CallDepthExceeded,
}

/// What a `Failure` is in a specification.
pub enum FailureView {
    InvalidOperands { operator: BiOperator, lhs: ValueView, rhs: ValueView },
    Overflow { operator: BiOperator },
    InvalidStart,
    InvalidEnd,
    CallDepthExceeded,
}

impl View for Failure {
    type V = FailureView;

    open spec fn view(&self) -> FailureView {
        match self {
            Failure::InvalidOperands { operator, lhs, rhs } => FailureView::InvalidOperands {
                operator: *operator,
                lhs: lhs@,
                rhs: rhs@,
            },
            Failure::Overflow { operator } => FailureView::Overflow { operator: *operator },
            Failure::InvalidStart => FailureView::InvalidStart,
            Failure::InvalidEnd => FailureView::InvalidEnd,
            Failure::CallDepthExceeded => FailureView::CallDepthExceeded,
        }
    }
}

/// How executing a part of a script ends.
pub enum Outcome<T> {
    /// It ran to its end, leaving the script in this state, with this result.
    Finished(Script, T),
    /// It stopped at the first thing that has no meaning, leaving the script
    /// in this state, for this reason.
    Failed(Script, FailureView),
}

/// The last function before `before` that is called `name`.
pub open spec fn declared(functions: Seq<FunctionStatement>, name: Seq<char>, before: int)
    -> Option<FunctionStatement>
    decreases before,
{
    if before <= 0 || before > functions.len() {
        None
    } else if functions[before - 1].name@ == name {
        Some(functions[before - 1])
    } else {
        declared(functions, name, before - 1)
    }
}

/// `value` as the result of `operator` on two integers.
pub open spec fn fitted(operator: BiOperator, value: int) -> Result<ValueView, FailureView> {
    if i64::MIN <= value <= i64::MAX {
        Ok(ValueView::Integer(value as i64))
    } else {
        Err(FailureView::Overflow { operator })
    }
}

/// `lhs operator rhs`: integers are added, subtracted and multiplied, and
/// the result must fit in 64 bits; two strings are added by joining them;
/// nothing else has a meaning.
pub open spec fn combined(operator: BiOperator, lhs: ValueView, rhs: ValueView) -> Result<
    ValueView,
    FailureView,
> {
    match (operator, lhs, rhs) {
        (BiOperator::Add, ValueView::Integer(left), ValueView::Integer(right)) => fitted(
            operator,
            left + right,
        ),
        (BiOperator::Add, ValueView::String(left), ValueView::String(right)) => Ok(
            ValueView::String(left + right),
        ),
        (BiOperator::Subtract, ValueView::Integer(left), ValueView::Integer(right)) => fitted(
            operator,
            left - right,
        ),
        (BiOperator::Multiply, ValueView::Integer(left), ValueView::Integer(right)) => fitted(
            operator,
            left * right,
        ),
        _ => Err(FailureView::InvalidOperands { operator, lhs, rhs }),
    }
}

/// The line that tells of a call to a function that does not exist.
pub open spec fn unknown_function(name: Seq<char>) -> Seq<char> {
    "Error: Unknown function "@ + name
}

/// The value of `expression` in `script`, with `depth` more calls allowed
/// inside one another.
pub open spec fn evaluated(script: Script, depth: nat, expression: Expression) -> Outcome<ValueView>
    decreases depth, 0nat, expression, 0nat,
{
    match expression {
        Expression::Function(call) => called(script, depth, call),
        Expression::BiExpression(expression) => match evaluated(script, depth, *expression.lhs) {
            Outcome::Finished(script, lhs) => match evaluated(script, depth, *expression.rhs) {
                Outcome::Finished(script, rhs) => match combined(expression.operator, lhs, rhs) {
                    Ok(value) => Outcome::Finished(script, value),
                    Err(failure) => Outcome::Failed(script, failure),
                },
                Outcome::Failed(script, failure) => Outcome::Failed(script, failure),
            },
            Outcome::Failed(script, failure) => Outcome::Failed(script, failure),
        },
        Expression::Primary(PrimaryExpression::Reference(reference)) => Outcome::Finished(
            script,
            found(script.frames, reference@),
        ),
        Expression::Primary(PrimaryExpression::IntegerLiteral(integer)) => Outcome::Finished(
            script,
            ValueView::Integer(integer),
        ),
        Expression::Primary(PrimaryExpression::StringLiteral(string)) => Outcome::Finished(
            script,
            ValueView::String(string@),
        ),
        Expression::Primary(PrimaryExpression::TemplateString { parts }) => match filled(
            script,
            depth,
            parts@,
            0,
            Seq::empty(),
        ) {
            Outcome::Finished(script, text) => Outcome::Finished(script, ValueView::String(text)),
            Outcome::Failed(script, failure) => Outcome::Failed(script, failure),
        },
    }
}

/// `text` followed by what the parts from `from` on stand for.
pub open spec fn filled(
    script: Script,
    depth: nat,
    parts: Seq<TemplateStringExpressionPart>,
    from: int,
    text: Seq<char>,
) -> Outcome<Seq<char>>
    decreases depth, 0nat, parts, parts.len() - from,
{
    if from < 0 || from >= parts.len() {
        Outcome::Finished(script, text)
    } else {
        match parts[from] {
            TemplateStringExpressionPart::String(string) => filled(
                script,
                depth,
                parts,
                from + 1,
                text + string@,
            ),
            TemplateStringExpressionPart::Expression(expression) => match evaluated(
                script,
                depth,
                expression,
            ) {
                Outcome::Finished(script, value) => filled(
                    script,
                    depth,
                    parts,
                    from + 1,
                    text + rendered(value),
                ),
                Outcome::Failed(script, failure) => Outcome::Failed(script, failure),
            },
        }
    }
}

/// `values` followed by the values of the arguments from `from` on, from
/// left to right.
pub open spec fn gathered(
    script: Script,
    depth: nat,
    arguments: Seq<Expression>,
    from: int,
    values: Seq<ValueView>,
) -> Outcome<Seq<ValueView>>
    decreases depth, 0nat, arguments, arguments.len() - from,
{
    if from < 0 || from >= arguments.len() {
        Outcome::Finished(script, values)
    } else {
        match evaluated(script, depth, arguments[from]) {
            Outcome::Finished(script, value) => gathered(
                script,
                depth,
                arguments,
                from + 1,
                values.push(value),
            ),
            Outcome::Failed(script, failure) => Outcome::Failed(script, failure),
        }
    }
}

/// The call `call`: its arguments are evaluated; then the body of the
/// function of that name runs, in the variables of the caller, and the
/// result is `Null`. Where no such function is declared, the builtin function
/// of that name is called. Where there is none either, a line says so, and
/// the result is `Null`.
pub open spec fn called(script: Script, depth: nat, call: FunctionCallExpression) -> Outcome<
    ValueView,
>
    decreases depth, 0nat, call, 0nat,
{
    match gathered(script, depth, call.arguments@, 0, Seq::empty()) {
        Outcome::Finished(script, values) => match declared(
            script.functions,
            call.function_identifier@,
            script.functions.len() as int,
        ) {
            Some(function) => if depth == 0 {
                Outcome::Failed(script, FailureView::CallDepthExceeded)
            } else {
                match executed_all(script, (depth - 1) as nat, function.body@, 0) {
                    Outcome::Finished(script, _) => Outcome::Finished(script, ValueView::Null),
                    Outcome::Failed(script, failure) => Outcome::Failed(script, failure),
                }
            },
            None => match Builtin::named(call.function_identifier@) {
                Some(builtin) => Outcome::Finished(
                    Script { output: script.output.push(builtin.line(values)), ..script },
                    builtin.result(values),
                ),
                None => Outcome::Finished(
                    Script {
                        output: script.output.push(unknown_function(call.function_identifier@)),
                        ..script
                    },
                    ValueView::Null,
                ),
            },
        },
        Outcome::Failed(script, failure) => Outcome::Failed(script, failure),
    }
}

/// The script after `statement`. An expression is evaluated; a function is
/// declared; a loop runs its body in a scope of its own, which is left
/// again afterwards.
pub open spec fn executed(script: Script, depth: nat, statement: Statement) -> Outcome<()>
    decreases depth, 1nat, statement, 0nat,
{
    match statement {
        Statement::Expression(expression) => match evaluated(script, depth, expression) {
            Outcome::Finished(script, _) => Outcome::Finished(script, ()),
            Outcome::Failed(script, failure) => Outcome::Failed(script, failure),
        },
        Statement::For(statement) => match (statement.range.start, statement.range.end) {
            (
                PrimaryExpression::IntegerLiteral(start),
                PrimaryExpression::IntegerLiteral(end),
            ) => match repeated(
                Script {
                    frames: seq![Map::<Seq<char>, ValueView>::empty()] + script.frames,
                    ..script
                },
                depth,
                statement,
                start as int,
                end as int,
            ) {
                Outcome::Finished(script, _) => Outcome::Finished(
                    Script { frames: script.frames.skip(1), ..script },
                    (),
                ),
                Outcome::Failed(script, failure) => Outcome::Failed(script, failure),
            },
            (PrimaryExpression::IntegerLiteral(_), _) => Outcome::Failed(
                script,
                FailureView::InvalidEnd,
            ),
            _ => Outcome::Failed(script, FailureView::InvalidStart),
        },
        Statement::Function(function) => Outcome::Finished(
            Script { functions: script.functions.push(function), ..script },
            (),
        ),
    }
}

/// The script after the body of `statement` has run once for each integer
/// from `current` up to, not including, `end`, each time with the loop's
/// variable set to that integer in the innermost scope.
pub open spec fn repeated(
    script: Script,
    depth: nat,
    statement: ForStatement,
    current: int,
    end: int,
) -> Outcome<()>
    decreases depth, 1nat, statement, end - current,
{
    if current >= end {
        Outcome::Finished(script, ())
    } else {
        let bound = Script {
            frames: script.frames.update(
                0,
                script.frames[0].insert(
                    statement.iterator_name@,
                    ValueView::Integer(current as i64),
                ),
            ),
            ..script
        };
        match executed_all(bound, depth, statement.body@, 0) {
            Outcome::Finished(script, _) => repeated(script, depth, statement, current + 1, end),
            Outcome::Failed(script, failure) => Outcome::Failed(script, failure),
        }
    }
}

/// The script after the statements from `from` on, in their order.
pub open spec fn executed_all(script: Script, depth: nat, statements: Seq<Statement>, from: int)
    -> Outcome<()>
    decreases depth, 1nat, statements, statements.len() - from,
{
    if from < 0 || from >= statements.len() {
        Outcome::Finished(script, ())
    } else {
        match executed(script, depth, statements[from]) {
            Outcome::Finished(script, _) => executed_all(script, depth, statements, from + 1),
            Outcome::Failed(script, failure) => Outcome::Failed(script, failure),
        }
    }
}

/// Evaluating an expression leaves every variable as it was.
proof fn lemma_evaluated_keeps_variables(script: Script, depth: nat, expression: Expression)
    ensures
        evaluated(script, depth, expression) matches Outcome::Finished(after, _) ==> after.frames
            == script.frames,
    decreases depth, 0nat, expression, 0nat,
{
    match expression {
        Expression::Function(call) => {
            lemma_called_keeps_variables(script, depth, call);
        },
        Expression::BiExpression(expression) => {
            lemma_evaluated_keeps_variables(script, depth, *expression.lhs);
            if let Outcome::Finished(script, _) = evaluated(script, depth, *expression.lhs) {
                lemma_evaluated_keeps_variables(script, depth, *expression.rhs);
            }
        },
        Expression::Primary(PrimaryExpression::TemplateString { parts }) => {
            lemma_filled_keeps_variables(script, depth, parts@, 0, Seq::empty());
        },
        _ => {},
    }
}

proof fn lemma_filled_keeps_variables(
    script: Script,
    depth: nat,
    parts: Seq<TemplateStringExpressionPart>,
    from: int,
    text: Seq<char>,
)
    ensures
        filled(script, depth, parts, from, text) matches Outcome::Finished(after, _)
            ==> after.frames == script.frames,
    decreases depth, 0nat, parts, parts.len() - from,
{
    if 0 <= from < parts.len() {
        match parts[from] {
            TemplateStringExpressionPart::String(string) => {
                lemma_filled_keeps_variables(script, depth, parts, from + 1, text + string@);
            },
            TemplateStringExpressionPart::Expression(expression) => {
                lemma_evaluated_keeps_variables(script, depth, expression);
                if let Outcome::Finished(script, value) = evaluated(script, depth, expression) {
                    lemma_filled_keeps_variables(
                        script,
                        depth,
                        parts,
                        from + 1,
                        text + rendered(value),
                    );
                }
            },
        }
    }
}

proof fn lemma_gathered_keeps_variables(
    script: Script,
    depth: nat,
    arguments: Seq<Expression>,
    from: int,
    values: Seq<ValueView>,
)
    ensures
        gathered(script, depth, arguments, from, values) matches Outcome::Finished(after, _)
            ==> after.frames == script.frames,
    decreases depth, 0nat, arguments, arguments.len() - from,
{
    if 0 <= from < arguments.len() {
        lemma_evaluated_keeps_variables(script, depth, arguments[from]);
        if let Outcome::Finished(script, value) = evaluated(script, depth, arguments[from]) {
            lemma_gathered_keeps_variables(script, depth, arguments, from + 1, values.push(value));
        }
    }
}

proof fn lemma_called_keeps_variables(script: Script, depth: nat, call: FunctionCallExpression)
    ensures
        called(script, depth, call) matches Outcome::Finished(after, _) ==> after.frames
            == script.frames,
    decreases depth, 0nat, call, 0nat,
{
    lemma_gathered_keeps_variables(script, depth, call.arguments@, 0, Seq::empty());
    if let Outcome::Finished(script, _) = gathered(
        script,
        depth,
        call.arguments@,
        0,
        Seq::empty(),
    ) {
        if let Some(function) = declared(
            script.functions,
            call.function_identifier@,
            script.functions.len() as int,
        ) {
            if depth > 0 {
                lemma_executed_all_keeps_variables(script, (depth - 1) as nat, function.body@, 0);
            }
        }
    }
}

/// A statement that is executed to its end leaves every variable as it was:
/// the scopes are those that it found, and each binds what it bound. What a
/// loop sets, it sets in a scope of its own, which is gone when the loop is
/// done.
pub proof fn theorem_statement_keeps_variables(script: Script, depth: nat, statement: Statement)
    ensures
        executed(script, depth, statement) matches Outcome::Finished(after, _) ==> after.frames
            == script.frames,
    decreases depth, 1nat, statement, 0nat,
{
    match statement {
        Statement::Expression(expression) => {
            lemma_evaluated_keeps_variables(script, depth, expression);
        },
        Statement::For(statement) => {
            if let (
                PrimaryExpression::IntegerLiteral(start),
                PrimaryExpression::IntegerLiteral(end),
            ) = (statement.range.start, statement.range.end) {
                let entered = Script {
                    frames: seq![Map::<Seq<char>, ValueView>::empty()] + script.frames,
                    ..script
                };
                lemma_repeated_keeps_variables(entered, depth, statement, start as int, end as int);
                assert(entered.frames.skip(1) =~= script.frames);
            }
        },
        Statement::Function(_) => {},
    }
}

/// A loop changes the innermost scope only.
proof fn lemma_repeated_keeps_variables(
    script: Script,
    depth: nat,
    statement: ForStatement,
    current: int,
    end: int,
)
    requires
        script.frames.len() > 0,
    ensures
        repeated(script, depth, statement, current, end) matches Outcome::Finished(after, _)
            ==> after.frames.len() == script.frames.len() && after.frames.skip(1)
            == script.frames.skip(1),
    decreases depth, 1nat, statement, end - current,
{
    if current < end {
        let bound = Script {
            frames: script.frames.update(
                0,
                script.frames[0].insert(
                    statement.iterator_name@,
                    ValueView::Integer(current as i64),
                ),
            ),
            ..script
        };
        assert(bound.frames.skip(1) =~= script.frames.skip(1));
        lemma_executed_all_keeps_variables(bound, depth, statement.body@, 0);
        if let Outcome::Finished(script, _) = executed_all(bound, depth, statement.body@, 0) {
            lemma_repeated_keeps_variables(script, depth, statement, current + 1, end);
        }
    }
}

proof fn lemma_executed_all_keeps_variables(
    script: Script,
    depth: nat,
    statements: Seq<Statement>,
    from: int,
)
    ensures
        executed_all(script, depth, statements, from) matches Outcome::Finished(after, _)
            ==> after.frames == script.frames,
    decreases depth, 1nat, statements, statements.len() - from,
{
    if 0 <= from < statements.len() {
        theorem_statement_keeps_variables(script, depth, statements[from]);
        if let Outcome::Finished(script, _) = executed(script, depth, statements[from]) {
            lemma_executed_all_keeps_variables(script, depth, statements, from + 1);
        }
    }
}

/// How many calls of declared functions an interpreter follows inside one
/// another unless it is told otherwise.
pub const CALL_DEPTH_LIMIT: usize = 512;

/// Whether `result`, with the interpreter left as `script`, is what `outcome`
/// says.
pub open spec fn reflects<T>(result: Result<T, FailureView>, script: Script, outcome: Outcome<T>)
    -> bool {
    match result {
        Ok(value) => outcome == Outcome::Finished(script, value),
        Err(failure) => outcome == Outcome::<T>::Failed(script, failure),
    }
}

/// `result` with value and failure taken by their views.
pub open spec fn viewed(result: Result<Value, Failure>) -> Result<ValueView, FailureView> {
    match result {
        Ok(value) => Ok(value@),
        Err(failure) => Err(failure@),
    }
}

/// `result` with the failure taken by its view.
pub open spec fn viewed_failure<T>(result: Result<T, Failure>) -> Result<T, FailureView> {
    match result {
        Ok(value) => Ok(value),
        Err(failure) => Err(failure@),
    }
}

/// The interpreter: the state of a running script, and the means to run
/// statements in it. What a script writes is kept, line by line, for the
/// caller to show.
pub struct Interpreter<'source_code> {
    functions: Vec<&'source_code FunctionStatement>,
    scope: Scope,
    output: Vec<String>,
    call_depth: usize,
}

impl<'source_code> View for Interpreter<'source_code> {
    type V = Script;

    closed spec fn view(&self) -> Script {
        Script {
            functions: self.functions@.map_values(|function: &FunctionStatement| *function),
            frames: self.scope@,
            output: self.output@.map_values(|line: String| line@),
        }
    }
}

/// A scope has a frame, and one with a scope around it has a parent.
proof fn lemma_scope_has_parent(scope: Scope)
    ensures
        scope@.len() >= 1,
        scope@.len() >= 2 <==> scope.parent is Some,
{
    if let Some(parent) = scope.parent {
        lemma_scope_has_frame(*parent);
    }
}

/// A scope has a frame.
proof fn lemma_scope_has_frame(scope: Scope)
    ensures
        scope@.len() >= 1,
{
}

/// Whether `operator` has a meaning on `lhs` and `rhs`, and why not where it
/// has none.
fn check_operands(operator: BiOperator, lhs: &Value, rhs: &Value) -> (result: Result<(), Failure>)
    ensures
        match result {
            Ok(_) => combined(operator, lhs@, rhs@) is Ok,
            Err(failure) => combined(operator, lhs@, rhs@) == Err::<ValueView, FailureView>(
                failure@,
            ),
        },
{
    match (lhs, rhs) {
        (Value::Integer(left), Value::Integer(right)) => {
            let fits: bool = match operator {
                BiOperator::Add => left.checked_add(*right).is_some(),
                BiOperator::Subtract => left.checked_sub(*right).is_some(),
                BiOperator::Multiply => left.checked_mul(*right).is_some(),
            };
            if fits {
                Ok(())
            } else {
                Err(Failure::Overflow { operator })
            }
        },
        (Value::String(_), Value::String(_)) => match operator {
            BiOperator::Add => Ok(()),
            _ => Err(Failure::InvalidOperands { operator, lhs: lhs.clone(), rhs: rhs.clone() }),
        },
        _ => Err(Failure::InvalidOperands { operator, lhs: lhs.clone(), rhs: rhs.clone() }),
    }
}

impl<'source_code> Interpreter<'source_code> {
    /// How many more calls of declared functions may stand inside one another.
    pub closed spec fn depth(&self) -> nat {
        self.call_depth as nat
    }

    /// An interpreter in which nothing is declared, set or written yet. It
    /// follows `CALL_DEPTH_LIMIT` calls inside one another.
    pub fn new() -> (interpreter: Self)
        ensures
            interpreter@ == (Script {
                functions: Seq::empty(),
                frames: seq![Map::<Seq<char>, ValueView>::empty()],
                output: Seq::empty(),
            }),
            interpreter.depth() == CALL_DEPTH_LIMIT,
    {
        Interpreter::with_call_depth_limit(CALL_DEPTH_LIMIT)
    }

    /// An interpreter in which nothing is declared, set or written yet, and
    /// which follows `limit` calls of declared functions inside one another:
    /// as many as the caller knows the stack to hold.
    pub fn with_call_depth_limit(limit: usize) -> (interpreter: Self)
        ensures
            interpreter@ == (Script {
                functions: Seq::empty(),
                frames: seq![Map::<Seq<char>, ValueView>::empty()],
                output: Seq::empty(),
            }),
            interpreter.depth() == limit,
    {
        let interpreter = Interpreter {
            functions: Vec::new(),
            scope: Scope::new(),
            output: Vec::new(),
            call_depth: limit,
        };
        assert(interpreter@.functions =~= Seq::empty());
        assert(interpreter@.output =~= Seq::empty());
        interpreter
    }

    /// The lines written so far.
    pub fn output(&self) -> (output: &Vec<String>)
        ensures
            output@.map_values(|line: String| line@) == self@.output,
    {
        &self.output
    }

    /// The value of the variable `name` where the script stands.
    pub fn variable(&self, name: &str) -> (value: Value)
        ensures
            value@ == found(self@.frames, name@),
    {
        self.scope.find(name)
    }

    /// Executes `statement`, which must be one that can be executed to its
    /// end.
    pub fn execute(&mut self, statement: &'source_code Statement)
        requires
            executed(old(self)@, old(self).depth(), *statement) is Finished,
        ensures
            executed(old(self)@, old(self).depth(), *statement) == Outcome::Finished(
                final(self)@,
                (),
            ),
            final(self)@.frames == old(self)@.frames,
            final(self).depth() == old(self).depth(),
    {
        let _ = self.try_execute(statement);
    }

    /// Executes `statement` as far as it has a meaning, and says why it
    /// stopped if it did: the interpreter is then left as it was at that
    /// point.
    pub fn try_execute(&mut self, statement: &'source_code Statement) -> (result: Result<
        (),
        Failure,
    >)
        ensures
            reflects(
                viewed_failure(result),
                final(self)@,
                executed(old(self)@, old(self).depth(), *statement),
            ),
            result is Ok ==> final(self)@.frames == old(self)@.frames,
            final(self).depth() == old(self).depth(),
        decreases old(self).depth(), 1nat, statement, 0nat,
    {
        proof {
            theorem_statement_keeps_variables(self@, self.depth(), *statement);
        }
        match statement {
            Statement::Expression(expression) => {
                match self.execute_expression(expression) {
                    Ok(_) => Ok(()),
                    Err(failure) => Err(failure),
                }
            },
            Statement::For(statement) => {
                match &statement.range.start {
                    PrimaryExpression::IntegerLiteral(_) => {},
                    _ => {
                        return Err(Failure::InvalidStart);
                    },
                }
                match &statement.range.end {
                    PrimaryExpression::IntegerLiteral(_) => {},
                    _ => {
                        return Err(Failure::InvalidEnd);
                    },
                }
                match self.execute_for_statement(statement) {
                    Ok(_) => Ok(()),
                    Err(failure) => Err(failure),
                }
            },
            Statement::Function(func) => {
                proof {
                    assert(self.functions@.push(func).map_values(
                        |function: &FunctionStatement| *function,
                    ) =~= self@.functions.push(*func));
                }
                self.functions.push(func);
                Ok(())
            },
        }
    }

    /// Executes `statements` in their order.
    fn execute_all(&mut self, statements: &'source_code Vec<Statement>) -> (result: Result<
        (),
        Failure,
    >)
        ensures
            reflects(
                viewed_failure(result),
                final(self)@,
                executed_all(old(self)@, old(self).depth(), statements@, 0),
            ),
            final(self).depth() == old(self).depth(),
        decreases old(self).depth(), 1nat, statements@, statements@.len() + 1,
    {
        let count: usize = statements.len();
        let mut index: usize = 0;
        while index < count
            invariant
                index <= count,
                count == statements@.len(),
                self.call_depth == old(self).call_depth,
                executed_all(self@, self.depth(), statements@, index as int) == executed_all(
                    old(self)@,
                    old(self).depth(),
                    statements@,
                    0,
                ),
            decreases count - index,
        {
            if let Err(failure) = self.try_execute(&statements[index]) {
                return Err(failure);
            }
            index += 1;
        }
        Ok(())
    }

    fn execute_expression(&mut self, expression: &'source_code Expression) -> (result: Result<
        Value,
        Failure,
    >)
        ensures
            reflects(
                viewed(result),
                final(self)@,
                evaluated(old(self)@, old(self).depth(), *expression),
            ),
            final(self).depth() == old(self).depth(),
        decreases old(self).depth(), 0nat, expression, 0nat,
    {
        match expression {
            Expression::Function(func) => self.execute_function_call(func),
            Expression::BiExpression(expr) => self.execute_bi_expression(expr),
            Expression::Primary(PrimaryExpression::Reference(reference)) => {
                Ok(self.scope.find(reference.as_str()))
            },
            Expression::Primary(PrimaryExpression::IntegerLiteral(integer)) => {
                Ok(Value::Integer(*integer))
            },
            Expression::Primary(PrimaryExpression::StringLiteral(str)) => {
                Ok(Value::String(str.clone()))
            },
            Expression::Primary(PrimaryExpression::TemplateString { parts }) => {
                match self.execute_template_string(parts) {
                    Ok(string) => Ok(Value::String(string)),
                    Err(failure) => Err(failure),
                }
            },
        }
    }

    /// The text of a template string: its parts one after the other, each
    /// expression replaced by the text of its value.
    fn execute_template_string(
        &mut self,
        parts: &'source_code Vec<TemplateStringExpressionPart>,
    ) -> (result: Result<String, Failure>)
        ensures
            match result {
                Ok(string) => filled(old(self)@, old(self).depth(), parts@, 0, Seq::empty())
                    == Outcome::Finished(final(self)@, string@),
                Err(failure) => filled(old(self)@, old(self).depth(), parts@, 0, Seq::empty())
                    == Outcome::<Seq<char>>::Failed(final(self)@, failure@),
            },
            final(self).depth() == old(self).depth(),
        decreases old(self).depth(), 0nat, parts@, parts@.len() + 1,
    {
        let mut string = String::new();
        let count: usize = parts.len();
        let mut index: usize = 0;
        while index < count
            invariant
                index <= count,
                count == parts@.len(),
                self.call_depth == old(self).call_depth,
                filled(self@, self.depth(), parts@, index as int, string@) == filled(
                    old(self)@,
                    old(self).depth(),
                    parts@,
                    0,
                    Seq::empty(),
                ),
            decreases count - index,
        {
            match &parts[index] {
                TemplateStringExpressionPart::String(str) => {
                    string.append(str.as_str());
                },
                TemplateStringExpressionPart::Expression(expression) => {
                    match self.execute_expression(expression) {
                        Ok(value) => {
                            string.append(value.to_text().as_str());
                        },
                        Err(failure) => {
                            return Err(failure);
                        },
                    }
                },
            }
            index += 1;
        }
        Ok(string)
    }

    /// Runs the loop `statement`, whose bounds are integer literals.
    fn execute_for_statement(&mut self, statement: &'source_code ForStatement) -> (result: Result<
        Value,
        Failure,
    >)
        requires
            statement.range.start is IntegerLiteral,
            statement.range.end is IntegerLiteral,
        ensures
            reflects(
                match result {
                    Ok(_) => Ok(()),
                    Err(failure) => Err(failure@),
                },
                final(self)@,
                executed(old(self)@, old(self).depth(), Statement::For(*statement)),
            ),
            result matches Ok(value) ==> value == Value::Null,
            final(self).depth() == old(self).depth(),
        decreases old(self).depth(), 1nat, statement, i64::MAX - i64::MIN + 1,
    {
        let start: i64 = match &statement.range.start {
            PrimaryExpression::IntegerLiteral(start) => *start,
            _ => vstd::pervasive::unreached(),
        };
        let end: i64 = match &statement.range.end {
            PrimaryExpression::IntegerLiteral(end) => *end,
            _ => vstd::pervasive::unreached(),
        };
        let mut scope = Scope::new();
        std::mem::swap(&mut self.scope, &mut scope);
        self.scope = scope.push();
        let ghost entered = self@;
        assert(entered.frames == seq![Map::<Seq<char>, ValueView>::empty()] + old(self)@.frames);
        let mut x: i64 = start;
        while x < end
            invariant
                statement.range.start == PrimaryExpression::IntegerLiteral(start),
                statement.range.end == PrimaryExpression::IntegerLiteral(end),
                entered == (Script {
                    frames: seq![Map::<Seq<char>, ValueView>::empty()] + old(self)@.frames,
                    ..old(self)@
                }),
                start <= x || x == start,
                x <= end || x == start,
                self.call_depth == old(self).call_depth,
                self@.frames.len() == entered.frames.len(),
                repeated(self@, self.depth(), *statement, x as int, end as int) == repeated(
                    entered,
                    old(self).depth(),
                    *statement,
                    start as int,
                    end as int,
                ),
            decreases end - x,
        {
            proof {
                lemma_scope_has_parent(self.scope);
            }
            let ghost before = self@;
            self.scope.set(statement.iterator_name.as_str(), Value::Integer(x));
            proof {
                lemma_executed_all_keeps_variables(self@, self.depth(), statement.body@, 0);
            }
            if let Err(failure) = self.execute_all(&statement.body) {
                assert(repeated(before, self.depth(), *statement, x as int, end as int)
                    == Outcome::<()>::Failed(self@, failure@));
                return Err(failure);
            }
            x += 1;
        }
        proof {
            lemma_scope_has_parent(self.scope);
        }
        let mut scope = Scope::new();
        std::mem::swap(&mut self.scope, &mut scope);
        self.scope = scope.pop();
        Ok(Value::Null)
    }

    fn execute_bi_expression(&mut self, expression: &'source_code BiExpression) -> (result: Result<
        Value,
        Failure,
    >)
        ensures
            reflects(
                viewed(result),
                final(self)@,
                evaluated(old(self)@, old(self).depth(), Expression::BiExpression(*expression)),
            ),
            final(self).depth() == old(self).depth(),
        decreases old(self).depth(), 0nat, expression, 0nat,
    {
        let lhs = match self.execute_expression(&expression.lhs) {
            Ok(lhs) => lhs,
            Err(failure) => {
                return Err(failure);
            },
        };
        let rhs = match self.execute_expression(&expression.rhs) {
            Ok(rhs) => rhs,
            Err(failure) => {
                return Err(failure);
            },
        };
        if let Err(failure) = check_operands(expression.operator, &lhs, &rhs) {
            return Err(failure);
        }
        Ok(
            match expression.operator {
                BiOperator::Add => self.execute_expression_add(lhs, rhs),
                BiOperator::Subtract => self.execute_expression_subtract(lhs, rhs),
                BiOperator::Multiply => self.execute_expression_multiply(lhs, rhs),
            },
        )
    }

    /// The sum of two integers, or two strings joined.
    fn execute_expression_add(&mut self, lhs: Value, rhs: Value) -> (value: Value)
        requires
            combined(BiOperator::Add, lhs@, rhs@) is Ok,
        ensures
            combined(BiOperator::Add, lhs@, rhs@) == Ok::<ValueView, FailureView>(value@),
            *final(self) == *old(self),
    {
        match (lhs, rhs) {
            (Value::Integer(lhs), Value::Integer(rhs)) => Value::Integer(lhs + rhs),
            (Value::String(lhs), Value::String(rhs)) => Value::String(lhs.concat(rhs.as_str())),
            _ => vstd::pervasive::unreached(),
        }
    }

    /// The difference of two integers.
    fn execute_expression_subtract(&mut self, lhs: Value, rhs: Value) -> (value: Value)
        requires
            combined(BiOperator::Subtract, lhs@, rhs@) is Ok,
        ensures
            combined(BiOperator::Subtract, lhs@, rhs@) == Ok::<ValueView, FailureView>(value@),
            *final(self) == *old(self),
    {
        match (lhs, rhs) {
            (Value::Integer(lhs), Value::Integer(rhs)) => Value::Integer(lhs - rhs),
            _ => vstd::pervasive::unreached(),
        }
    }

    /// The product of two integers.
    fn execute_expression_multiply(&mut self, lhs: Value, rhs: Value) -> (value: Value)
        requires
            combined(BiOperator::Multiply, lhs@, rhs@) is Ok,
        ensures
            combined(BiOperator::Multiply, lhs@, rhs@) == Ok::<ValueView, FailureView>(value@),
            *final(self) == *old(self),
    {
        match (lhs, rhs) {
            (Value::Integer(lhs), Value::Integer(rhs)) => Value::Integer(lhs * rhs),
            _ => vstd::pervasive::unreached(),
        }
    }

    fn execute_function_call(&mut self, func: &'source_code FunctionCallExpression) -> (result:
        Result<Value, Failure>)
        ensures
            reflects(
                viewed(result),
                final(self)@,
                called(old(self)@, old(self).depth(), *func),
            ),
            final(self).depth() == old(self).depth(),
        decreases old(self).depth(), 0nat, func, 0nat,
    {
        let mut arguments: Vec<Value> = Vec::with_capacity(func.arguments.len());
        let count: usize = func.arguments.len();
        let mut index: usize = 0;
        assert(arguments@.map_values(|value: Value| value@) =~= Seq::empty());
        while index < count
            invariant
                index <= count,
                count == func.arguments@.len(),
                self.call_depth == old(self).call_depth,
                gathered(
                    self@,
                    self.depth(),
                    func.arguments@,
                    index as int,
                    arguments@.map_values(|value: Value| value@),
                ) == gathered(old(self)@, old(self).depth(), func.arguments@, 0, Seq::empty()),
            decreases count - index,
        {
            let value = match self.execute_expression(&func.arguments[index]) {
                Ok(value) => value,
                Err(failure) => {
                    return Err(failure);
                },
            };
            proof {
                assert(arguments@.push(value).map_values(|value: Value| value@)
                    =~= arguments@.map_values(|value: Value| value@).push(value@));
            }
            arguments.push(value);
            index += 1;
        }
        let name: &str = func.function_identifier.as_str();
        let mut before: usize = self.functions.len();
        while before > 0 && !text_equal(self.functions[before - 1].name.as_str(), name)
            invariant
                before <= self.functions@.len(),
                declared(self@.functions, name@, before as int) == declared(
                    self@.functions,
                    name@,
                    self@.functions.len() as int,
                ),
            decreases before,
        {
            before -= 1;
        }
        if before > 0 {
            let function: &'source_code FunctionStatement = self.functions[before - 1];
            if self.call_depth == 0 {
                return Err(Failure::CallDepthExceeded);
            }
            self.call_depth -= 1;
            let result = self.execute_all(&function.body);
            self.call_depth += 1;
            return match result {
                Ok(_) => Ok(Value::Null),
                Err(failure) => Err(failure),
            };
        }
        if let Some(builtin) = Builtin::find(name) {
            return Ok(builtin.call(&mut self.output, &arguments));
        }
        let mut line = String::from_str("Error: Unknown function ");
        line.append(name);
        proof {
            assert(self.output@.push(line).map_values(|line: String| line@)
                =~= self.output@.map_values(|line: String| line@).push(line@));
        }
        self.output.push(line);
        Ok(Value::Null)
    }
}

impl<'source_code> Default for Interpreter<'source_code> {
    fn default() -> (interpreter: Self)
        ensures
            interpreter@ == (Script {
                functions: Seq::empty(),
                frames: seq![Map::<Seq<char>, ValueView>::empty()],
                output: Seq::empty(),
            }),
            interpreter.depth() == CALL_DEPTH_LIMIT,
    {
        Interpreter::new()
    }
}

} // verus!
