//! The functions that every script can call without declaring them.

use vstd::prelude::*;

use crate::interpreter::value::{rendered, Value, ValueView};
use crate::strings::text_equal;

verus! {

/// A function of the language itself.
#[derive(Debug, Clone, Copy, PartialEq, Eq, Structural)]
pub enum Builtin {
    /// `schrijf`: writes its arguments, separated by spaces, as one line.
    Schrijf,
}

/// The texts of `values` from `from` on, with a space between two of them.
pub open spec fn joined(values: Seq<ValueView>, from: int) -> Seq<char>
    decreases values.len() - from,
{
    if from < 0 || from >= values.len() {
        Seq::empty()
    } else if from + 1 == values.len() {
        rendered(values[from])
    } else {
        rendered(values[from]) + seq![' '] + joined(values, from + 1)
    }
}

impl Builtin {
    /// The builtin function called `name`, if there is one.
    pub open spec fn named(name: Seq<char>) -> Option<Builtin> {
        if name == "schrijf"@ {
            Some(Builtin::Schrijf)
        } else {
            None
        }
    }

    /// The line that a call with `arguments` writes.
    pub open spec fn line(self, arguments: Seq<ValueView>) -> Seq<char> {
        match self {
            Builtin::Schrijf => joined(arguments, 0),
        }
    }

    /// What a call with `arguments` returns.
    pub open spec fn result(self, arguments: Seq<ValueView>) -> ValueView {
        match self {
            Builtin::Schrijf => ValueView::Null,
        }
    }

    pub fn find(name: &str) -> (builtin: Option<Builtin>)
        ensures
            builtin == Builtin::named(name@),
    {
        if text_equal(name, "schrijf") {
            Some(Builtin::Schrijf)
        } else {
            None
        }
    }

    /// Calls the function: appends the line that it writes to `output` and
    /// gives what it returns.
    pub fn call(&self, output: &mut Vec<String>, arguments: &Vec<Value>) -> (value: Value)
        ensures
            value@ == self.result(arguments@.map_values(|value: Value| value@)),
            final(output)@.map_values(|line: String| line@) == old(output)@.map_values(
                |line: String| line@,
            ).push(self.line(arguments@.map_values(|value: Value| value@))),
    {
        let ghost values = arguments@.map_values(|value: Value| value@);
        match self {
            Builtin::Schrijf => {
                let mut line = String::new();
                let count: usize = arguments.len();
                let mut index: usize = count;
                while index > 0
                    invariant
                        index <= count,
                        count == arguments@.len(),
                        values == arguments@.map_values(|value: Value| value@),
                        line@ == joined(values, index as int),
                    decreases index,
                {
                    index -= 1;
                    let mut text = arguments[index].to_text();
                    if index + 1 < count {
                        text.append(" ");
                        text.append(line.as_str());
                        proof {
                            reveal_strlit(" ");
                            assert(" "@ =~= seq![' ']);
                        }
                    }
                    line = text;
                }
                proof {
                    let before = old(output)@.map_values(|line: String| line@);
                    assert(output@.push(line).map_values(|line: String| line@) =~= before.push(
                        line@,
                    ));
                }
                output.push(line);
                Value::Null
            },
        }
    }
}

} // verus!
