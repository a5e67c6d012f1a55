//! What a rule says about its variables, found without any data: the
//! names it reads, and the values it compares them with.

use crate::expression::{Expr, Expression};
use crate::operators::Operator;
use crate::text::{same_text, texts_of};
use crate::value::{array_view, jsons_of, Json, Value};
use vstd::prelude::*;

verus! {

/// A list with `x` in it: the list itself where it holds `x` already,
/// else the list with `x` at its end.
pub open spec fn adjoin<T>(list: Seq<T>, x: T) -> Seq<T> {
    if list.contains(x) {
        list
    } else {
        list.push(x)
    }
}

/// The message for a `var` that names no variable at all.
pub open spec fn without_arguments() -> Seq<char> {
    "found Variable operator without arguments"@
}

/// The message for a `var` whose name is a constant but no string.
pub open spec fn non_string() -> Seq<char> {
    "found Variable operator with non string argument"@
}

/// The message for a `var` whose name is computed.
pub open spec fn non_static() -> Seq<char> {
    "found Variable operator with non static argument"@
}

/// The message for a comparison without operands.
pub open spec fn without_value() -> Seq<char> {
    "Found variable operator without value"@
}

/// The name that a `var` with these arguments reads, or why there is
/// none to report: the first argument has to be a constant string.
pub open spec fn name_read(args: Seq<Expr>) -> Result<Seq<char>, Seq<char>> {
    if args.len() == 0 {
        Err(without_arguments())
    } else {
        match args[0] {
            Expr::Constant(Json::String(name)) => Ok(name),
            Expr::Constant(_) => Err(non_string()),
            Expr::Computed(_, _) => Err(non_static()),
        }
    }
}

/// The names in `found`, and after them those that the rule `e` reads
/// and `found` does not hold yet, in the order of the rule. The rule is
/// read from left to right: of a `var` first its name, then what its
/// further arguments read. The first `var` without a name to report ends
/// the reading with its message.
pub open spec fn names_from(e: Expr, found: Seq<Seq<char>>) -> Result<Seq<Seq<char>>, Seq<char>>
    decreases e, 0int,
{
    match e {
        Expr::Constant(_) => Ok(found),
        Expr::Computed(op, args) => if op == Operator::Variable {
            match name_read(args) {
                Ok(name) => names_through(args, 1, args.len() as int, adjoin(found, name)),
                Err(msg) => Err(msg),
            }
        } else {
            names_through(args, 0, args.len() as int, found)
        },
    }
}

/// As `names_from`, for the rules `args` from position `from` up to
/// position `n` in turn.
pub open spec fn names_through(args: Seq<Expr>, from: int, n: int, found: Seq<Seq<char>>) -> Result<
    Seq<Seq<char>>,
    Seq<char>,
>
    decreases args, n,
{
    if n <= from || from < 0 || n > args.len() {
        Ok(found)
    } else {
        match names_through(args, from, n - 1, found) {
            Ok(so_far) => names_from(args[n - 1], so_far),
            Err(msg) => Err(msg),
        }
    }
}

/// The names of the variables that the rule `e` reads, each once, in the
/// order in which the rule first reads them.
pub open spec fn variable_names(e: Expr) -> Result<Seq<Seq<char>>, Seq<char>> {
    names_from(e, Seq::<Seq<char>>::empty())
}

/// Whether the operator compares: with a variable as its first argument,
/// its last argument is what the variable is held against.
pub open spec fn compares(op: Operator) -> bool {
    match op {
        Operator::Equal
        | Operator::StrictEqual
        | Operator::Negation
        | Operator::DoubleNegation
        | Operator::In
        | Operator::NotEqual
        | Operator::LessEqualThan
        | Operator::LessThan
        | Operator::GreaterEqualThan
        | Operator::GreaterThan
        | Operator::JuspayVerEq
        | Operator::JuspayVerGt
        | Operator::JuspayVerLt
        | Operator::JuspayVerGtEq
        | Operator::JuspayVerLtEq => true,
        _ => false,
    }
}

/// How an operator is called in reports.
pub open spec fn name_of(op: Operator) -> Seq<char> {
    match op {
        Operator::Equal => "Equal"@,
        Operator::StrictEqual => "StrictEqual"@,
        Operator::NotEqual => "NotEqual"@,
        Operator::StrictNotEqual => "StrictNotEqual"@,
        Operator::Variable => "Variable"@,
        Operator::Negation => "Negation"@,
        Operator::DoubleNegation => "DoubleNegation"@,
        Operator::If => "If"@,
        Operator::Or => "Or"@,
        Operator::And => "And"@,
        Operator::LessThan => "LessThan"@,
        Operator::LessEqualThan => "LessEqualThan"@,
        Operator::GreaterThan => "GreaterThan"@,
        Operator::GreaterEqualThan => "GreaterEqualThan"@,
        Operator::Addition => "Addition"@,
        Operator::Subtraction => "Subtraction"@,
        Operator::Multiplication => "Multiplication"@,
        Operator::Division => "Division"@,
        Operator::Modulo => "Modulo"@,
        Operator::MapEach => "Map"@,
        Operator::Filter => "Filter"@,
        Operator::Reduce => "Reduce"@,
        Operator::All => "All"@,
        Operator::SomeOf => "Some"@,
        Operator::NoneOf => "None"@,
        Operator::Merge => "Merge"@,
        Operator::In => "In"@,
        Operator::Cat => "Cat"@,
        Operator::Log => "Log"@,
        Operator::JuspayVerEq => "JuspayVerEq"@,
        Operator::JuspayVerGt => "JuspayVerGt"@,
        Operator::JuspayVerLt => "JuspayVerLt"@,
        Operator::JuspayVerGtEq => "JuspayVerGtEq"@,
        Operator::JuspayVerLtEq => "JuspayVerLtEq"@,
        Operator::RegexMatch => "RegexMatch"@,
    }
}

/// A variable, the operator that compares it, and the value it is
/// compared with.
pub type Triple = (Seq<char>, Seq<char>, Json);

/// What the reading of a rule gives: the value that the rule stands for
/// in a comparison, and the comparisons found.
pub type Reading = Result<(Json, Seq<Triple>), Seq<char>>;

/// The comparisons in `found`, and after them those that the rule `e`
/// makes and `found` does not hold yet, with the value that `e` stands
/// for: a constant stands for itself, a comparison for its last
/// argument, and any other operator for the array of what its arguments
/// stand for. A comparison whose first argument is a `var` is reported
/// with the name that the `var` reads.
pub open spec fn compared_from(e: Expr, found: Seq<Triple>) -> Reading
    decreases e, 0int,
{
    match e {
        Expr::Constant(v) => Ok((v, found)),
        Expr::Computed(op, args) => if compares(op) {
            if args.len() == 0 {
                Err(without_value())
            } else {
                match compared_from(args.last(), found) {
                    Err(msg) => Err(msg),
                    Ok((present, so_far)) => match args[0] {
                        Expr::Computed(Operator::Variable, inner) => match name_read(inner) {
                            Ok(name) => Ok(
                                (present, adjoin(so_far, (name, name_of(op), present))),
                            ),
                            Err(msg) => Err(msg),
                        },
                        _ => Ok((present, so_far)),
                    },
                }
            }
        } else {
            match compared_through(args, args.len() as int, found) {
                Ok((values, so_far)) => Ok((Json::Array(values), so_far)),
                Err(msg) => Err(msg),
            }
        },
    }
}

/// As `compared_from`, for the first `n` of the rules `args` in turn,
/// with the values that they stand for.
pub open spec fn compared_through(args: Seq<Expr>, n: int, found: Seq<Triple>) -> Result<
    (Seq<Json>, Seq<Triple>),
    Seq<char>,
>
    decreases args, n,
{
    if n <= 0 || n > args.len() {
        Ok((Seq::<Json>::empty(), found))
    } else {
        match compared_through(args, n - 1, found) {
            Err(msg) => Err(msg),
            Ok((values, so_far)) => match compared_from(args[n - 1], so_far) {
                Ok((value, next)) => Ok((values.push(value), next)),
                Err(msg) => Err(msg),
            },
        }
    }
}

/// The comparisons that the rule `e` makes with variables, each once, in
/// the order in which the rule first makes them.
pub open spec fn compared_variables(e: Expr) -> Result<Seq<Triple>, Seq<char>> {
    match compared_from(e, Seq::<Triple>::empty()) {
        Ok((_, found)) => Ok(found),
        Err(msg) => Err(msg),
    }
}

/// The views of a list of comparisons, in order.
pub open spec fn triples_of(found: Seq<(String, String, Value)>) -> Seq<Triple> {
    Seq::new(found.len(), |i: int| (found[i].0@, found[i].1@, found[i].2@))
}

/// The view of a list of names, or the message.
pub open spec fn names_view(r: Result<Vec<String>, String>) -> Result<Seq<Seq<char>>, Seq<char>> {
    match r {
        Ok(names) => Ok(texts_of(names@)),
        Err(msg) => Err(msg@),
    }
}

/// The view of a list of comparisons, or the message.
pub open spec fn triples_view(r: Result<Vec<(String, String, Value)>, String>) -> Result<
    Seq<Triple>,
    Seq<char>,
> {
    match r {
        Ok(found) => Ok(triples_of(found@)),
        Err(msg) => Err(msg@),
    }
}

/// Puts `name` into `names` unless it is there.
fn insert_name(names: &mut Vec<String>, name: &str)
    ensures
        texts_of(final(names)@) == adjoin(texts_of(old(names)@), name@),
        texts_of(old(names)@).is_prefix_of(texts_of(final(names)@)),
{
    let ghost before = texts_of(names@);
    let mut i: usize = 0;
    while i < names.len()
        invariant
            i <= names.len(),
            before == texts_of(names@),
            *names == *old(names),
            forall|j: int| 0 <= j < i ==> before[j] != name@,
        decreases names.len() - i,
    {
        if same_text(names[i].as_str(), name) {
            assert(before[i as int] == name@);
            return ;
        }
        i = i + 1;
    }
    names.push(name.to_owned());
    assert(texts_of(names@) =~= before.push(name@));
}

/// Puts a comparison into `found` unless it is there.
fn insert_triple(found: &mut Vec<(String, String, Value)>, name: &str, op: String, value: Value)
    ensures
        triples_of(final(found)@) == adjoin(triples_of(old(found)@), (name@, op@, value@)),
        triples_of(old(found)@).is_prefix_of(triples_of(final(found)@)),
{
    let ghost before = triples_of(found@);
    let ghost x = (name@, op@, value@);
    let mut i: usize = 0;
    while i < found.len()
        invariant
            i <= found.len(),
            before == triples_of(found@),
            *found == *old(found),
            x == (name@, op@, value@),
            forall|j: int| 0 <= j < i ==> before[j] != x,
        decreases found.len() - i,
    {
        assert(before[i as int] == (
            found@[i as int].0@,
            found@[i as int].1@,
            found@[i as int].2@,
        ));
        let same_name = same_text(found[i].0.as_str(), name);
        let same_op = same_text(found[i].1.as_str(), op.as_str());
        let same_value = found[i].2.same(&value);
        if same_name && same_op && same_value {
            return ;
        }
        i = i + 1;
    }
    found.push((name.to_owned(), op, value));
    assert(triples_of(found@) =~= before.push(x));
}

/// The name that a `var` with the arguments `args` reads.
fn read_name<'b>(args: &'b Vec<Expression>) -> (r: Result<&'b str, String>)
    ensures
        match r {
            Ok(name) => name_read(crate::expression::exprs_of(args@)) == Ok::<Seq<char>, Seq<char>>(
                name@,
            ),
            Err(msg) => name_read(crate::expression::exprs_of(args@)) == Err::<
                Seq<char>,
                Seq<char>,
            >(msg@),
        },
{
    if args.len() == 0 {
        return Err("found Variable operator without arguments".to_owned());
    }
    match &args[0] {
        Expression::Constant(name_value) => match name_value {
            Value::String(name) => Ok(name.as_str()),
            _ => Err("found Variable operator with non string argument".to_owned()),
        },
        Expression::Computed(operator, inner) => {
            proof {
                crate::expression::computed_view(*operator, *inner);
            }
            Err("found Variable operator with non static argument".to_owned())
        },
    }
}

impl Operator {
    /// How the operator is called in reports.
    pub fn name(&self) -> (r: String)
        ensures
            r@ == name_of(*self),
    {
        match self {
            Operator::Equal => "Equal".to_owned(),
            Operator::StrictEqual => "StrictEqual".to_owned(),
            Operator::NotEqual => "NotEqual".to_owned(),
            Operator::StrictNotEqual => "StrictNotEqual".to_owned(),
            Operator::Variable => "Variable".to_owned(),
            Operator::Negation => "Negation".to_owned(),
            Operator::DoubleNegation => "DoubleNegation".to_owned(),
            Operator::If => "If".to_owned(),
            Operator::Or => "Or".to_owned(),
            Operator::And => "And".to_owned(),
            Operator::LessThan => "LessThan".to_owned(),
            Operator::LessEqualThan => "LessEqualThan".to_owned(),
            Operator::GreaterThan => "GreaterThan".to_owned(),
            Operator::GreaterEqualThan => "GreaterEqualThan".to_owned(),
            Operator::Addition => "Addition".to_owned(),
            Operator::Subtraction => "Subtraction".to_owned(),
            Operator::Multiplication => "Multiplication".to_owned(),
            Operator::Division => "Division".to_owned(),
            Operator::Modulo => "Modulo".to_owned(),
            Operator::MapEach => "Map".to_owned(),
            Operator::Filter => "Filter".to_owned(),
            Operator::Reduce => "Reduce".to_owned(),
            Operator::All => "All".to_owned(),
            Operator::SomeOf => "Some".to_owned(),
            Operator::NoneOf => "None".to_owned(),
            Operator::Merge => "Merge".to_owned(),
            Operator::In => "In".to_owned(),
            Operator::Cat => "Cat".to_owned(),
            Operator::Log => "Log".to_owned(),
            Operator::JuspayVerEq => "JuspayVerEq".to_owned(),
            Operator::JuspayVerGt => "JuspayVerGt".to_owned(),
            Operator::JuspayVerLt => "JuspayVerLt".to_owned(),
            Operator::JuspayVerGtEq => "JuspayVerGtEq".to_owned(),
            Operator::JuspayVerLtEq => "JuspayVerLtEq".to_owned(),
            Operator::RegexMatch => "RegexMatch".to_owned(),
        }
    }

    /// Whether the operator compares.
    pub fn is_comparison(&self) -> (r: bool)
        ensures
            r == compares(*self),
    {
        match self {
            Operator::Equal
            | Operator::StrictEqual
            | Operator::Negation
            | Operator::DoubleNegation
            | Operator::In
            | Operator::NotEqual
            | Operator::LessEqualThan
            | Operator::LessThan
            | Operator::GreaterEqualThan
            | Operator::GreaterThan
            | Operator::JuspayVerEq
            | Operator::JuspayVerGt
            | Operator::JuspayVerLt
            | Operator::JuspayVerGtEq
            | Operator::JuspayVerLtEq => true,
            _ => false,
        }
    }
}

impl<'a> Expression<'a> {
    /// Returns a set that contains all variable names that occure in this expression and its child
    /// expressions. Errors if a variable operator
    ///
    /// - has not a string as its argument
    /// - has a non static argument
    ///
    /// While the latter is valid for computation, it is currently not implemented to analyze the
    /// variable name for that.
    pub fn get_variable_names(&self) -> (r: Result<Vec<String>, String>)
        ensures
            names_view(r) == variable_names(self@),
    {
        let mut variable_names: Vec<String> = Vec::new();
        assert(texts_of(variable_names@) =~= Seq::<Seq<char>>::empty());
        match self.insert_var_names(&mut variable_names) {
            Ok(()) => Ok(variable_names),
            Err(msg) => Err(msg),
        }
    }

    #[verifier::loop_isolation(false)]
    fn insert_var_names(&self, names: &mut Vec<String>) -> (r: Result<(), String>)
        ensures
            match r {
                Ok(()) => names_from(self@, texts_of(old(names)@)) == Ok::<
                    Seq<Seq<char>>,
                    Seq<char>,
                >(texts_of(final(names)@)),
                Err(msg) => names_from(self@, texts_of(old(names)@)) == Err::<
                    Seq<Seq<char>>,
                    Seq<char>,
                >(msg@),
            },
            texts_of(old(names)@).is_prefix_of(texts_of(final(names)@)),
        decreases self,
    {
        match self {
            Expression::Constant(_) => Ok(()),
            Expression::Computed(operator, args) => {
                proof {
                    crate::expression::computed_view(*operator, *args);
                }
                let ghost models = crate::expression::exprs_of(args@);
                let ghost given = texts_of(names@);
                let mut i: usize = 0;
                if let Operator::Variable = operator {
                    match read_name(args) {
                        Ok(name) => {
                            insert_name(names, name);
                        },
                        Err(msg) => {
                            return Err(msg);
                        },
                    }
                    i = 1;
                }
                let ghost first = i as int;
                let ghost start = texts_of(names@);
                // The arguments are read in turn: all of them, and those after the name of a `var`.
                while i < args.len()
                    invariant
                        first <= i <= args.len(),
                        given.is_prefix_of(texts_of(names@)),
                        names_through(models, first, i as int, start) == Ok::<
                            Seq<Seq<char>>,
                            Seq<char>,
                        >(texts_of(names@)),
                    decreases args.len() - i,
                {
                    match args[i].insert_var_names(names) {
                        Ok(()) => {},
                        Err(msg) => {
                            proof {
                                names_fail_for_good(
                                    models,
                                    first,
                                    i + 1,
                                    args.len() as int,
                                    start,
                                );
                            }
                            return Err(msg);
                        },
                    }
                    i = i + 1;
                }
                Ok(())
            },
        }
    }

    /// Returns a set that contains all variable names and values that occur in this expression and its child
    /// expressions. Errors if a variable operator
    ///
    /// - has not a string as its argument
    /// - has a non static argument
    ///
    pub fn get_variable_names_and_values(&self) -> (r: Result<
        Vec<(String, String, Value)>,
        String,
    >)
        ensures
            triples_view(r) == compared_variables(self@),
    {
        let mut variable_names: Vec<(String, String, Value)> = Vec::new();
        assert(triples_of(variable_names@) =~= Seq::<Triple>::empty());
        match self.insert_var_names_and_values(&mut variable_names) {
            Ok(_) => Ok(variable_names),
            Err(msg) => Err(msg),
        }
    }

    #[verifier::loop_isolation(false)]
    fn insert_var_names_and_values(
        &self,
        variable_names: &mut Vec<(String, String, Value)>,
    ) -> (r: Result<Value, String>)
        ensures
            match r {
                Ok(value) => compared_from(self@, triples_of(old(variable_names)@)) == Ok::<
                    (Json, Seq<Triple>),
                    Seq<char>,
                >((value@, triples_of(final(variable_names)@))),
                Err(msg) => compared_from(self@, triples_of(old(variable_names)@)) == Err::<
                    (Json, Seq<Triple>),
                    Seq<char>,
                >(msg@),
            },
            triples_of(old(variable_names)@).is_prefix_of(triples_of(final(variable_names)@)),
        decreases self,
    {
        match self {
            Expression::Constant(a) => Ok((**a).clone()),
            Expression::Computed(operator, args) => {
                proof {
                    crate::expression::computed_view(*operator, *args);
                }
                let ghost models = crate::expression::exprs_of(args@);
                let ghost start = triples_of(variable_names@);
                if operator.is_comparison() {
                    let op = operator.name();
                    if args.len() == 0 {
                        return Err("Found variable operator without value".to_owned());
                    }
                    let present_value = match args[args.len() - 1].insert_var_names_and_values(
                        variable_names,
                    ) {
                        Ok(value) => value,
                        Err(msg) => {
                            return Err(msg);
                        },
                    };
                    if let Expression::Computed(Operator::Variable, next_arg) = &args[0] {
                        proof {
                            crate::expression::computed_view(Operator::Variable, *next_arg);
                        }
                        match read_name(next_arg) {
                            Ok(name) => {
                                insert_triple(variable_names, name, op, present_value.clone());
                            },
                            Err(msg) => {
                                return Err(msg);
                            },
                        }
                    }
                    Ok(present_value)
                } else {
                    // For all other operations analyze the arguments recursive.
                    let mut values: Vec<Value> = Vec::new();
                    assert(jsons_of(values@) =~= Seq::<Json>::empty());
                    let mut i: usize = 0;
                    while i < args.len()
                        invariant
                            i <= args.len(),
                            start.is_prefix_of(triples_of(variable_names@)),
                            compared_through(models, i as int, start) == Ok::<
                                (Seq<Json>, Seq<Triple>),
                                Seq<char>,
                            >((jsons_of(values@), triples_of(variable_names@))),
                        decreases args.len() - i,
                    {
                        match args[i].insert_var_names_and_values(variable_names) {
                            Ok(value) => {
                                let ghost before = jsons_of(values@);
                                values.push(value);
                                assert(jsons_of(values@) =~= before.push(value@));
                            },
                            Err(msg) => {
                                proof {
                                    compared_fail_for_good(
                                        models,
                                        i + 1,
                                        args.len() as int,
                                        start,
                                    );
                                }
                                return Err(msg);
                            },
                        }
                        i = i + 1;
                    }
                    proof {
                        array_view(values);
                    }
                    Ok(Value::Array(values))
                }
            },
        }
    }
}

/// Once the reading of a rule fails, so does that of every longer run.
pub proof fn names_fail_for_good(
    args: Seq<Expr>,
    from: int,
    n: int,
    m: int,
    found: Seq<Seq<char>>,
)
    requires
        0 <= from < n <= m <= args.len(),
        names_through(args, from, n, found) is Err,
    ensures
        names_through(args, from, m, found) == names_through(args, from, n, found),
    decreases m - n,
{
    if n < m {
        names_fail_for_good(args, from, n, m - 1, found);
    }
}

/// Once the reading of a rule fails, so does that of every longer run.
pub proof fn compared_fail_for_good(args: Seq<Expr>, n: int, m: int, found: Seq<Triple>)
    requires
        0 < n <= m <= args.len(),
        compared_through(args, n, found) is Err,
    ensures
        compared_through(args, m, found) == compared_through(args, n, found),
    decreases m - n,
{
    if n < m {
        compared_fail_for_good(args, n, m - 1, found);
    }
}

} // verus!
