//! The predicate translator: from the host's expression tree of a filter or a
//! sampling clause to the query text that the embedded engine reads.
//!
//! The set of node kinds is closed. A tree that holds any other node, an operator
//! that is no comparison, or a comparison without operands has no translation: the
//! translator fails rather than drop a part of a predicate.

use crate::conversion::SELF_ITEM_POINTER_ATTRIBUTE_NUMBER;
use vstd::prelude::*;
use vstd::string::StringExecFns;

verus! {

/// The connective of a boolean node.
#[derive(Clone, Copy, Debug, PartialEq, Eq, Structural)]
pub enum BoolExprType {
    AndExpr,
    OrExpr,
    NotExpr,
}

/// The question that a null test asks.
#[derive(Clone, Copy, Debug, PartialEq, Eq, Structural)]
pub enum NullTestType {
    IsNull,
    IsNotNull,
}

/// A comparison operator.
#[derive(Clone, Copy, Debug, PartialEq, Eq, Structural)]
pub enum CompareOp {
    Equal,
    NotEqual,
    Less,
    LessOrEqual,
    Greater,
    GreaterOrEqual,
}

/// A constant of the tree, by the host type it has. Numbers with a fraction and
/// calendar values come with the text that the host prints for them.
#[derive(Debug, PartialEq, Eq)]
pub enum Literal {
    /// The absent value, of any type.
    Null,
    Bool(bool),
    Int16(i16),
    Int32(i32),
    Int64(i64),
    Float32(String),
    Float64(String),
    Date(String),
    Time(String),
    Timestamp(String),
    Text(String),
    /// A constant of a host type outside the supported set.
    Unsupported(u32),
}

/// A node of the host's expression tree.
#[derive(Debug, PartialEq, Eq)]
pub enum Expr {
    /// A column, by the ordinal it has in the query's text.
    Var { varattnosyn: i16 },
    /// An operator, by name, on its operands.
    OpExpr { opname: String, args: Vec<Expr> },
    BoolExpr { boolop: BoolExprType, args: Vec<Expr> },
    NullTest { arg: Box<Expr>, nulltesttype: NullTestType },
    Const(Literal),
    /// A list of conditions that must all hold.
    List(Vec<Expr>),
    /// A sampling clause: the arguments of the method, and the seed where the
    /// sample is to be repeatable.
    TableSampleClause { args: Vec<Expr>, repeatable: Option<Box<Expr>> },
    /// A node of any other kind, by the host's tag.
    Other { tag: u32 },
}

/// Why a tree has no translation.
#[derive(Clone, Copy, Debug, PartialEq, Eq, Structural)]
pub enum TranslateError {
    UnsupportedExpression,
}

/// The text of a digit.
pub open spec fn digit_text(d: int) -> Seq<char> {
    if d == 0 {
        "0"@
    } else if d == 1 {
        "1"@
    } else if d == 2 {
        "2"@
    } else if d == 3 {
        "3"@
    } else if d == 4 {
        "4"@
    } else if d == 5 {
        "5"@
    } else if d == 6 {
        "6"@
    } else if d == 7 {
        "7"@
    } else if d == 8 {
        "8"@
    } else {
        "9"@
    }
}

/// The decimal digits of a natural number, without leading zeros.
pub open spec fn digits_text(n: nat) -> Seq<char>
    decreases n,
{
    if n < 10 {
        digit_text(n as int)
    } else {
        digits_text(n / 10) + digit_text((n % 10) as int)
    }
}

/// The decimal text of an integer: a minus sign before the digits of a negative one.
pub open spec fn decimal_text(n: int) -> Seq<char> {
    if n < 0 {
        "-"@ + digits_text((-n) as nat)
    } else {
        digits_text(n as nat)
    }
}

/// The text of a truth value.
pub open spec fn bool_text(b: bool) -> Seq<char> {
    if b {
        "true"@
    } else {
        "false"@
    }
}

/// A text between round brackets.
pub open spec fn parenthesized(s: Seq<char>) -> Seq<char> {
    "("@ + s + ")"@
}

/// A text between single quotes.
pub open spec fn quoted(s: Seq<char>) -> Seq<char> {
    "'"@ + s + "'"@
}

/// The first `n` parts, each followed by the separator but the last.
pub open spec fn joined(parts: Seq<Seq<char>>, sep: Seq<char>, n: nat) -> Seq<char>
    decreases n,
{
    if n == 0 || n > parts.len() {
        Seq::empty()
    } else if n == 1 {
        parts[0]
    } else {
        joined(parts, sep, (n - 1) as nat) + sep + parts[n - 1]
    }
}

/// The comparison that an operator's name stands for.
pub open spec fn operator_of(opname: Seq<char>) -> Option<CompareOp> {
    if opname == "="@ {
        Some(CompareOp::Equal)
    } else if opname == "<>"@ {
        Some(CompareOp::NotEqual)
    } else if opname == "<"@ {
        Some(CompareOp::Less)
    } else if opname == "<="@ {
        Some(CompareOp::LessOrEqual)
    } else if opname == ">"@ {
        Some(CompareOp::Greater)
    } else if opname == ">="@ {
        Some(CompareOp::GreaterOrEqual)
    } else {
        None
    }
}

/// The text of a comparison between its operands, a blank on either side.
pub open spec fn operator_text(op: CompareOp) -> Seq<char> {
    match op {
        CompareOp::Equal => " = "@,
        CompareOp::NotEqual => " <> "@,
        CompareOp::Less => " < "@,
        CompareOp::LessOrEqual => " <= "@,
        CompareOp::Greater => " > "@,
        CompareOp::GreaterOrEqual => " >= "@,
    }
}

/// The name of a column in the query: the reserved name of the row number for the
/// row identity, `column_` and the ordinal for every other column.
pub open spec fn column_name(attno: i16) -> Seq<char> {
    if attno == SELF_ITEM_POINTER_ATTRIBUTE_NUMBER {
        "file_row_number"@
    } else {
        "column_"@ + decimal_text(attno as int)
    }
}

/// The text of a constant: truth values and numbers as they are printed, texts and
/// calendar values between single quotes, nothing for an absent value or one of an
/// unsupported type.
pub open spec fn literal_text(literal: Literal) -> Seq<char> {
    match literal {
        Literal::Null => Seq::empty(),
        Literal::Bool(b) => bool_text(b),
        Literal::Int16(n) => decimal_text(n as int),
        Literal::Int32(n) => decimal_text(n as int),
        Literal::Int64(n) => decimal_text(n as int),
        Literal::Float32(s) => s@,
        Literal::Float64(s) => s@,
        Literal::Date(s) => quoted(s@),
        Literal::Time(s) => quoted(s@),
        Literal::Timestamp(s) => quoted(s@),
        Literal::Text(s) => quoted(s@),
        Literal::Unsupported(_) => Seq::empty(),
    }
}

/// Whether a tree has a translation: every node is of a known kind, every operator
/// is a comparison and has an operand.
pub open spec fn is_supported(e: Expr) -> bool
    decreases e,
{
    match e {
        Expr::Var { varattnosyn } => true,
        Expr::OpExpr { opname, args } => operator_of(opname@) is Some && args@.len() > 0
            && all_supported(args@, args@.len()),
        Expr::BoolExpr { boolop, args } => all_supported(args@, args@.len()),
        Expr::NullTest { arg, nulltesttype } => is_supported(*arg),
        Expr::Const(literal) => true,
        Expr::List(items) => all_supported(items@, items@.len()),
        Expr::TableSampleClause { args, repeatable } => all_supported(args@, args@.len()) && (
        match repeatable {
            Some(seed) => is_supported(*seed),
            None => true,
        }),
        Expr::Other { tag } => false,
    }
}

/// Whether each of the first `n` trees has a translation.
pub open spec fn all_supported(items: Seq<Expr>, n: nat) -> bool
    decreases items, n,
{
    if n == 0 || n > items.len() {
        true
    } else {
        all_supported(items, (n - 1) as nat) && is_supported(items[n - 1])
    }
}

/// The query text of a tree that has a translation.
///
/// A comparison puts its first and its last operand in brackets round the operator. A
/// conjunction or disjunction puts each operand in brackets and the keyword between
/// them, and is empty without operands; a negation negates its first operand. A list
/// without conditions is empty, a list of one condition is that condition, a longer
/// one the conjunction of its conditions. A sampling clause names the percentage and, where the sample is
/// repeatable, the seed.
pub open spec fn translation(e: Expr) -> Seq<char>
    decreases e,
{
    match e {
        Expr::Var { varattnosyn } => column_name(varattnosyn),
        Expr::OpExpr { opname, args } => if args@.len() > 0 && operator_of(opname@) is Some {
            parenthesized(translation(args@[0])) + operator_text(operator_of(opname@)->Some_0)
                + parenthesized(translation(args@[args@.len() - 1]))
        } else {
            Seq::empty()
        },
        Expr::BoolExpr { boolop, args } => match boolop {
            BoolExprType::AndExpr => joined(
                translations(args@, true, args@.len()),
                " AND "@,
                args@.len(),
            ),
            BoolExprType::OrExpr => joined(
                translations(args@, true, args@.len()),
                " OR "@,
                args@.len(),
            ),
            BoolExprType::NotExpr => "NOT ("@ + (if args@.len() > 0 {
                parenthesized(translation(args@[0]))
            } else {
                Seq::empty()
            }) + ")"@,
        },
        Expr::NullTest { arg, nulltesttype } => match nulltesttype {
            NullTestType::IsNull => translation(*arg) + " IS NULL"@,
            NullTestType::IsNotNull => translation(*arg) + " IS NOT NULL"@,
        },
        Expr::Const(literal) => literal_text(literal),
        Expr::List(items) => if items@.len() == 1 {
            translation(items@[0])
        } else {
            joined(translations(items@, true, items@.len()), " AND "@, items@.len())
        },
        Expr::TableSampleClause { args, repeatable } => "USING SAMPLE "@ + joined(
            translations(args@, false, args@.len()),
            ", "@,
            args@.len(),
        ) + " PERCENT (bernoulli"@ + (match repeatable {
            Some(seed) => ", "@ + translation(*seed) + ")"@,
            None => ")"@,
        }),
        Expr::Other { tag } => Seq::empty(),
    }
}

/// The translations of the first `n` trees, each in brackets where `wrap` holds.
pub open spec fn translations(items: Seq<Expr>, wrap: bool, n: nat) -> Seq<Seq<char>>
    decreases items, n,
{
    if n == 0 || n > items.len() {
        Seq::empty()
    } else {
        translations(items, wrap, (n - 1) as nat).push(
            if wrap {
                parenthesized(translation(items[n - 1]))
            } else {
                translation(items[n - 1])
            },
        )
    }
}

/// What each text of a vector holds.
pub open spec fn texts(parts: Seq<String>) -> Seq<Seq<char>> {
    Seq::new(parts.len(), |i: int| parts[i]@)
}

fn digit_str(d: u64) -> (r: &'static str)
    requires
        d < 10,
    ensures
        r@ == digit_text(d as int),
{
    if d == 0 {
        "0"
    } else if d == 1 {
        "1"
    } else if d == 2 {
        "2"
    } else if d == 3 {
        "3"
    } else if d == 4 {
        "4"
    } else if d == 5 {
        "5"
    } else if d == 6 {
        "6"
    } else if d == 7 {
        "7"
    } else if d == 8 {
        "8"
    } else {
        "9"
    }
}

fn digits_string(n: u64) -> (r: String)
    ensures
        r@ == digits_text(n as nat),
    decreases n,
{
    if n < 10 {
        String::from_str(digit_str(n))
    } else {
        let mut text = digits_string(n / 10);
        text.append(digit_str(n % 10));
        text
    }
}

/// The decimal text of an integer.
pub fn integer_to_string(n: i64) -> (r: String)
    ensures
        r@ == decimal_text(n as int),
{
    if n < 0 {
        let magnitude: i128 = -(n as i128);
        let mut text = String::from_str("-");
        let digits = digits_string(magnitude as u64);
        text.append(digits.as_str());
        text
    } else {
        digits_string(n as u64)
    }
}

/// The comparison that an operator's name stands for, if it is one.
pub fn parse_operator(opname: &String) -> (r: Option<CompareOp>)
    ensures
        r == operator_of(opname@),
{
    if *opname == String::from_str("=") {
        Some(CompareOp::Equal)
    } else if *opname == String::from_str("<>") {
        Some(CompareOp::NotEqual)
    } else if *opname == String::from_str("<") {
        Some(CompareOp::Less)
    } else if *opname == String::from_str("<=") {
        Some(CompareOp::LessOrEqual)
    } else if *opname == String::from_str(">") {
        Some(CompareOp::Greater)
    } else if *opname == String::from_str(">=") {
        Some(CompareOp::GreaterOrEqual)
    } else {
        None
    }
}

fn operator_str(op: CompareOp) -> (r: &'static str)
    ensures
        r@ == operator_text(op),
{
    match op {
        CompareOp::Equal => " = ",
        CompareOp::NotEqual => " <> ",
        CompareOp::Less => " < ",
        CompareOp::LessOrEqual => " <= ",
        CompareOp::Greater => " > ",
        CompareOp::GreaterOrEqual => " >= ",
    }
}

/// The text between round brackets.
fn parenthesize(text: &String) -> (r: String)
    ensures
        r@ == parenthesized(text@),
{
    let mut wrapped = String::from_str("(");
    wrapped.append(text.as_str());
    wrapped.append(")");
    wrapped
}

/// The text between single quotes.
fn quote(text: &String) -> (r: String)
    ensures
        r@ == quoted(text@),
{
    let mut wrapped = String::from_str("'");
    wrapped.append(text.as_str());
    wrapped.append("'");
    wrapped
}

/// The parts in their order, the separator between each two of them.
pub fn join_strings(parts: &Vec<String>, sep: &str) -> (r: String)
    ensures
        r@ == joined(texts(parts@), sep@, parts@.len()),
{
    let mut text = String::new();
    let mut i: usize = 0;
    while i < parts.len()
        invariant
            i <= parts.len(),
            text@ == joined(texts(parts@), sep@, i as nat),
        decreases parts.len() - i,
    {
        if i > 0 {
            text.append(sep);
        }
        text.append(parts[i].as_str());
        i += 1;
        assert(text@ =~= joined(texts(parts@), sep@, i as nat));
    }
    text
}

/// The name of a column in the query.
pub fn extract_var(varattnosyn: i16) -> (r: String)
    ensures
        r@ == column_name(varattnosyn),
{
    if varattnosyn == SELF_ITEM_POINTER_ATTRIBUTE_NUMBER {
        String::from_str("file_row_number")
    } else {
        let mut name = String::from_str("column_");
        let ordinal = integer_to_string(varattnosyn as i64);
        name.append(ordinal.as_str());
        name
    }
}

/// The text of a constant.
pub fn extract_const_expr(literal: &Literal) -> (r: String)
    ensures
        r@ == literal_text(*literal),
{
    match literal {
        Literal::Null => String::new(),
        Literal::Bool(b) => if *b {
            String::from_str("true")
        } else {
            String::from_str("false")
        },
        Literal::Int16(n) => integer_to_string(*n as i64),
        Literal::Int32(n) => integer_to_string(*n as i64),
        Literal::Int64(n) => integer_to_string(*n),
        Literal::Float32(s) => s.clone(),
        Literal::Float64(s) => s.clone(),
        Literal::Date(s) => quote(s),
        Literal::Time(s) => quote(s),
        Literal::Timestamp(s) => quote(s),
        Literal::Text(s) => quote(s),
        Literal::Unsupported(_) => String::new(),
    }
}

/// Translates each tree of a vector, in order, and puts each text in brackets where
/// `wrap` holds. Fails where one of the trees has no translation.
fn extract_each(items: &Vec<Expr>, wrap: bool) -> (r: Result<Vec<String>, TranslateError>)
    ensures
        match r {
            Ok(parts) => all_supported(items@, items@.len()) && texts(parts@) == translations(
                items@,
                wrap,
                items@.len(),
            ),
            Err(_) => !all_supported(items@, items@.len()),
        },
    decreases items, 0nat,
{
    let mut parts: Vec<String> = Vec::new();
    let mut i: usize = 0;
    while i < items.len()
        invariant
            i <= items.len(),
            parts@.len() == i,
            all_supported(items@, i as nat),
            texts(parts@) == translations(items@, wrap, i as nat),
        decreases items.len() - i,
    {
        let text = match extract_clauses(&items[i]) {
            Ok(text) => text,
            Err(e) => {
                proof {
                    lemma_unsupported_item(items@, i as int, items@.len());
                }
                return Err(e);
            },
        };
        let part = if wrap {
            parenthesize(&text)
        } else {
            text
        };
        parts.push(part);
        i += 1;
        assert(texts(parts@) =~= translations(items@, wrap, i as nat));
    }
    Ok(parts)
}

/// A vector with a tree that has no translation is not supported as a whole.
proof fn lemma_unsupported_item(items: Seq<Expr>, i: int, n: nat)
    requires
        0 <= i < n <= items.len(),
        !is_supported(items[i]),
    ensures
        !all_supported(items, n),
    decreases n,
{
    if i < n - 1 {
        lemma_unsupported_item(items, i, (n - 1) as nat);
    }
}

fn extract_op_expr(expr: &Expr) -> (r: Result<String, TranslateError>)
    requires
        expr is OpExpr,
    ensures
        match r {
            Ok(text) => is_supported(*expr) && text@ == translation(*expr),
            Err(_) => !is_supported(*expr),
        },
    decreases expr, 0nat,
{
    match expr {
        Expr::OpExpr { opname, args } => {
            let expressions = match extract_each(args, true) {
                Ok(expressions) => expressions,
                Err(e) => {
                    return Err(e);
                },
            };
            proof {
                lemma_translations_len(args@, true, args@.len());
            }
            let op = match parse_operator(opname) {
                Some(op) => op,
                None => {
                    return Err(TranslateError::UnsupportedExpression);
                },
            };
            if expressions.len() == 0 {
                return Err(TranslateError::UnsupportedExpression);
            }
            let mut text = expressions[0].clone();
            text.append(operator_str(op));
            text.append(expressions[expressions.len() - 1].as_str());
            proof {
                lemma_translations_index(args@, true, args@.len(), 0);
                lemma_translations_index(args@, true, args@.len(), args@.len() - 1);
                assert(texts(expressions@)[0] == expressions@[0]@);
                assert(texts(expressions@)[args@.len() - 1] == expressions@[args@.len() - 1]@);
            }
            Ok(text)
        },
        _ => Err(TranslateError::UnsupportedExpression),
    }
}

/// The `i`-th of the first `n` translations is that of the `i`-th tree.
proof fn lemma_translations_index(items: Seq<Expr>, wrap: bool, n: nat, i: int)
    requires
        0 <= i < n <= items.len(),
    ensures
        translations(items, wrap, n).len() == n,
        translations(items, wrap, n)[i] == if wrap {
            parenthesized(translation(items[i]))
        } else {
            translation(items[i])
        },
    decreases n,
{
    lemma_translations_len(items, wrap, (n - 1) as nat);
    if i < n - 1 {
        lemma_translations_index(items, wrap, (n - 1) as nat, i);
    }
}

proof fn lemma_translations_len(items: Seq<Expr>, wrap: bool, n: nat)
    requires
        n <= items.len(),
    ensures
        translations(items, wrap, n).len() == n,
    decreases n,
{
    if n > 0 {
        lemma_translations_len(items, wrap, (n - 1) as nat);
    }
}

fn extract_bool_expr(expr: &Expr) -> (r: Result<String, TranslateError>)
    requires
        expr is BoolExpr,
    ensures
        match r {
            Ok(text) => is_supported(*expr) && text@ == translation(*expr),
            Err(_) => !is_supported(*expr),
        },
    decreases expr, 0nat,
{
    match expr {
        Expr::BoolExpr { boolop, args } => {
            let expressions = match extract_each(args, true) {
                Ok(expressions) => expressions,
                Err(e) => {
                    return Err(e);
                },
            };
            proof {
                lemma_translations_len(args@, true, args@.len());
            }
            match boolop {
                BoolExprType::AndExpr => Ok(join_strings(&expressions, " AND ")),
                BoolExprType::OrExpr => Ok(join_strings(&expressions, " OR ")),
                BoolExprType::NotExpr => {
                    let mut text = String::from_str("NOT (");
                    if expressions.len() > 0 {
                        text.append(expressions[0].as_str());
                        proof {
                            lemma_translations_index(args@, true, args@.len(), 0);
                            assert(texts(expressions@)[0] == expressions@[0]@);
                        }
                    }
                    text.append(")");
                    assert(text@ =~= translation(*expr));
                    Ok(text)
                },
            }
        },
        _ => Err(TranslateError::UnsupportedExpression),
    }
}

fn extract_null_test(expr: &Expr) -> (r: Result<String, TranslateError>)
    requires
        expr is NullTest,
    ensures
        match r {
            Ok(text) => is_supported(*expr) && text@ == translation(*expr),
            Err(_) => !is_supported(*expr),
        },
    decreases expr, 0nat,
{
    match expr {
        Expr::NullTest { arg, nulltesttype } => {
            let mut text = match extract_clauses(arg) {
                Ok(text) => text,
                Err(e) => {
                    return Err(e);
                },
            };
            match nulltesttype {
                NullTestType::IsNull => text.append(" IS NULL"),
                NullTestType::IsNotNull => text.append(" IS NOT NULL"),
            }
            Ok(text)
        },
        _ => Err(TranslateError::UnsupportedExpression),
    }
}

fn extract_list(expr: &Expr) -> (r: Result<String, TranslateError>)
    requires
        expr is List,
    ensures
        match r {
            Ok(text) => is_supported(*expr) && text@ == translation(*expr),
            Err(_) => !is_supported(*expr),
        },
    decreases expr, 0nat,
{
    match expr {
        Expr::List(items) => {
            if items.len() == 1 {
                proof {
                    assert(all_supported(items@, 0));
                    assert(all_supported(items@, 1) == is_supported(items@[0]));
                }
                extract_clauses(&items[0])
            } else {
                let expressions = match extract_each(items, true) {
                    Ok(expressions) => expressions,
                    Err(e) => {
                        return Err(e);
                    },
                };
                proof {
                    lemma_translations_len(items@, true, items@.len());
                }
                Ok(join_strings(&expressions, " AND "))
            }
        },
        _ => Err(TranslateError::UnsupportedExpression),
    }
}

fn extract_tablesample(expr: &Expr) -> (r: Result<String, TranslateError>)
    requires
        expr is TableSampleClause,
    ensures
        match r {
            Ok(text) => is_supported(*expr) && text@ == translation(*expr),
            Err(_) => !is_supported(*expr),
        },
    decreases expr, 0nat,
{
    match expr {
        Expr::TableSampleClause { args, repeatable } => {
            let expressions = match extract_each(args, false) {
                Ok(expressions) => expressions,
                Err(e) => {
                    return Err(e);
                },
            };
            proof {
                lemma_translations_len(args@, false, args@.len());
            }
            let arguments = join_strings(&expressions, ", ");
            let mut text = String::from_str("USING SAMPLE ");
            text.append(arguments.as_str());
            text.append(" PERCENT (bernoulli");
            match repeatable {
                Some(seed) => {
                    let seed_text = match extract_clauses(seed) {
                        Ok(seed_text) => seed_text,
                        Err(e) => {
                            return Err(e);
                        },
                    };
                    text.append(", ");
                    text.append(seed_text.as_str());
                    text.append(")");
                    assert(text@ =~= translation(*expr));
                },
                None => {
                    text.append(")");
                    assert(text@ =~= translation(*expr));
                },
            }
            Ok(text)
        },
        _ => Err(TranslateError::UnsupportedExpression),
    }
}

/// Translates a tree into query text.
///
/// Succeeds on every tree that has a translation, and on no other.
pub fn extract_clauses(expr: &Expr) -> (r: Result<String, TranslateError>)
    ensures
        match r {
            Ok(text) => is_supported(*expr) && text@ == translation(*expr),
            Err(e) => !is_supported(*expr) && e == TranslateError::UnsupportedExpression,
        },
    decreases expr, 1nat,
{
    match expr {
        Expr::List(_) => extract_list(expr),
        Expr::Var { varattnosyn } => Ok(extract_var(*varattnosyn)),
        Expr::OpExpr { .. } => extract_op_expr(expr),
        Expr::BoolExpr { .. } => extract_bool_expr(expr),
        Expr::NullTest { .. } => extract_null_test(expr),
        Expr::Const(literal) => Ok(extract_const_expr(literal)),
        Expr::TableSampleClause { .. } => extract_tablesample(expr),
        Expr::Other { .. } => Err(TranslateError::UnsupportedExpression),
    }
}

/// Two constants hold the same.
pub open spec fn same_literal(a: Literal, b: Literal) -> bool {
    match (a, b) {
        (Literal::Null, Literal::Null) => true,
        (Literal::Bool(x), Literal::Bool(y)) => x == y,
        (Literal::Int16(x), Literal::Int16(y)) => x == y,
        (Literal::Int32(x), Literal::Int32(y)) => x == y,
        (Literal::Int64(x), Literal::Int64(y)) => x == y,
        (Literal::Float32(x), Literal::Float32(y)) => x@ == y@,
        (Literal::Float64(x), Literal::Float64(y)) => x@ == y@,
        (Literal::Date(x), Literal::Date(y)) => x@ == y@,
        (Literal::Time(x), Literal::Time(y)) => x@ == y@,
        (Literal::Timestamp(x), Literal::Timestamp(y)) => x@ == y@,
        (Literal::Text(x), Literal::Text(y)) => x@ == y@,
        (Literal::Unsupported(x), Literal::Unsupported(y)) => x == y,
        _ => false,
    }
}

/// Two trees hold the same: node for node the same kind, the same numbers and the
/// same texts.
pub open spec fn same_tree(a: Expr, b: Expr) -> bool
    decreases a,
{
    match (a, b) {
        (Expr::Var { varattnosyn: x }, Expr::Var { varattnosyn: y }) => x == y,
        (Expr::OpExpr { opname: m, args: x }, Expr::OpExpr { opname: n, args: y }) => m@ == n@
            && x@.len() == y@.len() && same_trees(x@, y@, x@.len()),
        (Expr::BoolExpr { boolop: m, args: x }, Expr::BoolExpr { boolop: n, args: y }) => m == n
            && x@.len() == y@.len() && same_trees(x@, y@, x@.len()),
        (
            Expr::NullTest { arg: x, nulltesttype: m },
            Expr::NullTest { arg: y, nulltesttype: n },
        ) => m == n && same_tree(*x, *y),
        (Expr::Const(x), Expr::Const(y)) => same_literal(x, y),
        (Expr::List(x), Expr::List(y)) => x@.len() == y@.len() && same_trees(x@, y@, x@.len()),
        (
            Expr::TableSampleClause { args: x, repeatable: m },
            Expr::TableSampleClause { args: y, repeatable: n },
        ) => x@.len() == y@.len() && same_trees(x@, y@, x@.len()) && (match (m, n) {
            (Some(p), Some(q)) => same_tree(*p, *q),
            (None, None) => true,
            _ => false,
        }),
        (Expr::Other { tag: x }, Expr::Other { tag: y }) => x == y,
        _ => false,
    }
}

/// The first `n` trees of two sequences hold the same, one by one.
pub open spec fn same_trees(a: Seq<Expr>, b: Seq<Expr>, n: nat) -> bool
    decreases a, n,
{
    if n == 0 || n > a.len() || n > b.len() {
        true
    } else {
        same_trees(a, b, (n - 1) as nat) && same_tree(a[n - 1], b[n - 1])
    }
}

/// The translation depends on nothing but what the tree holds: two trees that hold
/// the same have a translation together or not at all, and then the same text.
pub proof fn translation_is_deterministic(a: Expr, b: Expr)
    requires
        same_tree(a, b),
    ensures
        is_supported(a) == is_supported(b),
        translation(a) == translation(b),
    decreases a, 0nat,
{
    match (a, b) {
        (Expr::OpExpr { opname: m, args: x }, Expr::OpExpr { opname: n, args: y }) => {
            translations_are_deterministic(x@, y@, x@.len());
            if x@.len() > 0 {
                same_trees_index(x@, y@, x@.len(), 0);
                same_trees_index(x@, y@, x@.len(), x@.len() - 1);
                translation_is_deterministic(x@[0], y@[0]);
                translation_is_deterministic(x@[x@.len() - 1], y@[x@.len() - 1]);
            }
        },
        (Expr::BoolExpr { boolop: m, args: x }, Expr::BoolExpr { boolop: n, args: y }) => {
            translations_are_deterministic(x@, y@, x@.len());
            if x@.len() > 0 {
                same_trees_index(x@, y@, x@.len(), 0);
                translation_is_deterministic(x@[0], y@[0]);
            }
        },
        (
            Expr::NullTest { arg: x, nulltesttype: m },
            Expr::NullTest { arg: y, nulltesttype: n },
        ) => {
            translation_is_deterministic(*x, *y);
        },
        (Expr::List(x), Expr::List(y)) => {
            translations_are_deterministic(x@, y@, x@.len());
            if x@.len() == 1 {
                same_trees_index(x@, y@, 1, 0);
                translation_is_deterministic(x@[0], y@[0]);
            }
        },
        (
            Expr::TableSampleClause { args: x, repeatable: m },
            Expr::TableSampleClause { args: y, repeatable: n },
        ) => {
            translations_are_deterministic(x@, y@, x@.len());
            match (m, n) {
                (Some(p), Some(q)) => {
                    translation_is_deterministic(*p, *q);
                },
                _ => {},
            }
        },
        _ => {},
    }
}

/// Among the first `n` trees that hold the same, the `i`-th ones do.
proof fn same_trees_index(a: Seq<Expr>, b: Seq<Expr>, n: nat, i: int)
    requires
        0 <= i < n,
        n <= a.len(),
        n <= b.len(),
        same_trees(a, b, n),
    ensures
        same_tree(a[i], b[i]),
    decreases n,
{
    if i < n - 1 {
        same_trees_index(a, b, (n - 1) as nat, i);
    }
}

/// Sequences of trees that hold the same are translated alike.
proof fn translations_are_deterministic(a: Seq<Expr>, b: Seq<Expr>, n: nat)
    requires
        n <= a.len(),
        n <= b.len(),
        same_trees(a, b, n),
    ensures
        all_supported(a, n) == all_supported(b, n),
        translations(a, true, n) == translations(b, true, n),
        translations(a, false, n) == translations(b, false, n),
    decreases a, n,
{
    if n > 0 {
        translations_are_deterministic(a, b, (n - 1) as nat);
        translation_is_deterministic(a[n - 1], b[n - 1]);
    }
}

/// A list of one condition is translated as that condition alone, with no brackets
/// round it.
pub proof fn single_condition_has_no_brackets(list: Expr)
    requires
        list is List,
        list->List_0@.len() == 1,
    ensures
        translation(list) == translation(list->List_0@[0]),
        is_supported(list) == is_supported(list->List_0@[0]),
{
    let items = list->List_0@;
    assert(all_supported(items, 0));
    assert(all_supported(items, 1) == is_supported(items[0]));
}

} // verus!
