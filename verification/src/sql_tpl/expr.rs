//! The tests of conditional blocks: a presence check, a null check, or a
//! comparison of one variable with a literal.
//!
//! ```text
//! test    := name | name ("==" | "!=") literal
//! literal := "null" | "true" | "false" | integer | 'text'
//! ```
//! White space around the name, the operator and the literal is ignored.
use vstd::prelude::*;
use vstd::string::*;
use crate::sql_tpl::value::Value;
use crate::text::{chars_eq, chars_of, is_space, space, str_eq, string_of, subvec, trim, trim_spec};

verus! {

/// The literal that a variable is compared with.
#[derive(Debug, PartialEq, Eq)]
pub enum Operand {
    Null,
    Bool(bool),
    Int(i64),
    Str(String),
}

pub enum OperandView {
    Null,
    Bool(bool),
    Int(i64),
    Str(Seq<char>),
}

impl View for Operand {
    type V = OperandView;

    open spec fn view(&self) -> OperandView {
        match self {
            Operand::Null => OperandView::Null,
            Operand::Bool(b) => OperandView::Bool(*b),
            Operand::Int(i) => OperandView::Int(*i),
            Operand::Str(s) => OperandView::Str(s@),
        }
    }
}

/// What is asked of the variable.
#[derive(Debug, PartialEq, Eq)]
pub enum Check {
    /// That it is present: not the null.
    Present,
    /// That it equals the literal.
    Equals(Operand),
    /// That it does not equal the literal.
    Differs(Operand),
}

pub enum CheckView {
    Present,
    Equals(OperandView),
    Differs(OperandView),
}

impl View for Check {
    type V = CheckView;

    open spec fn view(&self) -> CheckView {
        match self {
            Check::Present => CheckView::Present,
            Check::Equals(o) => CheckView::Equals(o@),
            Check::Differs(o) => CheckView::Differs(o@),
        }
    }
}

/// A parsed test: the variable and what is asked of it.
#[derive(Debug, PartialEq, Eq)]
pub struct TestExpr {
    pub name: String,
    pub check: Check,
}

pub struct TestExprView {
    pub name: Seq<char>,
    pub check: CheckView,
}

impl View for TestExpr {
    type V = TestExprView;

    open spec fn view(&self) -> TestExprView {
        TestExprView { name: self.name@, check: self.check@ }
    }
}

pub open spec fn is_digit(c: char) -> bool {
    48 <= c as u32 <= 57
}

pub open spec fn digit_value(c: char) -> int {
    c as u32 - 48
}

/// The number that a run of decimal digits writes, where the run is not
/// empty and neither the number nor the number of any of its beginnings
/// exceeds the largest 64-bit signed integer.
pub open spec fn digits_value(s: Seq<char>) -> Option<int>
    decreases s.len(),
{
    if s.len() == 0 {
        None
    } else if !is_digit(s.last()) {
        None
    } else if s.len() == 1 {
        Some(digit_value(s.last()))
    } else {
        match digits_value(s.drop_last()) {
            Some(v) => if v * 10 + digit_value(s.last()) <= i64::MAX {
                Some(v * 10 + digit_value(s.last()))
            } else {
                None
            },
            None => None,
        }
    }
}

/// The integer that `s` writes: digits, or a minus sign and digits.
pub open spec fn int_literal(s: Seq<char>) -> Option<i64> {
    if s.len() > 0 && s[0] == '-' {
        match digits_value(s.subrange(1, s.len() as int)) {
            Some(v) => Some((-v) as i64),
            None => None,
        }
    } else {
        match digits_value(s) {
            Some(v) => Some(v as i64),
            None => None,
        }
    }
}

/// The literal that `s` writes, if it writes one. Text stands between
/// single quotes and is taken as it is.
pub open spec fn operand_spec(s: Seq<char>) -> Option<OperandView> {
    if s == "null"@ {
        Some(OperandView::Null)
    } else if s == "true"@ {
        Some(OperandView::Bool(true))
    } else if s == "false"@ {
        Some(OperandView::Bool(false))
    } else if s.len() >= 2 && s[0] == '\'' && s.last() == '\'' {
        Some(OperandView::Str(s.subrange(1, s.len() - 1)))
    } else {
        match int_literal(s) {
            Some(i) => Some(OperandView::Int(i)),
            None => None,
        }
    }
}

/// The index of the first `==` or `!=` at or after `from`.
pub open spec fn find_op(s: Seq<char>, from: int) -> Option<int>
    decreases s.len() - from,
{
    if from < 0 || from + 1 >= s.len() {
        None
    } else if (s[from] == '=' || s[from] == '!') && s[from + 1] == '=' {
        Some(from)
    } else {
        find_op(s, from + 1)
    }
}

/// A name is not empty and holds no white space.
pub open spec fn name_ok(n: Seq<char>) -> bool {
    n.len() > 0 && forall|i: int| 0 <= i < n.len() ==> !is_space(#[trigger] n[i])
}

/// The test that `test` writes, if it writes one.
pub open spec fn parse_test_spec(test: Seq<char>) -> Option<TestExprView> {
    let t = trim_spec(test);
    match find_op(t, 0) {
        None => if name_ok(t) {
            Some(TestExprView { name: t, check: CheckView::Present })
        } else {
            None
        },
        Some(i) => {
            let name = trim_spec(t.subrange(0, i));
            let rhs = trim_spec(t.subrange(i + 2, t.len() as int));
            if !name_ok(name) {
                None
            } else {
                match operand_spec(rhs) {
                    None => None,
                    Some(op) => Some(
                        TestExprView {
                            name,
                            check: if t[i] == '=' {
                                CheckView::Equals(op)
                            } else {
                                CheckView::Differs(op)
                            },
                        },
                    ),
                }
            }
        },
    }
}

fn digit(c: char) -> (r: bool)
    ensures
        r == is_digit(c),
{
    let n = c as u32;
    48 <= n && n <= 57
}

fn parse_digits(s: &Vec<char>, from: usize) -> (r: Option<i64>)
    requires
        from <= s@.len(),
    ensures
        match r {
            Some(v) => v >= 0 && digits_value(s@.subrange(from as int, s@.len() as int)) == Some(
                v as int,
            ),
            None => digits_value(s@.subrange(from as int, s@.len() as int)) is None,
        },
{
    let ghost run = s@.subrange(from as int, s@.len() as int);
    if from >= s.len() {
        return None;
    }
    if !digit(s[from]) {
        proof {
            lemma_digits_need_digits(run, 0);
        }
        return None;
    }
    let mut acc: i64 = (s[from] as u32 - 48) as i64;
    let mut i: usize = from + 1;
    proof {
        assert(run.take(1).last() == s@[from as int]);
    }
    while i < s.len()
        invariant
            from < i <= s@.len(),
            run == s@.subrange(from as int, s@.len() as int),
            0 <= acc,
            digits_value(run.take(i - from)) == Some(acc as int),
        decreases s@.len() - i,
    {
        let ghost k = i - from;
        proof {
            assert(run.take(k + 1).drop_last() =~= run.take(k));
            assert(run.take(k + 1).last() == s@[i as int]);
        }
        if !digit(s[i]) {
            proof {
                lemma_digits_need_digits(run, k);
            }
            return None;
        }
        let d: i64 = (s[i] as u32 - 48) as i64;
        if acc > (i64::MAX - d) / 10 {
            proof {
                lemma_digits_stay_none(run, k + 1);
            }
            return None;
        }
        acc = acc * 10 + d;
        i += 1;
    }
    proof {
        assert(run.take(run.len() as int) =~= run);
    }
    Some(acc)
}

/// A run with a character that is no digit writes no number.
proof fn lemma_digits_need_digits(s: Seq<char>, at: int)
    requires
        0 <= at < s.len(),
        !is_digit(s[at]),
    ensures
        digits_value(s) is None,
    decreases s.len(),
{
    if at < s.len() - 1 {
        lemma_digits_need_digits(s.drop_last(), at);
    }
}

/// Where a beginning of a run writes no number, the run writes none.
proof fn lemma_digits_stay_none(s: Seq<char>, k: int)
    requires
        0 < k <= s.len(),
        digits_value(s.take(k)) is None,
    ensures
        digits_value(s) is None,
    decreases s.len(),
{
    if k < s.len() {
        assert(s.drop_last().take(k) =~= s.take(k));
        lemma_digits_stay_none(s.drop_last(), k);
    } else {
        assert(s.take(k) =~= s);
    }
}

fn parse_int(s: &Vec<char>) -> (r: Option<i64>)
    ensures
        r == int_literal(s@),
{
    if s.len() > 0 && s[0] == '-' {
        match parse_digits(s, 1) {
            Some(v) => Some(-v),
            None => None,
        }
    } else {
        proof {
            assert(s@.subrange(0, s@.len() as int) =~= s@);
        }
        parse_digits(s, 0)
    }
}

fn parse_operand(s: &Vec<char>) -> (r: Option<Operand>)
    ensures
        match r {
            Some(op) => operand_spec(s@) == Some(op@),
            None => operand_spec(s@) is None,
        },
{
    if chars_eq(s, "null") {
        Some(Operand::Null)
    } else if chars_eq(s, "true") {
        Some(Operand::Bool(true))
    } else if chars_eq(s, "false") {
        Some(Operand::Bool(false))
    } else if s.len() >= 2 && s[0] == '\'' && s[s.len() - 1] == '\'' {
        Some(Operand::Str(string_of(s, 1, s.len() - 1)))
    } else {
        match parse_int(s) {
            Some(i) => Some(Operand::Int(i)),
            None => None,
        }
    }
}

fn locate_op(s: &Vec<char>) -> (r: Option<usize>)
    ensures
        match r {
            Some(i) => find_op(s@, 0) == Some(i as int) && i + 1 < s@.len(),
            None => find_op(s@, 0) is None,
        },
{
    let n = s.len();
    if n < 2 {
        return None;
    }
    let mut i: usize = 0;
    while i < n - 1
        invariant
            n == s@.len(),
            n >= 2,
            i <= n - 1,
            find_op(s@, 0) == find_op(s@, i as int),
        decreases n - i,
    {
        if (s[i] == '=' || s[i] == '!') && s[i + 1] == '=' {
            return Some(i);
        }
        i += 1;
    }
    None
}

fn check_name(n: &Vec<char>) -> (r: bool)
    ensures
        r == name_ok(n@),
{
    if n.len() == 0 {
        return false;
    }
    let mut i: usize = 0;
    while i < n.len()
        invariant
            i <= n@.len(),
            forall|j: int| 0 <= j < i ==> !is_space(#[trigger] n@[j]),
        decreases n@.len() - i,
    {
        if space(n[i]) {
            return false;
        }
        i += 1;
    }
    true
}

/// Parses a test: see [`parse_test_spec`].
pub fn parse_test(test: &str) -> (r: Option<TestExpr>)
    ensures
        match r {
            Some(e) => parse_test_spec(test@) == Some(e@),
            None => parse_test_spec(test@) is None,
        },
{
    let raw = chars_of(test);
    let t = trim(&raw);
    match locate_op(&t) {
        None => {
            if check_name(&t) {
                proof {
                    assert(t@.subrange(0, t@.len() as int) =~= t@);
                }
                Some(TestExpr { name: string_of(&t, 0, t.len()), check: Check::Present })
            } else {
                None
            }
        },
        Some(i) => {
            let left = subvec(&t, 0, i);
            let right = subvec(&t, i + 2, t.len());
            let name = trim(&left);
            let rhs = trim(&right);
            if !check_name(&name) {
                return None;
            }
            match parse_operand(&rhs) {
                None => None,
                Some(op) => {
                    proof {
                        assert(name@.subrange(0, name@.len() as int) =~= name@);
                    }
                    let name = string_of(&name, 0, name.len());
                    if t[i] == '=' {
                        Some(TestExpr { name, check: Check::Equals(op) })
                    } else {
                        Some(TestExpr { name, check: Check::Differs(op) })
                    }
                },
            }
        },
    }
}

/// Whether `v` equals the literal: the null equals the null literal; a
/// boolean, an integer of any width and a string equal the literal of
/// their kind that has their value; nothing else equals anything.
pub open spec fn equals_spec(op: OperandView, v: Value) -> bool {
    match op {
        OperandView::Null => v is Null,
        OperandView::Bool(b) => v == Value::Bool(b),
        OperandView::Int(i) => match v {
            Value::I16(x) => x == i,
            Value::I32(x) => x == i,
            Value::I64(x) => x == i,
            Value::U8(x) => x == i,
            _ => false,
        },
        OperandView::Str(s) => v is Str && v->Str_0@ == s,
    }
}

/// Whether the check holds of the value that the variable names.
pub open spec fn eval_spec(check: CheckView, v: Value) -> bool {
    match check {
        CheckView::Present => !(v is Null),
        CheckView::Equals(op) => equals_spec(op, v),
        CheckView::Differs(op) => !equals_spec(op, v),
    }
}

fn equals(op: &Operand, v: &Value) -> (r: bool)
    ensures
        r == equals_spec(op@, *v),
{
    match op {
        Operand::Null => v.is_null(),
        Operand::Bool(b) => match v {
            Value::Bool(x) => *x == *b,
            _ => false,
        },
        Operand::Int(i) => match v {
            Value::I16(x) => *x as i64 == *i,
            Value::I32(x) => *x as i64 == *i,
            Value::I64(x) => *x == *i,
            Value::U8(x) => *x as i64 == *i,
            _ => false,
        },
        Operand::Str(s) => match v {
            Value::Str(x) => str_eq(x.as_str(), s.as_str()),
            _ => false,
        },
    }
}

/// Evaluates a check against the value that its variable names.
pub fn eval_test(check: &Check, v: &Value) -> (r: bool)
    ensures
        r == eval_spec(check@, *v),
{
    match check {
        Check::Present => !v.is_null(),
        Check::Equals(op) => equals(op, v),
        Check::Differs(op) => !equals(op, v),
    }
}

} // verus!
