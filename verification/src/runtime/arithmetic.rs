//! Arithmetic and comparison of values.

use crate::errors::{mismatch, outcome, ErrorModel, RuntimeError};
use crate::float_bits::{float_equal, is_zero, negated};
use crate::runtime::float_unit::{ArithOp, Evaluated, EvaluatedModel, FloatRequest, Number, OrderOp, RequestModel};
use crate::values::{kind_of, lemma_array_model, models, type_label, Value, ValueModel};
use vstd::prelude::*;

verus! {

/// Two to the power 64.
pub open spec fn two_64() -> int {
    0x1_0000_0000_0000_0000
}

/// The 64-bit two's complement number congruent to `x` modulo `2^64`: what a
/// signed 64-bit register holds after computing `x`.
pub open spec fn wrap64(x: int) -> i64 {
    if x % two_64() > i64::MAX {
        (x % two_64() - two_64()) as i64
    } else {
        (x % two_64()) as i64
    }
}

/// The quotient of `a` by `b` rounded towards zero, for `b != 0`.
pub open spec fn truncated_quotient(a: int, b: int) -> int {
    if a >= 0 && b > 0 {
        a / b
    } else if a < 0 && b < 0 {
        (-a) / (-b)
    } else if a < 0 {
        -((-a) / b)
    } else {
        -(a / (-b))
    }
}

/// The remainder that goes with [`truncated_quotient`]; it has the sign of `a`.
pub open spec fn truncated_remainder(a: int, b: int) -> int {
    if a >= 0 && b > 0 {
        a % b
    } else if a < 0 && b < 0 {
        -((-a) % (-b))
    } else if a < 0 {
        -((-a) % b)
    } else {
        a % (-b)
    }
}

/// Quotient and remainder fit together: `a == b * q + r`, and the remainder
/// is smaller than the divisor and has the sign of `a`.
pub proof fn lemma_quotient_remainder(a: int, b: int)
    requires
        b != 0,
    ensures
        a == b * truncated_quotient(a, b) + truncated_remainder(a, b),
        a >= 0 ==> 0 <= truncated_remainder(a, b),
        a <= 0 ==> truncated_remainder(a, b) <= 0,
        b > 0 ==> -b < truncated_remainder(a, b) < b,
        b < 0 ==> b < truncated_remainder(a, b) < -b,
{
    let x = if a >= 0 { a } else { -a };
    let d = if b > 0 { b } else { -b };
    vstd::arithmetic::div_mod::lemma_fundamental_div_mod(x, d);
    vstd::arithmetic::div_mod::lemma_mod_bound(x, d);
    let q = x / d;
    assert(b * (-q) == -(b * q)) by (nonlinear_arith);
    assert((-b) * q == -(b * q)) by (nonlinear_arith);
    assert((-b) * (-q) == b * q) by (nonlinear_arith);
}

/// Whether the value is an integer or a float.
pub open spec fn is_number(v: ValueModel) -> bool {
    v is Int || v is Float
}

/// The numeric operand that a number value stands for.
pub open spec fn as_number(v: ValueModel) -> Number {
    match v {
        ValueModel::Int(n) => Number::Int(n),
        ValueModel::Float(bits) => Number::Float(bits),
        _ => Number::Int(0),
    }
}

/// Whether the operand is zero: the integer zero, or either float zero.
pub open spec fn number_is_zero(n: Number) -> bool {
    match n {
        Number::Int(i) => i == 0,
        Number::Float(bits) => is_zero(bits),
    }
}

/// The error for an operation on numbers that met something else: it reports
/// the type of the left operand if that is no number, else of the right one.
pub open spec fn not_a_number(l: ValueModel, r: ValueModel) -> ErrorModel {
    mismatch("number"@, type_label(kind_of(if is_number(l) { r } else { l })))
}

/// Arithmetic on two integers, in 64-bit two's complement: sums, differences
/// and products wrap; quotients round towards zero and remainders take the
/// sign of the dividend; a zero divisor is an error.
pub open spec fn int_arithmetic(op: ArithOp, a: i64, b: i64) -> Result<i64, ErrorModel> {
    match op {
        ArithOp::Add => Ok(wrap64(a + b)),
        ArithOp::Sub => Ok(wrap64(a - b)),
        ArithOp::Mul => Ok(wrap64(a * b)),
        ArithOp::Div => if b == 0 {
            Err(ErrorModel::DivisionByZero)
        } else {
            Ok(wrap64(truncated_quotient(a as int, b as int)))
        },
        ArithOp::Mod => if b == 0 {
            Err(ErrorModel::DivisionByZero)
        } else {
            Ok(wrap64(truncated_remainder(a as int, b as int)))
        },
    }
}

/// An arithmetic operation on two values. Two integers are computed at once.
/// With a float on either side the work goes to the host, after the test for
/// a zero divisor. Anything but a number is a type mismatch.
pub open spec fn arithmetic(op: ArithOp, l: ValueModel, r: ValueModel) -> Result<
    EvaluatedModel,
    ErrorModel,
> {
    if !is_number(l) || !is_number(r) {
        Err(not_a_number(l, r))
    } else if l is Int && r is Int {
        match int_arithmetic(op, l->Int_0, r->Int_0) {
            Ok(n) => Ok(EvaluatedModel::Ready(ValueModel::Int(n))),
            Err(e) => Err(e),
        }
    } else if (op == ArithOp::Div || op == ArithOp::Mod) && number_is_zero(as_number(r)) {
        Err(ErrorModel::DivisionByZero)
    } else {
        Ok(
            EvaluatedModel::Deferred(
                RequestModel::Arithmetic { op, left: as_number(l), right: as_number(r) },
            ),
        )
    }
}

/// Arithmetic negation: an integer wraps, a float flips its sign bit.
pub open spec fn negation(v: ValueModel) -> Result<ValueModel, ErrorModel> {
    match v {
        ValueModel::Int(n) => Ok(ValueModel::Int(wrap64(-n))),
        ValueModel::Float(bits) => Ok(ValueModel::Float(negated(bits))),
        _ => Err(mismatch("number"@, type_label(kind_of(v)))),
    }
}

/// Whether `relation` holds of two integers.
pub open spec fn int_order(relation: OrderOp, a: i64, b: i64) -> bool {
    match relation {
        OrderOp::Lt => a < b,
        OrderOp::Gt => a > b,
        OrderOp::Lte => a <= b,
        OrderOp::Gte => a >= b,
    }
}

/// An ordering comparison of two values: decided at once for two integers,
/// left to the host with a float on either side, a type mismatch otherwise.
pub open spec fn ordering(relation: OrderOp, l: ValueModel, r: ValueModel) -> Result<
    EvaluatedModel,
    ErrorModel,
> {
    if !is_number(l) || !is_number(r) {
        Err(not_a_number(l, r))
    } else if l is Int && r is Int {
        Ok(EvaluatedModel::Ready(ValueModel::Bool(int_order(relation, l->Int_0, r->Int_0))))
    } else {
        Ok(
            EvaluatedModel::Deferred(
                RequestModel::Compare { relation, left: as_number(l), right: as_number(r) },
            ),
        )
    }
}

/// Equality of two values. Values of different kinds are never equal, and an
/// integer is never equal to a float. Floats are equal as IEEE says, strings
/// and URLs by their text, functions by name and entry, arrays element by
/// element.
pub open spec fn values_equal(l: ValueModel, r: ValueModel) -> bool
    decreases l,
{
    match (l, r) {
        (ValueModel::Empty, ValueModel::Empty) => true,
        (ValueModel::Bool(a), ValueModel::Bool(b)) => a == b,
        (ValueModel::Int(a), ValueModel::Int(b)) => a == b,
        (ValueModel::Float(a), ValueModel::Float(b)) => float_equal(a, b),
        (ValueModel::Str(a), ValueModel::Str(b)) => a == b,
        (ValueModel::Url(a), ValueModel::Url(b)) => a == b,
        (
            ValueModel::Function { name: n1, entry: e1 },
            ValueModel::Function { name: n2, entry: e2 },
        ) => n1 == n2 && e1 == e2,
        (ValueModel::Array(a), ValueModel::Array(b)) => a.len() == b.len() && forall|i: int|
            0 <= i < a.len() ==> values_equal(#[trigger] a[i], b[i]),
        _ => false,
    }
}

/// Wrapping addition is addition modulo `2^64`.
proof fn lemma_wrapping(a: i64, b: i64)
    ensures
        a.wrapping_add(b) == wrap64(a + b),
        a.wrapping_sub(b) == wrap64(a - b),
        a.wrapping_mul(b) == wrap64(a * b),
{
}

/// Where the exact result fits in 64 bits, wrapping changes nothing.
pub proof fn lemma_wrap64_exact(x: int)
    requires
        i64::MIN <= x <= i64::MAX,
    ensures
        wrap64(x) == x,
{
    if x >= 0 {
        vstd::arithmetic::div_mod::lemma_small_mod(x as nat, two_64() as nat);
    } else {
        vstd::arithmetic::div_mod::lemma_mod_add_multiples_vanish(x, two_64());
        vstd::arithmetic::div_mod::lemma_small_mod((x + two_64()) as nat, two_64() as nat);
    }
}

/// The exact result of adding, subtracting or multiplying two integers.
pub open spec fn exact_result(op: ArithOp, a: int, b: int) -> int {
    match op {
        ArithOp::Add => a + b,
        ArithOp::Sub => a - b,
        _ => a * b,
    }
}

/// Adding, subtracting and multiplying two integers never fails and gives what
/// a signed 64-bit machine gives: the exact result where it fits in 64 bits,
/// and in every case the 64-bit number congruent to it modulo `2^64`.
pub proof fn lemma_integer_arithmetic_is_native(op: ArithOp, a: i64, b: i64)
    requires
        op == ArithOp::Add || op == ArithOp::Sub || op == ArithOp::Mul,
    ensures
        arithmetic(op, ValueModel::Int(a), ValueModel::Int(b)) == Ok::<EvaluatedModel, ErrorModel>(
            EvaluatedModel::Ready(ValueModel::Int(wrap64(exact_result(op, a as int, b as int)))),
        ),
        i64::MIN <= exact_result(op, a as int, b as int) <= i64::MAX ==> wrap64(
            exact_result(op, a as int, b as int),
        ) == exact_result(op, a as int, b as int),
        (wrap64(exact_result(op, a as int, b as int)) - exact_result(op, a as int, b as int))
            % two_64() == 0,
{
    let x = exact_result(op, a as int, b as int);
    if i64::MIN <= x <= i64::MAX {
        lemma_wrap64_exact(x);
    }
    vstd::arithmetic::div_mod::lemma_fundamental_div_mod(x, two_64());
    let q = x / two_64();
    if x % two_64() > i64::MAX {
        assert(wrap64(x) - x == two_64() * (-q - 1)) by (nonlinear_arith)
            requires
                wrap64(x) == x % two_64() - two_64(),
                x == two_64() * q + x % two_64(),
        ;
        vstd::arithmetic::div_mod::lemma_mod_multiples_basic(-q - 1, two_64());
        assert(two_64() * (-q - 1) == (-q - 1) * two_64()) by (nonlinear_arith);
    } else {
        assert(wrap64(x) - x == two_64() * (-q)) by (nonlinear_arith)
            requires
                wrap64(x) == x % two_64(),
                x == two_64() * q + x % two_64(),
        ;
        vstd::arithmetic::div_mod::lemma_mod_multiples_basic(-q, two_64());
        assert(two_64() * (-q) == (-q) * two_64()) by (nonlinear_arith);
    }
}

/// Dividing by zero, or taking a remainder by zero, is always the
/// zero-division error, whether the operands are integers or floats.
pub proof fn lemma_zero_divisor_is_an_error(op: ArithOp, l: ValueModel, r: ValueModel)
    requires
        op == ArithOp::Div || op == ArithOp::Mod,
        is_number(l),
        is_number(r),
        number_is_zero(as_number(r)),
    ensures
        arithmetic(op, l, r) == Err::<EvaluatedModel, ErrorModel>(ErrorModel::DivisionByZero),
{
}

fn number_of(v: &Value) -> (r: Option<Number>)
    ensures
        r is Some == is_number(v@),
        r is Some ==> r->0 == as_number(v@),
{
    match v {
        Value::Int(n) => Some(Number::Int(*n)),
        Value::Float(bits) => Some(Number::Float(*bits)),
        _ => None,
    }
}

fn zero_number(n: Number) -> (r: bool)
    ensures
        r == number_is_zero(n),
{
    match n {
        Number::Int(i) => i == 0,
        Number::Float(bits) => crate::float_bits::zero(bits),
    }
}

fn operand_error(l: &Value, r: &Value) -> (e: RuntimeError)
    ensures
        e@ == not_a_number(l@, r@),
{
    let found = match l {
        Value::Int(_) => r.type_of().name(),
        Value::Float(_) => r.type_of().name(),
        _ => l.type_of().name(),
    };
    RuntimeError::type_mismatch("number", found)
}

fn quotient(a: i64, b: i64) -> (q: i64)
    requires
        b != 0,
    ensures
        q == wrap64(truncated_quotient(a as int, b as int)),
{
    match a.checked_div(b) {
        Some(q) => q,
        None => i64::MIN,
    }
}

fn remainder(a: i64, b: i64) -> (r: i64)
    requires
        b != 0,
    ensures
        r == wrap64(truncated_remainder(a as int, b as int)),
{
    match a.checked_rem(b) {
        Some(r) => r,
        None => 0,
    }
}

fn int_compute(op: ArithOp, a: i64, b: i64) -> (r: Result<i64, RuntimeError>)
    ensures
        outcome(r) == int_arithmetic(op, a, b),
{
    match op {
        ArithOp::Add => {
            proof {
                lemma_wrapping(a, b);
            }
            Ok(a.wrapping_add(b))
        },
        ArithOp::Sub => {
            proof {
                lemma_wrapping(a, b);
            }
            Ok(a.wrapping_sub(b))
        },
        ArithOp::Mul => {
            proof {
                lemma_wrapping(a, b);
            }
            Ok(a.wrapping_mul(b))
        },
        ArithOp::Div => if b == 0 {
            Err(RuntimeError::DivisionByZero)
        } else {
            Ok(quotient(a, b))
        },
        ArithOp::Mod => if b == 0 {
            Err(RuntimeError::DivisionByZero)
        } else {
            Ok(remainder(a, b))
        },
    }
}

/// Arithmetic and comparison over values.
pub struct ArithmeticOps;

impl ArithmeticOps {
    /// Applies `op` to two values; see [`arithmetic`].
    pub fn apply(op: ArithOp, l: &Value, r: &Value) -> (res: Result<Evaluated, RuntimeError>)
        ensures
            outcome(res) == arithmetic(op, l@, r@),
    {
        match (number_of(l), number_of(r)) {
            (Some(Number::Int(a)), Some(Number::Int(b))) => {
                match int_compute(op, a, b) {
                    Ok(n) => Ok(Evaluated::Ready(Value::Int(n))),
                    Err(e) => Err(e),
                }
            },
            (Some(left), Some(right)) => {
                let divides = match op {
                    ArithOp::Div => true,
                    ArithOp::Mod => true,
                    _ => false,
                };
                if divides && zero_number(right) {
                    Err(RuntimeError::DivisionByZero)
                } else {
                    Ok(Evaluated::Deferred(FloatRequest::Arithmetic { op, left, right }))
                }
            },
            _ => Err(operand_error(l, r)),
        }
    }

    /// The sum of two numbers.
    pub fn add(l: &Value, r: &Value) -> (res: Result<Evaluated, RuntimeError>)
        ensures
            outcome(res) == arithmetic(ArithOp::Add, l@, r@),
    {
        Self::apply(ArithOp::Add, l, r)
    }

    /// The difference of two numbers.
    pub fn sub(l: &Value, r: &Value) -> (res: Result<Evaluated, RuntimeError>)
        ensures
            outcome(res) == arithmetic(ArithOp::Sub, l@, r@),
    {
        Self::apply(ArithOp::Sub, l, r)
    }

    /// The product of two numbers.
    pub fn mul(l: &Value, r: &Value) -> (res: Result<Evaluated, RuntimeError>)
        ensures
            outcome(res) == arithmetic(ArithOp::Mul, l@, r@),
    {
        Self::apply(ArithOp::Mul, l, r)
    }

    /// The quotient of two numbers; a zero divisor is an error.
    pub fn div(l: &Value, r: &Value) -> (res: Result<Evaluated, RuntimeError>)
        ensures
            outcome(res) == arithmetic(ArithOp::Div, l@, r@),
    {
        Self::apply(ArithOp::Div, l, r)
    }

    /// The remainder of two numbers; a zero divisor is an error.
    pub fn modulo(l: &Value, r: &Value) -> (res: Result<Evaluated, RuntimeError>)
        ensures
            outcome(res) == arithmetic(ArithOp::Mod, l@, r@),
    {
        Self::apply(ArithOp::Mod, l, r)
    }

    /// The negation of a number; see [`negation`].
    pub fn negate(v: &Value) -> (res: Result<Value, RuntimeError>)
        ensures
            outcome(res) == negation(v@),
    {
        match v {
            Value::Int(n) => {
                proof {
                    lemma_wrapping(0, *n);
                }
                Ok(Value::Int(0i64.wrapping_sub(*n)))
            },
            Value::Float(bits) => Ok(Value::Float(crate::float_bits::negate(*bits))),
            _ => Err(RuntimeError::type_mismatch("number", v.type_of().name())),
        }
    }

    /// Decides an ordering relation of two numbers; see [`ordering`].
    pub fn compare(relation: OrderOp, l: &Value, r: &Value) -> (res: Result<
        Evaluated,
        RuntimeError,
    >)
        ensures
            outcome(res) == ordering(relation, l@, r@),
    {
        match (number_of(l), number_of(r)) {
            (Some(Number::Int(a)), Some(Number::Int(b))) => {
                let holds = match relation {
                    OrderOp::Lt => a < b,
                    OrderOp::Gt => a > b,
                    OrderOp::Lte => a <= b,
                    OrderOp::Gte => a >= b,
                };
                Ok(Evaluated::Ready(Value::Bool(holds)))
            },
            (Some(left), Some(right)) => Ok(
                Evaluated::Deferred(FloatRequest::Compare { relation, left, right }),
            ),
            _ => Err(operand_error(l, r)),
        }
    }

    /// Whether the left number is less than the right one.
    pub fn lt(l: &Value, r: &Value) -> (res: Result<Evaluated, RuntimeError>)
        ensures
            outcome(res) == ordering(OrderOp::Lt, l@, r@),
    {
        Self::compare(OrderOp::Lt, l, r)
    }

    /// Whether the left number is greater than the right one.
    pub fn gt(l: &Value, r: &Value) -> (res: Result<Evaluated, RuntimeError>)
        ensures
            outcome(res) == ordering(OrderOp::Gt, l@, r@),
    {
        Self::compare(OrderOp::Gt, l, r)
    }

    /// Whether the left number is at most the right one.
    pub fn lte(l: &Value, r: &Value) -> (res: Result<Evaluated, RuntimeError>)
        ensures
            outcome(res) == ordering(OrderOp::Lte, l@, r@),
    {
        Self::compare(OrderOp::Lte, l, r)
    }

    /// Whether the left number is at least the right one.
    pub fn gte(l: &Value, r: &Value) -> (res: Result<Evaluated, RuntimeError>)
        ensures
            outcome(res) == ordering(OrderOp::Gte, l@, r@),
    {
        Self::compare(OrderOp::Gte, l, r)
    }

    /// Whether two values are equal; see [`values_equal`]. Never fails.
    pub fn eq(l: &Value, r: &Value) -> (res: bool)
        ensures
            res == values_equal(l@, r@),
        decreases l,
    {
        match (l, r) {
            (Value::Empty, Value::Empty) => true,
            (Value::Bool(a), Value::Bool(b)) => *a == *b,
            (Value::Int(a), Value::Int(b)) => *a == *b,
            (Value::Float(a), Value::Float(b)) => crate::float_bits::equal(*a, *b),
            (Value::String(a), Value::String(b)) => **a == **b,
            (Value::URL(a), Value::URL(b)) => **a == **b,
            (Value::Function(f), Value::Function(g)) => f.name == g.name && f.entry == g.entry,
            (Value::Array(a), Value::Array(b)) => {
                if a.len() != b.len() {
                    return false;
                }
                let n = a.len();
                let mut i: usize = 0;
                while i < n
                    invariant
                        i <= n,
                        n == a@.len(),
                        n == b@.len(),
                        *l == Value::Array(*a),
                        *r == Value::Array(*b),
                        forall|k: int| 0 <= k < i ==> values_equal(#[trigger] a@[k]@, b@[k]@),
                    decreases n - i,
                {
                    proof {
                        lemma_array_model(*a);
                        lemma_array_model(*b);
                    }
                    if !Self::eq(&a[i], &b[i]) {
                        assert(!values_equal(models(a@)[i as int], models(b@)[i as int]));
                        return false;
                    }
                    i += 1;
                }
                proof {
                    lemma_array_model(*a);
                    lemma_array_model(*b);
                    assert forall|k: int| 0 <= k < n implies values_equal(
                        #[trigger] models(a@)[k],
                        models(b@)[k],
                    ) by {}
                }
                true
            },
            _ => false,
        }
    }

    /// Whether two values differ: the negation of [`ArithmeticOps::eq`].
    pub fn neq(l: &Value, r: &Value) -> (res: bool)
        ensures
            res == !values_equal(l@, r@),
    {
        !Self::eq(l, r)
    }
}

} // verus!
