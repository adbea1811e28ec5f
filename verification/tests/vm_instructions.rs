use machine_dialect::constants::ConstantValue;
use machine_dialect::errors::RuntimeError;
use machine_dialect::instructions::{AssertType, Instruction};
use machine_dialect::loader::BytecodeModule;
use machine_dialect::runtime::float_unit::{ArithOp, FloatReply, FloatRequest, Number, OrderOp};
use machine_dialect::values::{FunctionRef, Type, Value};
use machine_dialect::vm::engine::{OutputEvent, VM};

fn machine_loaded_with(constants: Vec<ConstantValue>, instructions: Vec<Instruction>) -> VM {
    let mut module = BytecodeModule::new("main".to_string());
    for constant in constants {
        module.constants.add(constant).unwrap();
    }
    module.instructions = instructions;
    let mut vm = VM::new();
    vm.load_module(module, None).unwrap();
    vm
}

fn single(instruction: Instruction) -> VM {
    machine_loaded_with(Vec::new(), vec![instruction])
}

fn bits(x: f64) -> u64 {
    x.to_bits()
}

fn number(n: &Number) -> f64 {
    match n {
        Number::Int(i) => *i as f64,
        Number::Float(b) => f64::from_bits(*b),
    }
}

fn host(request: &FloatRequest) -> FloatReply {
    match request {
        FloatRequest::Arithmetic { op, left, right } => {
            let (l, r) = (number(left), number(right));
            FloatReply::Bits(bits(match op {
                ArithOp::Add => l + r,
                ArithOp::Sub => l - r,
                ArithOp::Mul => l * r,
                ArithOp::Div => l / r,
                ArithOp::Mod => l % r,
            }))
        }
        FloatRequest::Compare { relation, left, right } => {
            let (l, r) = (number(left), number(right));
            FloatReply::Flag(match relation {
                OrderOp::Lt => l < r,
                OrderOp::Gt => l > r,
                OrderOp::Lte => l <= r,
                OrderOp::Gte => l >= r,
            })
        }
        FloatRequest::FromInt(n) => FloatReply::Bits(bits(*n as f64)),
        FloatRequest::ToInt(b) => FloatReply::Int(f64::from_bits(*b) as i64),
        FloatRequest::Parse(text) => match text.parse::<f64>() {
            Ok(x) => FloatReply::Bits(bits(x)),
            Err(_) => FloatReply::Invalid,
        },
        FloatRequest::Format(b) => FloatReply::Text(format!("{}", f64::from_bits(*b))),
        FloatRequest::Render(value) => FloatReply::Text(text(value)),
    }
}

fn text(value: &Value) -> String {
    match value {
        Value::Empty => String::new(),
        Value::Bool(b) => b.to_string(),
        Value::Int(i) => i.to_string(),
        Value::Float(b) => f64::from_bits(*b).to_string(),
        Value::String(s) => s.to_string(),
        Value::URL(u) => u.to_string(),
        Value::Function(f) => format!("function<{}>", f.name),
        Value::Array(items) => {
            let shown: Vec<String> = items.iter().map(text).collect();
            format!("[{}]", shown.join(", "))
        }
    }
}

fn run_with_host(vm: &mut VM) -> Result<Option<Value>, RuntimeError> {
    let mut last = None;
    loop {
        if let Some(value) = vm.run()? {
            last = Some(value);
        }
        let reply = match vm.float_request() {
            Some(request) => host(request),
            None => return Ok(last),
        };
        vm.resume(reply)?;
    }
}

fn binary(op: fn(u8, u8, u8) -> Instruction, left: Value, right: Value) -> Result<Value, RuntimeError> {
    let mut vm = single(op(2, 0, 1));
    vm.registers.set(0, left);
    vm.registers.set(1, right);
    run_with_host(&mut vm)?;
    Ok(vm.registers.get(2).clone())
}

fn add(dst: u8, left: u8, right: u8) -> Instruction {
    Instruction::AddR { dst, left, right }
}

fn sub(dst: u8, left: u8, right: u8) -> Instruction {
    Instruction::SubR { dst, left, right }
}

fn mul(dst: u8, left: u8, right: u8) -> Instruction {
    Instruction::MulR { dst, left, right }
}

fn div(dst: u8, left: u8, right: u8) -> Instruction {
    Instruction::DivR { dst, left, right }
}

fn rem(dst: u8, left: u8, right: u8) -> Instruction {
    Instruction::ModR { dst, left, right }
}

fn mismatch(expected: &str, found: &str) -> RuntimeError {
    RuntimeError::TypeMismatch { expected: expected.to_string(), found: found.to_string() }
}

#[test]
fn integer_arithmetic_is_exact_where_it_fits() {
    assert_eq!(binary(add, Value::Int(40), Value::Int(2)), Ok(Value::Int(42)));
    assert_eq!(binary(sub, Value::Int(40), Value::Int(42)), Ok(Value::Int(-2)));
    assert_eq!(binary(mul, Value::Int(-6), Value::Int(7)), Ok(Value::Int(-42)));
    assert_eq!(binary(div, Value::Int(7), Value::Int(2)), Ok(Value::Int(3)));
    assert_eq!(binary(div, Value::Int(-7), Value::Int(2)), Ok(Value::Int(-3)));
    assert_eq!(binary(div, Value::Int(7), Value::Int(-2)), Ok(Value::Int(-3)));
    assert_eq!(binary(div, Value::Int(-7), Value::Int(-2)), Ok(Value::Int(3)));
    assert_eq!(binary(rem, Value::Int(7), Value::Int(2)), Ok(Value::Int(1)));
    assert_eq!(binary(rem, Value::Int(-7), Value::Int(2)), Ok(Value::Int(-1)));
    assert_eq!(binary(rem, Value::Int(7), Value::Int(-2)), Ok(Value::Int(1)));
    assert_eq!(binary(rem, Value::Int(-7), Value::Int(-2)), Ok(Value::Int(-1)));
}

#[test]
fn integer_arithmetic_wraps_like_a_64_bit_machine() {
    assert_eq!(binary(add, Value::Int(i64::MAX), Value::Int(1)), Ok(Value::Int(i64::MIN)));
    assert_eq!(binary(sub, Value::Int(i64::MIN), Value::Int(1)), Ok(Value::Int(i64::MAX)));
    assert_eq!(
        binary(mul, Value::Int(i64::MAX), Value::Int(2)),
        Ok(Value::Int(i64::MAX.wrapping_mul(2)))
    );
    assert_eq!(binary(mul, Value::Int(i64::MAX), Value::Int(2)), Ok(Value::Int(-2)));
    assert_eq!(binary(div, Value::Int(i64::MIN), Value::Int(-1)), Ok(Value::Int(i64::MIN)));
    assert_eq!(binary(rem, Value::Int(i64::MIN), Value::Int(-1)), Ok(Value::Int(0)));
}

#[test]
fn division_by_zero_is_a_typed_error_for_integers_and_floats() {
    for op in [div, rem] {
        assert_eq!(binary(op, Value::Int(1), Value::Int(0)), Err(RuntimeError::DivisionByZero));
        assert_eq!(
            binary(op, Value::Float(bits(1.5)), Value::Float(bits(0.0))),
            Err(RuntimeError::DivisionByZero)
        );
        assert_eq!(
            binary(op, Value::Float(bits(1.5)), Value::Float(bits(-0.0))),
            Err(RuntimeError::DivisionByZero)
        );
        assert_eq!(
            binary(op, Value::Int(3), Value::Float(bits(0.0))),
            Err(RuntimeError::DivisionByZero)
        );
        assert_eq!(
            binary(op, Value::Float(bits(3.0)), Value::Int(0)),
            Err(RuntimeError::DivisionByZero)
        );
    }
}

#[test]
fn float_arithmetic_goes_through_the_host() {
    assert_eq!(
        binary(add, Value::Float(bits(1.5)), Value::Float(bits(2.25))),
        Ok(Value::Float(bits(3.75)))
    );
    assert_eq!(binary(add, Value::Int(2), Value::Float(bits(1.5))), Ok(Value::Float(bits(3.5))));
    assert_eq!(binary(sub, Value::Float(bits(1.5)), Value::Int(2)), Ok(Value::Float(bits(-0.5))));
    assert_eq!(
        binary(mul, Value::Float(bits(1.5)), Value::Float(bits(4.0))),
        Ok(Value::Float(bits(6.0)))
    );
    assert_eq!(
        binary(div, Value::Float(bits(1.0)), Value::Float(bits(4.0))),
        Ok(Value::Float(bits(0.25)))
    );
    assert_eq!(
        binary(rem, Value::Float(bits(5.5)), Value::Int(2)),
        Ok(Value::Float(bits(1.5)))
    );
}

#[test]
fn float_operation_suspends_the_machine_until_the_host_replies() {
    let mut vm = machine_loaded_with(
        Vec::new(),
        vec![Instruction::AddR { dst: 2, left: 0, right: 1 }, Instruction::ReturnR { src: Some(2) }],
    );
    vm.registers.set(0, Value::Float(bits(1.5)));
    vm.registers.set(1, Value::Int(2));
    assert_eq!(vm.run(), Ok(None));
    assert_eq!(vm.instruction_count(), 1);
    assert_eq!(vm.state.pc, 1);
    assert!(vm.state.is_running());
    assert!(!vm.can_step());
    assert_eq!(
        vm.float_request(),
        Some(&FloatRequest::Arithmetic {
            op: ArithOp::Add,
            left: Number::Float(bits(1.5)),
            right: Number::Int(2)
        })
    );
    assert_eq!(*vm.registers.get(2), Value::Empty);
    assert_eq!(
        vm.step(),
        Err(RuntimeError::InvalidOperation {
            operation: "step".to_string(),
            detail: "a float request is pending".to_string()
        })
    );
    assert_eq!(vm.resume(FloatReply::Bits(bits(3.5))), Ok(()));
    assert_eq!(vm.float_request(), None);
    assert_eq!(*vm.registers.get(2), Value::Float(bits(3.5)));
    assert_eq!(vm.run(), Ok(Some(Value::Float(bits(3.5)))));
    assert_eq!(vm.instruction_count(), 2);
}

#[test]
fn reply_of_the_wrong_kind_fails_the_waiting_instruction() {
    let mut vm = single(Instruction::AddR { dst: 2, left: 0, right: 1 });
    vm.registers.set(0, Value::Float(bits(1.5)));
    vm.registers.set(1, Value::Int(2));
    assert_eq!(vm.run(), Ok(None));
    assert_eq!(
        vm.resume(FloatReply::Flag(true)),
        Err(RuntimeError::InvalidOperation {
            operation: "resume".to_string(),
            detail: "the reply does not answer the request".to_string()
        })
    );
    assert_eq!(vm.float_request(), None);
    assert_eq!(*vm.registers.get(2), Value::Empty);
    assert_eq!(
        vm.resume(FloatReply::Bits(0)),
        Err(RuntimeError::InvalidOperation {
            operation: "resume".to_string(),
            detail: "no float request is pending".to_string()
        })
    );
}

#[test]
fn arithmetic_on_anything_but_numbers_is_a_type_mismatch() {
    assert_eq!(
        binary(add, Value::string("42"), Value::Int(8)),
        Err(mismatch("number", "string"))
    );
    assert_eq!(binary(mul, Value::Int(8), Value::Bool(true)), Err(mismatch("number", "bool")));
    assert_eq!(binary(sub, Value::Empty, Value::Bool(true)), Err(mismatch("number", "empty")));
    assert_eq!(
        binary(div, Value::Float(0), Value::array(Vec::new())),
        Err(mismatch("number", "unknown"))
    );
}

fn unary(instruction: Instruction, operand: Value) -> Result<Value, RuntimeError> {
    let mut vm = single(instruction);
    vm.registers.set(0, operand);
    run_with_host(&mut vm)?;
    Ok(vm.registers.get(2).clone())
}

#[test]
fn negation_wraps_integers_and_flips_the_sign_of_floats() {
    let neg = || Instruction::NegR { dst: 2, src: 0 };
    assert_eq!(unary(neg(), Value::Int(5)), Ok(Value::Int(-5)));
    assert_eq!(unary(neg(), Value::Int(i64::MIN)), Ok(Value::Int(i64::MIN)));
    assert_eq!(unary(neg(), Value::Float(bits(1.5))), Ok(Value::Float(bits(-1.5))));
    assert_eq!(unary(neg(), Value::Float(bits(-0.0))), Ok(Value::Float(bits(0.0))));
    assert_eq!(unary(neg(), Value::Float(bits(0.0))), Ok(Value::Float(bits(-0.0))));
    assert_eq!(unary(neg(), Value::string("x")), Err(mismatch("number", "string")));
}

#[test]
fn truthiness_follows_one_rule_for_every_kind_of_value() {
    assert!(!Value::Empty.is_truthy());
    assert!(!Value::Bool(false).is_truthy());
    assert!(Value::Bool(true).is_truthy());
    assert!(!Value::Int(0).is_truthy());
    assert!(Value::Int(-1).is_truthy());
    assert!(!Value::Float(bits(0.0)).is_truthy());
    assert!(!Value::Float(bits(-0.0)).is_truthy());
    assert!(Value::Float(bits(0.5)).is_truthy());
    assert!(Value::Float(bits(f64::NAN)).is_truthy());
    assert!(!Value::string("").is_truthy());
    assert!(Value::string("0").is_truthy());
    assert!(!Value::array(Vec::new()).is_truthy());
    assert!(Value::array(vec![Value::Empty]).is_truthy());
    assert!(Value::Function(FunctionRef { name: "f".to_string(), entry: 0 }).is_truthy());
    assert_eq!(Value::Int(0).to_bool(), false);
}

#[test]
fn logic_works_on_truthiness_and_never_fails() {
    let not = || Instruction::NotR { dst: 2, src: 0 };
    assert_eq!(unary(not(), Value::Int(0)), Ok(Value::Bool(true)));
    assert_eq!(unary(not(), Value::string("x")), Ok(Value::Bool(false)));
    let and = |dst, left, right| Instruction::AndR { dst, left, right };
    let or = |dst, left, right| Instruction::OrR { dst, left, right };
    assert_eq!(binary(and, Value::Int(1), Value::string("x")), Ok(Value::Bool(true)));
    assert_eq!(binary(and, Value::Int(1), Value::Empty), Ok(Value::Bool(false)));
    assert_eq!(binary(or, Value::Int(0), Value::Empty), Ok(Value::Bool(false)));
    assert_eq!(binary(or, Value::Int(0), Value::Float(bits(2.0))), Ok(Value::Bool(true)));
}

#[test]
fn equality_is_total_and_values_of_different_kinds_differ() {
    let eq = |dst, left, right| Instruction::EqR { dst, left, right };
    let neq = |dst, left, right| Instruction::NeqR { dst, left, right };
    assert_eq!(binary(eq, Value::Int(1), Value::Int(1)), Ok(Value::Bool(true)));
    assert_eq!(binary(eq, Value::Int(1), Value::Float(bits(1.0))), Ok(Value::Bool(false)));
    assert_eq!(binary(neq, Value::Int(1), Value::Float(bits(1.0))), Ok(Value::Bool(true)));
    assert_eq!(binary(eq, Value::Empty, Value::Empty), Ok(Value::Bool(true)));
    assert_eq!(binary(eq, Value::Empty, Value::Bool(false)), Ok(Value::Bool(false)));
    assert_eq!(binary(eq, Value::string("a"), Value::string("a")), Ok(Value::Bool(true)));
    assert_eq!(binary(eq, Value::string("a"), Value::string("b")), Ok(Value::Bool(false)));
    assert_eq!(
        binary(eq, Value::Float(bits(f64::NAN)), Value::Float(bits(f64::NAN))),
        Ok(Value::Bool(false))
    );
    assert_eq!(
        binary(eq, Value::Float(bits(0.0)), Value::Float(bits(-0.0))),
        Ok(Value::Bool(true))
    );
    assert_eq!(
        binary(eq, Value::Float(bits(2.5)), Value::Float(bits(2.5))),
        Ok(Value::Bool(true))
    );
    assert_eq!(
        binary(
            eq,
            Value::array(vec![Value::Int(1), Value::string("x")]),
            Value::array(vec![Value::Int(1), Value::string("x")])
        ),
        Ok(Value::Bool(true))
    );
    assert_eq!(
        binary(
            eq,
            Value::array(vec![Value::Int(1), Value::string("x")]),
            Value::array(vec![Value::Int(1)])
        ),
        Ok(Value::Bool(false))
    );
    assert_eq!(
        binary(
            neq,
            Value::array(vec![Value::Float(bits(f64::NAN))]),
            Value::array(vec![Value::Float(bits(f64::NAN))])
        ),
        Ok(Value::Bool(true))
    );
}

#[test]
fn ordering_compares_numbers_and_rejects_everything_else() {
    let lt = |dst, left, right| Instruction::LtR { dst, left, right };
    let gt = |dst, left, right| Instruction::GtR { dst, left, right };
    let lte = |dst, left, right| Instruction::LteR { dst, left, right };
    let gte = |dst, left, right| Instruction::GteR { dst, left, right };
    assert_eq!(binary(lt, Value::Int(1), Value::Int(2)), Ok(Value::Bool(true)));
    assert_eq!(binary(lt, Value::Int(2), Value::Int(2)), Ok(Value::Bool(false)));
    assert_eq!(binary(lte, Value::Int(2), Value::Int(2)), Ok(Value::Bool(true)));
    assert_eq!(binary(gt, Value::Int(2), Value::Int(2)), Ok(Value::Bool(false)));
    assert_eq!(binary(gte, Value::Int(2), Value::Int(2)), Ok(Value::Bool(true)));
    assert_eq!(binary(gt, Value::Int(-1), Value::Int(-2)), Ok(Value::Bool(true)));
    assert_eq!(binary(lt, Value::Int(1), Value::Float(bits(1.5))), Ok(Value::Bool(true)));
    assert_eq!(
        binary(gte, Value::Float(bits(1.5)), Value::Float(bits(2.5))),
        Ok(Value::Bool(false))
    );
    assert_eq!(
        binary(lt, Value::string("a"), Value::string("b")),
        Err(mismatch("number", "string"))
    );
    assert_eq!(binary(gt, Value::Int(1), Value::Empty), Err(mismatch("number", "empty")));
}

#[test]
fn move_copies_a_register_and_leaves_the_source() {
    let mut vm = single(Instruction::MoveR { dst: 9, src: 0 });
    vm.registers.set(0, Value::string("text"));
    assert_eq!(vm.step(), Ok(None));
    assert_eq!(*vm.registers.get(9), Value::string("text"));
    assert_eq!(*vm.registers.get(0), Value::string("text"));
}

#[test]
fn load_const_fails_on_an_index_outside_the_pool() {
    let mut vm = machine_loaded_with(
        vec![ConstantValue::Float(bits(2.5)), ConstantValue::Bool(true), ConstantValue::Empty],
        vec![
            Instruction::LoadConstR { dst: 0, const_idx: 0 },
            Instruction::LoadConstR { dst: 1, const_idx: 1 },
            Instruction::LoadConstR { dst: 1, const_idx: 2 },
            Instruction::LoadConstR { dst: 2, const_idx: 3 },
        ],
    );
    assert_eq!(vm.run(), Err(RuntimeError::InvalidConstant(3)));
    assert_eq!(*vm.registers.get(0), Value::Float(bits(2.5)));
    assert_eq!(*vm.registers.get(1), Value::Empty);
    assert_eq!(vm.instruction_count(), 4);
}

#[test]
fn globals_are_empty_until_stored() {
    let mut vm = machine_loaded_with(
        vec![
            ConstantValue::String("x".to_string()),
            ConstantValue::String("y".to_string()),
            ConstantValue::Int(7),
        ],
        vec![
            Instruction::LoadConstR { dst: 0, const_idx: 2 },
            Instruction::LoadGlobalR { dst: 1, name_idx: 0 },
            Instruction::StoreGlobalR { src: 0, name_idx: 0 },
            Instruction::LoadGlobalR { dst: 2, name_idx: 0 },
            Instruction::LoadGlobalR { dst: 3, name_idx: 1 },
            Instruction::StoreGlobalR { src: 3, name_idx: 0 },
            Instruction::LoadGlobalR { dst: 4, name_idx: 0 },
            Instruction::LoadGlobalR { dst: 5, name_idx: 2 },
        ],
    );
    vm.registers.set(1, Value::Int(99));
    assert_eq!(vm.run(), Err(RuntimeError::InvalidConstant(2)));
    assert_eq!(*vm.registers.get(1), Value::Empty);
    assert_eq!(*vm.registers.get(2), Value::Int(7));
    assert_eq!(*vm.registers.get(3), Value::Empty);
    assert_eq!(*vm.registers.get(4), Value::Empty);
    assert_eq!(vm.state.globals.len(), 1);
}

#[test]
fn store_global_with_a_bad_name_index_fails() {
    let mut vm = single(Instruction::StoreGlobalR { src: 0, name_idx: 5 });
    assert_eq!(vm.run(), Err(RuntimeError::InvalidConstant(5)));
}

#[test]
fn define_sets_the_declared_type_and_check_type_reads_it() {
    let mut vm = machine_loaded_with(
        Vec::new(),
        vec![
            Instruction::CheckTypeR { dst: 1, src: 0, type_id: 2 },
            Instruction::DefineR { dst: 0, type_id: 2 },
            Instruction::CheckTypeR { dst: 2, src: 0, type_id: 2 },
            Instruction::CheckTypeR { dst: 3, src: 0, type_id: 4 },
            Instruction::CheckTypeR { dst: 4, src: 5, type_id: 77 },
        ],
    );
    vm.registers.set(0, Value::string("still a string"));
    assert_eq!(vm.run(), Ok(None));
    assert_eq!(*vm.registers.get(1), Value::Bool(false));
    assert_eq!(*vm.registers.get(2), Value::Bool(true));
    assert_eq!(*vm.registers.get(3), Value::Bool(false));
    assert_eq!(*vm.registers.get(4), Value::Bool(true));
    assert_eq!(*vm.registers.get(0), Value::string("still a string"));
    assert_eq!(vm.registers.get_type(0), Type::Int);
    assert_eq!(vm.registers.get_type(5), Type::Unknown);
}

#[test]
fn type_identifiers_map_to_types() {
    assert_eq!(VM::get_type_from_id(0), Type::Empty);
    assert_eq!(VM::get_type_from_id(1), Type::Bool);
    assert_eq!(VM::get_type_from_id(2), Type::Int);
    assert_eq!(VM::get_type_from_id(3), Type::Float);
    assert_eq!(VM::get_type_from_id(4), Type::String);
    assert_eq!(VM::get_type_from_id(5), Type::Function);
    assert_eq!(VM::get_type_from_id(6), Type::URL);
    assert_eq!(VM::get_type_from_id(7), Type::Unknown);
    assert_eq!(VM::get_type_from_id(u16::MAX), Type::Unknown);
}

fn cast(value: Value, to_type: u16) -> Result<Value, RuntimeError> {
    unary(Instruction::CastR { dst: 2, src: 0, to_type }, value)
}

#[test]
fn cast_to_bool_is_truthiness() {
    assert_eq!(cast(Value::Int(0), 1), Ok(Value::Bool(false)));
    assert_eq!(cast(Value::string("x"), 1), Ok(Value::Bool(true)));
    assert_eq!(cast(Value::Empty, 1), Ok(Value::Bool(false)));
}

#[test]
fn cast_to_int_reads_numerals_and_rejects_what_has_no_number() {
    assert_eq!(cast(Value::Int(5), 2), Ok(Value::Int(5)));
    assert_eq!(cast(Value::Bool(true), 2), Ok(Value::Int(1)));
    assert_eq!(cast(Value::Bool(false), 2), Ok(Value::Int(0)));
    assert_eq!(cast(Value::string("42"), 2), Ok(Value::Int(42)));
    assert_eq!(cast(Value::string("-42"), 2), Ok(Value::Int(-42)));
    assert_eq!(cast(Value::string("+7"), 2), Ok(Value::Int(7)));
    assert_eq!(cast(Value::string("007"), 2), Ok(Value::Int(7)));
    assert_eq!(
        cast(Value::string("9223372036854775807"), 2),
        Ok(Value::Int(i64::MAX))
    );
    assert_eq!(
        cast(Value::string("-9223372036854775808"), 2),
        Ok(Value::Int(i64::MIN))
    );
    assert_eq!(cast(Value::string("9223372036854775808"), 2), Err(mismatch("int", "string")));
    assert_eq!(cast(Value::string("-9223372036854775809"), 2), Err(mismatch("int", "string")));
    assert_eq!(cast(Value::string(""), 2), Err(mismatch("int", "string")));
    assert_eq!(cast(Value::string("-"), 2), Err(mismatch("int", "string")));
    assert_eq!(cast(Value::string(" 1"), 2), Err(mismatch("int", "string")));
    assert_eq!(cast(Value::string("1.5"), 2), Err(mismatch("int", "string")));
    assert_eq!(cast(Value::Float(bits(2.9)), 2), Ok(Value::Int(2)));
    assert_eq!(cast(Value::Float(bits(-2.9)), 2), Ok(Value::Int(-2)));
    assert_eq!(
        cast(Value::Function(FunctionRef { name: "f".to_string(), entry: 0 }), 2),
        Err(mismatch("int", "function"))
    );
    assert_eq!(cast(Value::Empty, 2), Err(mismatch("int", "empty")));
}

#[test]
fn cast_to_float_converts_numbers_and_reads_text() {
    assert_eq!(cast(Value::Float(bits(2.5)), 3), Ok(Value::Float(bits(2.5))));
    assert_eq!(cast(Value::Int(3), 3), Ok(Value::Float(bits(3.0))));
    assert_eq!(cast(Value::Bool(true), 3), Ok(Value::Float(bits(1.0))));
    assert_eq!(cast(Value::Bool(false), 3), Ok(Value::Float(bits(0.0))));
    assert_eq!(cast(Value::string("2.5"), 3), Ok(Value::Float(bits(2.5))));
    assert_eq!(cast(Value::string("two"), 3), Err(mismatch("float", "string")));
    assert_eq!(cast(Value::Empty, 3), Err(mismatch("float", "empty")));
}

#[test]
fn cast_to_string_writes_each_kind_of_value() {
    assert_eq!(cast(Value::string("s"), 4), Ok(Value::string("s")));
    assert_eq!(
        cast(Value::URL(std::sync::Arc::new("http://x".to_string())), 4),
        Ok(Value::string("http://x"))
    );
    assert_eq!(cast(Value::Empty, 4), Ok(Value::string("")));
    assert_eq!(cast(Value::Bool(true), 4), Ok(Value::string("true")));
    assert_eq!(cast(Value::Bool(false), 4), Ok(Value::string("false")));
    assert_eq!(cast(Value::Int(0), 4), Ok(Value::string("0")));
    assert_eq!(cast(Value::Int(-120), 4), Ok(Value::string("-120")));
    assert_eq!(cast(Value::Int(i64::MIN), 4), Ok(Value::string("-9223372036854775808")));
    assert_eq!(cast(Value::Int(i64::MAX), 4), Ok(Value::string("9223372036854775807")));
    assert_eq!(cast(Value::Float(bits(2.5)), 4), Ok(Value::string("2.5")));
    assert_eq!(
        cast(Value::Function(FunctionRef { name: "f".to_string(), entry: 3 }), 4),
        Ok(Value::string("function<f>"))
    );
    assert_eq!(cast(Value::array(Vec::new()), 4), Ok(Value::string("[]")));
    assert_eq!(
        cast(
            Value::array(vec![
                Value::Int(1),
                Value::Float(bits(2.5)),
                Value::array(vec![Value::string("x"), Value::Empty]),
            ]),
            4
        ),
        Ok(Value::string("[1, 2.5, [x, ]]"))
    );
}

#[test]
fn cast_of_an_array_to_string_asks_the_host_with_the_array() {
    let array = Value::array(vec![Value::Int(1), Value::Float(bits(2.5))]);
    let mut vm = single(Instruction::CastR { dst: 2, src: 0, to_type: 4 });
    vm.registers.set(0, array.clone());
    assert_eq!(vm.run(), Ok(None));
    assert_eq!(vm.float_request(), Some(&FloatRequest::Render(array.clone())));
    assert_eq!(vm.resume(FloatReply::Text("anything".to_string())), Ok(()));
    assert_eq!(*vm.registers.get(2), Value::string("anything"));
    assert_eq!(*vm.registers.get(0), array);
}

#[test]
fn cast_to_bool_or_string_succeeds_for_every_kind_of_value() {
    let values = vec![
        Value::Empty,
        Value::Bool(false),
        Value::Int(-1),
        Value::Float(bits(f64::NAN)),
        Value::string("s"),
        Value::URL(std::sync::Arc::new("u".to_string())),
        Value::Function(FunctionRef { name: "f".to_string(), entry: 0 }),
        Value::array(vec![Value::Empty]),
    ];
    for value in values {
        assert_eq!(cast(value.clone(), 1).unwrap().type_of(), Type::Bool);
        assert_eq!(cast(value.clone(), 4).unwrap().type_of(), Type::String);
    }
}

#[test]
fn cast_to_any_other_type_is_a_type_mismatch() {
    assert_eq!(cast(Value::Int(1), 0), Err(mismatch("empty", "int")));
    assert_eq!(cast(Value::Int(1), 5), Err(mismatch("function", "int")));
    assert_eq!(cast(Value::string("x"), 6), Err(mismatch("url", "string")));
    assert_eq!(cast(Value::Bool(true), 9), Err(mismatch("unknown", "bool")));
}

#[test]
fn jump_lands_relative_to_the_next_instruction_and_marks_its_own_position() {
    let mut vm = machine_loaded_with(
        Vec::new(),
        vec![
            Instruction::Nop,
            Instruction::JumpR { offset: 2 },
            Instruction::Halt,
            Instruction::Halt,
            Instruction::JumpR { offset: -3 },
        ],
    );
    assert_eq!(vm.state.predecessor_block, None);
    vm.step().unwrap();
    vm.step().unwrap();
    assert_eq!(vm.state.pc, 4);
    assert_eq!(vm.state.predecessor_block, Some(1));
    vm.step().unwrap();
    assert_eq!(vm.state.pc, 2);
    assert_eq!(vm.state.predecessor_block, Some(4));
    vm.step().unwrap();
    assert!(!vm.state.is_running());
}

#[test]
fn conditional_jumps_are_taken_on_truthiness() {
    let mut vm = machine_loaded_with(
        Vec::new(),
        vec![
            Instruction::JumpIfR { cond: 0, offset: 5 },
            Instruction::JumpIfNotR { cond: 1, offset: 5 },
            Instruction::JumpIfNotR { cond: 0, offset: 1 },
            Instruction::Halt,
            Instruction::JumpIfR { cond: 1, offset: -2 },
        ],
    );
    vm.registers.set(0, Value::Int(0));
    vm.registers.set(1, Value::string("yes"));
    vm.step().unwrap();
    assert_eq!(vm.state.pc, 1);
    assert_eq!(vm.state.predecessor_block, None);
    vm.step().unwrap();
    assert_eq!(vm.state.pc, 2);
    assert_eq!(vm.state.predecessor_block, None);
    vm.step().unwrap();
    assert_eq!(vm.state.pc, 4);
    assert_eq!(vm.state.predecessor_block, Some(2));
    vm.step().unwrap();
    assert_eq!(vm.state.pc, 3);
    assert_eq!(vm.state.predecessor_block, Some(4));
}

#[test]
fn jump_before_the_first_instruction_leaves_the_program() {
    let mut vm = machine_loaded_with(Vec::new(), vec![Instruction::JumpR { offset: -5 }, Instruction::Nop]);
    assert_eq!(vm.run(), Ok(None));
    assert_eq!(vm.instruction_count(), 1);
    assert_eq!(vm.state.pc, usize::MAX - 3);
    assert!(vm.state.is_running());
    assert_eq!(vm.step(), Ok(None));
    assert!(!vm.state.is_running());
    assert_eq!(vm.instruction_count(), 1);
}

#[test]
fn phi_takes_the_first_source_of_the_predecessor_block() {
    let mut vm = machine_loaded_with(
        Vec::new(),
        vec![
            Instruction::JumpR { offset: 1 },
            Instruction::Halt,
            Instruction::PhiR { dst: 5, sources: vec![(1, 7), (2, 0), (3, 0)] },
        ],
    );
    vm.registers.set(1, Value::Int(10));
    vm.registers.set(2, Value::Int(20));
    vm.registers.set(3, Value::Int(30));
    vm.registers.set(5, Value::Int(50));
    assert_eq!(vm.run(), Ok(None));
    assert_eq!(*vm.registers.get(5), Value::Int(20));
}

#[test]
fn phi_without_a_matching_source_leaves_its_destination() {
    let mut vm = machine_loaded_with(
        Vec::new(),
        vec![
            Instruction::PhiR { dst: 5, sources: vec![(1, 0)] },
            Instruction::JumpR { offset: 0 },
            Instruction::PhiR { dst: 5, sources: vec![(1, 7), (2, 0)] },
            Instruction::PhiR { dst: 6, sources: Vec::new() },
        ],
    );
    vm.registers.set(1, Value::Int(10));
    vm.registers.set(2, Value::Int(20));
    vm.registers.set(5, Value::Int(50));
    vm.registers.set(6, Value::Int(60));
    assert_eq!(vm.run(), Ok(None));
    assert_eq!(*vm.registers.get(5), Value::Int(50));
    assert_eq!(*vm.registers.get(6), Value::Int(60));
    assert_eq!(vm.instruction_count(), 4);
}

#[test]
fn assertions_pass_silently_and_fail_with_their_message() {
    let program = |assert_type| {
        machine_loaded_with(
            vec![ConstantValue::String("it failed".to_string()), ConstantValue::Int(1)],
            vec![Instruction::AssertR { reg: 0, assert_type, msg_idx: 0 }],
        )
    };
    let check = |assert_type, value: Value| {
        let mut vm = program(assert_type);
        vm.registers.set(0, value);
        vm.run()
    };
    let failed = Err(RuntimeError::AssertionFailed("it failed".to_string()));
    assert_eq!(check(AssertType::True, Value::Int(1)), Ok(None));
    assert_eq!(check(AssertType::True, Value::Int(0)), failed);
    assert_eq!(check(AssertType::True, Value::Empty), failed);
    assert_eq!(check(AssertType::NonNull, Value::Int(0)), Ok(None));
    assert_eq!(check(AssertType::NonNull, Value::Empty), failed);
    assert_eq!(check(AssertType::Range { min: 1, max: 3 }, Value::Int(1)), Ok(None));
    assert_eq!(check(AssertType::Range { min: 1, max: 3 }, Value::Int(3)), Ok(None));
    assert_eq!(check(AssertType::Range { min: 1, max: 3 }, Value::Int(0)), failed);
    assert_eq!(check(AssertType::Range { min: 1, max: 3 }, Value::Int(4)), failed);
    assert_eq!(check(AssertType::Range { min: 1, max: 3 }, Value::string("2")), failed);
}

#[test]
fn failed_assertion_without_a_message_constant_is_an_invalid_constant() {
    let mut vm = machine_loaded_with(
        vec![ConstantValue::Int(1)],
        vec![
            Instruction::AssertR { reg: 0, assert_type: AssertType::NonNull, msg_idx: 0 },
        ],
    );
    assert_eq!(vm.run(), Err(RuntimeError::InvalidConstant(0)));
    let mut missing = single(Instruction::AssertR {
        reg: 0,
        assert_type: AssertType::True,
        msg_idx: 9,
    });
    assert_eq!(missing.run(), Err(RuntimeError::InvalidConstant(9)));
}

#[test]
fn scopes_nest_and_exit_only_the_innermost_scope_of_that_id() {
    let mut vm = machine_loaded_with(
        Vec::new(),
        vec![
            Instruction::ScopeEnterR { scope_id: 1 },
            Instruction::ScopeEnterR { scope_id: 2 },
            Instruction::ScopeExitR { scope_id: 1 },
            Instruction::ScopeExitR { scope_id: 2 },
            Instruction::ScopeExitR { scope_id: 1 },
            Instruction::ScopeExitR { scope_id: 1 },
        ],
    );
    vm.step().unwrap();
    vm.step().unwrap();
    assert_eq!(vm.state.scopes, vec![1, 2]);
    vm.step().unwrap();
    assert_eq!(vm.state.scopes, vec![1, 2]);
    vm.step().unwrap();
    assert_eq!(vm.state.scopes, vec![1]);
    vm.step().unwrap();
    assert_eq!(vm.state.scopes, Vec::<u16>::new());
    vm.step().unwrap();
    assert_eq!(vm.state.scopes, Vec::<u16>::new());
    assert_eq!(*vm.registers.get(0), Value::Empty);
}

#[test]
fn strings_concatenate_and_measure_in_characters() {
    let concat = |dst, left, right| Instruction::ConcatStrR { dst, left, right };
    assert_eq!(
        binary(concat, Value::string("foo"), Value::string("bär")),
        Ok(Value::string("foobär"))
    );
    assert_eq!(
        binary(concat, Value::URL(std::sync::Arc::new("u".to_string())), Value::string("")),
        Ok(Value::string("u"))
    );
    assert_eq!(binary(concat, Value::Int(1), Value::string("x")), Err(mismatch("string", "int")));
    assert_eq!(
        binary(concat, Value::string("x"), Value::Empty),
        Err(mismatch("string", "empty"))
    );
    let len = || Instruction::StrLenR { dst: 2, str_reg: 0 };
    assert_eq!(unary(len(), Value::string("bär")), Ok(Value::Int(3)));
    assert_eq!(unary(len(), Value::string("")), Ok(Value::Int(0)));
    assert_eq!(unary(len(), Value::Int(3)), Err(mismatch("string", "int")));
}

#[test]
fn new_array_rejects_negative_and_non_integer_sizes() {
    let new = || Instruction::NewArrayR { dst: 2, size: 0 };
    assert_eq!(unary(new(), Value::Int(0)), Ok(Value::array(Vec::new())));
    assert_eq!(
        unary(new(), Value::Int(2)),
        Ok(Value::array(vec![Value::Empty, Value::Empty]))
    );
    assert_eq!(
        unary(new(), Value::Int(-3)),
        Err(RuntimeError::InvalidOperation {
            operation: "create array".to_string(),
            detail: "negative size: -3".to_string()
        })
    );
    assert_eq!(unary(new(), Value::string("3")), Err(mismatch("integer", "string")));
    assert_eq!(unary(new(), Value::Float(bits(3.0))), Err(mismatch("integer", "float")));
}

#[test]
fn array_reads_check_index_and_operand_types() {
    let get = |dst, array, index| Instruction::ArrayGetR { dst, array, index };
    let array = || Value::array(vec![Value::Int(10), Value::Int(20)]);
    assert_eq!(binary(get, array(), Value::Int(1)), Ok(Value::Int(20)));
    assert_eq!(
        binary(get, array(), Value::Int(2)),
        Err(RuntimeError::IndexOutOfBounds { index: 2, length: 2 })
    );
    assert_eq!(
        binary(get, array(), Value::Int(-1)),
        Err(RuntimeError::IndexOutOfBounds { index: -1, length: 2 })
    );
    assert_eq!(
        binary(get, array(), Value::string("1")),
        Err(mismatch("integer index", "string"))
    );
    assert_eq!(binary(get, Value::Int(5), Value::Int(0)), Err(mismatch("array", "int")));
    assert_eq!(binary(get, Value::Empty, Value::string("x")), Err(mismatch("array", "empty")));
    let len = || Instruction::ArrayLenR { dst: 2, array: 0 };
    assert_eq!(unary(len(), array()), Ok(Value::Int(2)));
    assert_eq!(unary(len(), Value::string("ab")), Err(mismatch("array", "string")));
}

#[test]
fn array_write_makes_a_new_array_and_leaves_the_old_one_to_its_other_holders() {
    let mut vm = machine_loaded_with(
        Vec::new(),
        vec![
            Instruction::MoveR { dst: 1, src: 0 },
            Instruction::ArraySetR { array: 0, index: 2, value: 3 },
            Instruction::ArraySetR { array: 0, index: 4, value: 3 },
        ],
    );
    vm.registers.set(0, Value::array(vec![Value::Int(1), Value::Int(2)]));
    vm.registers.set(2, Value::Int(1));
    vm.registers.set(3, Value::string("new"));
    vm.registers.set(4, Value::Int(2));
    vm.step().unwrap();
    vm.step().unwrap();
    assert_eq!(
        *vm.registers.get(0),
        Value::array(vec![Value::Int(1), Value::string("new")])
    );
    assert_eq!(*vm.registers.get(1), Value::array(vec![Value::Int(1), Value::Int(2)]));
    assert_eq!(vm.step(), Err(RuntimeError::IndexOutOfBounds { index: 2, length: 2 }));
    assert_eq!(
        *vm.registers.get(0),
        Value::array(vec![Value::Int(1), Value::string("new")])
    );
}

#[test]
fn array_write_checks_its_operands() {
    let mut vm = single(Instruction::ArraySetR { array: 0, index: 1, value: 2 });
    vm.registers.set(0, Value::array(vec![Value::Int(1)]));
    vm.registers.set(1, Value::Bool(true));
    assert_eq!(vm.run(), Err(mismatch("integer index", "bool")));
    let mut other = single(Instruction::ArraySetR { array: 0, index: 1, value: 2 });
    other.registers.set(0, Value::string("no array"));
    other.registers.set(1, Value::Int(0));
    assert_eq!(other.run(), Err(mismatch("array", "string")));
}

#[test]
fn debug_print_shows_values_plainly_and_skips_empty() {
    let mut vm = machine_loaded_with(
        Vec::new(),
        vec![
            Instruction::DebugPrint { src: 0 },
            Instruction::DebugPrint { src: 1 },
            Instruction::BreakPoint,
        ],
    );
    vm.registers.set(0, Value::Int(7));
    assert_eq!(vm.run(), Ok(None));
    assert_eq!(
        vm.take_output(),
        vec![OutputEvent::Show { value: Value::Int(7), tagged: false }]
    );
    assert_eq!(vm.take_output(), Vec::new());
}

#[test]
fn debug_mode_traces_steps_tags_values_and_reports_breakpoints() {
    let mut vm = machine_loaded_with(
        Vec::new(),
        vec![
            Instruction::DebugPrint { src: 0 },
            Instruction::DebugPrint { src: 1 },
            Instruction::BreakPoint,
        ],
    );
    vm.set_debug(true);
    vm.registers.set(0, Value::Int(7));
    assert_eq!(vm.run(), Ok(None));
    assert_eq!(
        vm.take_output(),
        vec![
            OutputEvent::Trace { pc: 0 },
            OutputEvent::Show { value: Value::Int(7), tagged: true },
            OutputEvent::Trace { pc: 1 },
            OutputEvent::Show { value: Value::Empty, tagged: true },
            OutputEvent::Trace { pc: 2 },
            OutputEvent::Breakpoint { pc: 2 },
        ]
    );
}

#[test]
fn halt_stops_the_run_and_nop_does_nothing() {
    let mut vm = machine_loaded_with(
        Vec::new(),
        vec![Instruction::Nop, Instruction::Halt, Instruction::LoadConstR { dst: 0, const_idx: 0 }],
    );
    assert_eq!(vm.run(), Ok(None));
    assert_eq!(vm.instruction_count(), 2);
    assert_eq!(vm.state.pc, 2);
    assert!(!vm.state.is_running());
    assert_eq!(vm.run(), Ok(None));
    assert_eq!(vm.instruction_count(), 2);
}

#[test]
fn step_past_the_end_halts_without_counting() {
    let mut vm = single(Instruction::Nop);
    assert_eq!(vm.step(), Ok(None));
    assert!(vm.state.is_running());
    assert_eq!(vm.step(), Ok(None));
    assert!(!vm.state.is_running());
    assert_eq!(vm.instruction_count(), 1);
    let mut empty = VM::new();
    assert_eq!(empty.step(), Ok(None));
    assert!(!empty.state.is_running());
}

#[test]
fn instruction_counter_that_cannot_count_further_fails_the_step() {
    let mut vm = single(Instruction::Nop);
    vm.instruction_count = usize::MAX;
    assert_eq!(vm.step(), Err(RuntimeError::InstructionLimit));
    assert_eq!(vm.state.pc, 0);
    assert_eq!(vm.run(), Err(RuntimeError::InstructionLimit));
}

#[test]
fn loading_a_module_resets_registers_and_state_but_not_the_counter() {
    let mut vm = machine_loaded_with(
        vec![ConstantValue::Int(1), ConstantValue::String("g".to_string())],
        vec![
            Instruction::LoadConstR { dst: 0, const_idx: 0 },
            Instruction::StoreGlobalR { src: 0, name_idx: 1 },
            Instruction::DefineR { dst: 0, type_id: 2 },
            Instruction::Halt,
        ],
    );
    assert_eq!(vm.run(), Ok(None));
    assert_eq!(vm.instruction_count(), 4);
    vm.load_module(BytecodeModule::new("other".to_string()), None).unwrap();
    assert_eq!(*vm.registers.get(0), Value::Empty);
    assert_eq!(vm.registers.get_type(0), Type::Unknown);
    assert_eq!(vm.state.pc, 0);
    assert_eq!(vm.state.globals.len(), 0);
    assert!(vm.state.is_running());
    assert_eq!(vm.instruction_count(), 4);
    assert_eq!(vm.module.as_ref().unwrap().name, "other");
}

#[test]
fn loaded_module_is_kept_as_it_was_given() {
    let mut module = BytecodeModule::new("given".to_string());
    module.version = 7;
    module.flags = 3;
    module.global_names = vec!["g".to_string(), "h".to_string()];
    module.constants.add(ConstantValue::Int(1)).unwrap();
    module.function_table.insert("f".to_string(), 0);
    module.instructions = vec![Instruction::Nop];
    let mut vm = VM::new();
    vm.load_module(module, None).unwrap();
    let stored = vm.module.as_ref().unwrap();
    assert_eq!(stored.name, "given");
    assert_eq!(stored.version, 7);
    assert_eq!(stored.flags, 3);
    assert_eq!(stored.global_names, vec!["g".to_string(), "h".to_string()]);
    assert_eq!(stored.constants.len(), 1);
    assert_eq!(stored.function_table.get(&"f".to_string()), Some(&0));
    assert_eq!(stored.instructions, vec![Instruction::Nop]);
    assert!(vm.metadata.is_none());
    assert_eq!(vm.run(), Ok(None));
    let after = vm.module.as_ref().unwrap();
    assert_eq!(after.name, "given");
    assert_eq!(after.version, 7);
}
