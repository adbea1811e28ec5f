use machine_dialect::constants::{ConstantPool, ConstantValue};
use machine_dialect::errors::{LoadError, RuntimeError};
use machine_dialect::float_bits;
use machine_dialect::instructions::InstructionDecoder;
use machine_dialect::loader::{BytecodeLoader, MetadataFile};
use machine_dialect::names::NameTable;
use machine_dialect::runtime::arithmetic::ArithmeticOps;
use machine_dialect::runtime::arrays::ArrayOps;
use machine_dialect::runtime::float_unit::{
    complete, ArithOp, Evaluated, FloatReply, FloatRequest, Number,
};
use machine_dialect::runtime::logic::LogicOps;
use machine_dialect::runtime::strings::StringOps;
use machine_dialect::text::{
    chars_of, decimal_of, join_lines, parse_decimal_of, split_lines, string_of,
};
use machine_dialect::values::{Type, Value, MAX_REGISTERS};
use machine_dialect::vm::registers::RegisterFile;
use machine_dialect::vm::state::{CallFrame, VMState, MAX_CALL_DEPTH};

fn chars(s: &str) -> Vec<char> {
    s.chars().collect()
}

fn lines(s: &str) -> Vec<String> {
    split_lines(&chars(s)).iter().map(|line| line.iter().collect()).collect()
}

#[test]
fn file_shorter_than_the_header_is_an_invalid_format() {
    assert_eq!(BytecodeLoader::parse_bytecode(b"").unwrap_err(), LoadError::InvalidFormat);
    assert_eq!(BytecodeLoader::parse_bytecode(b"MDBC").unwrap_err(), LoadError::InvalidFormat);
    assert_eq!(
        BytecodeLoader::parse_bytecode(&[0u8; 23]).unwrap_err(),
        LoadError::InvalidFormat
    );
    let mut short = b"MDBC".to_vec();
    short.resize(23, 0);
    assert_eq!(BytecodeLoader::parse_bytecode(&short).unwrap_err(), LoadError::InvalidFormat);
}

#[test]
fn file_without_the_magic_signature_is_an_invalid_magic() {
    assert_eq!(BytecodeLoader::parse_bytecode(&[0u8; 24]).unwrap_err(), LoadError::InvalidMagic);
    let mut almost = b"MDBX".to_vec();
    almost.resize(40, 0);
    assert_eq!(BytecodeLoader::parse_bytecode(&almost).unwrap_err(), LoadError::InvalidMagic);
    let mut lower = b"mdbc".to_vec();
    lower.resize(24, 0);
    assert_eq!(BytecodeLoader::parse_bytecode(&lower).unwrap_err(), LoadError::InvalidMagic);
}

#[test]
fn file_with_a_header_gives_the_bare_module() {
    let mut data = b"MDBC".to_vec();
    data.resize(24, 0xff);
    let module = BytecodeLoader::parse_bytecode(&data).unwrap();
    assert_eq!(module.name, "main");
    assert_eq!(module.version, 1);
    assert_eq!(module.flags, 0);
    assert_eq!(module.constants.len(), 0);
    assert!(module.instructions.is_empty());
    assert_eq!(module.function_table.len(), 0);
    assert!(module.global_names.is_empty());
    data.extend_from_slice(b"anything after the header");
    assert!(BytecodeLoader::parse_bytecode(&data).is_ok());
}

#[test]
fn decoder_yields_no_instructions() {
    assert_eq!(InstructionDecoder::decode(&[]), Ok(Vec::new()));
    assert_eq!(InstructionDecoder::decode(&[1, 2, 3]), Ok(Vec::new()));
}

#[test]
fn constant_pool_hands_out_indices_in_order() {
    let mut pool = ConstantPool::new();
    assert_eq!(pool.len(), 0);
    assert_eq!(pool.get(0), None);
    assert_eq!(pool.add(ConstantValue::Int(5)), Some(0));
    assert_eq!(pool.add(ConstantValue::String("s".to_string())), Some(1));
    assert_eq!(pool.len(), 2);
    assert_eq!(pool.get(0), Some(&ConstantValue::Int(5)));
    assert_eq!(pool.get(1).unwrap().to_value(), Value::string("s"));
    assert_eq!(pool.get(2), None);
    let copy = pool.clone();
    assert_eq!(copy.len(), 2);
    assert_eq!(copy.get(1), Some(&ConstantValue::String("s".to_string())));
}

#[test]
fn constant_pool_is_full_at_65536_constants() {
    let mut pool = ConstantPool::new();
    for i in 0..65536u32 {
        assert_eq!(pool.add(ConstantValue::Empty), Some(i as u16));
    }
    assert_eq!(pool.add(ConstantValue::Int(1)), None);
    assert_eq!(pool.len(), 65536);
    assert_eq!(pool.get(u16::MAX), Some(&ConstantValue::Empty));
}

#[test]
fn constants_convert_to_their_values() {
    assert_eq!(ConstantValue::Empty.to_value(), Value::Empty);
    assert_eq!(ConstantValue::Bool(true).to_value(), Value::Bool(true));
    assert_eq!(ConstantValue::Int(-3).to_value(), Value::Int(-3));
    assert_eq!(ConstantValue::Float(7).to_value(), Value::Float(7));
    assert_eq!(ConstantValue::String("s".to_string()).to_value(), Value::string("s"));
}

#[test]
fn register_file_starts_empty_and_keeps_what_is_set() {
    let mut registers = RegisterFile::new();
    for r in 0..=255u8 {
        assert_eq!(*registers.get(r), Value::Empty);
        assert_eq!(registers.get_type(r), Type::Unknown);
    }
    assert_eq!(MAX_REGISTERS, 256);
    registers.set(255, Value::Int(1));
    registers.set_type(255, Type::Float);
    assert_eq!(*registers.get(255), Value::Int(1));
    assert_eq!(*registers.get(254), Value::Empty);
    assert_eq!(registers.get_type(255), Type::Float);
    registers.clear();
    assert_eq!(*registers.get(255), Value::Empty);
    assert_eq!(registers.get_type(255), Type::Unknown);
}

#[test]
fn restore_replays_a_snapshot_in_order() {
    let mut registers = RegisterFile::new();
    registers.set(0, Value::Int(1));
    registers.set(9, Value::Int(9));
    registers.restore_registers(&vec![
        (0, Value::string("a")),
        (3, Value::string("b")),
        (0, Value::string("c")),
    ]);
    assert_eq!(*registers.get(0), Value::string("c"));
    assert_eq!(*registers.get(3), Value::string("b"));
    assert_eq!(*registers.get(9), Value::Int(9));
    registers.restore_registers(&Vec::new());
    assert_eq!(*registers.get(0), Value::string("c"));
}

#[test]
fn state_resets_to_its_initial_values() {
    let mut state = VMState::new();
    assert!(state.is_running());
    state.pc = 5;
    state.fp = 2;
    state.predecessor_block = Some(4);
    state.enter_scope(3);
    state.globals.insert("g".to_string(), Value::Int(1));
    state.push_frame(CallFrame::new(1, 0, 0)).unwrap();
    state.halt();
    assert!(!state.is_running());
    state.reset();
    assert_eq!(state.pc, 0);
    assert_eq!(state.fp, 0);
    assert_eq!(state.predecessor_block, None);
    assert!(state.scopes.is_empty());
    assert_eq!(state.globals.len(), 0);
    assert!(state.call_stack.is_empty());
    assert!(state.is_running());
    assert!(state.pending.is_none());
}

#[test]
fn call_stack_is_bounded_and_pops_what_was_pushed_last() {
    let mut state = VMState::new();
    assert!(state.pop_frame().is_none());
    for i in 0..MAX_CALL_DEPTH {
        assert_eq!(state.push_frame(CallFrame::new(i, 0, 0)), Ok(()));
    }
    assert_eq!(state.push_frame(CallFrame::new(0, 0, 0)), Err(RuntimeError::StackOverflow));
    assert_eq!(state.call_stack.len(), MAX_CALL_DEPTH);
    assert_eq!(state.pop_frame().unwrap().return_address, MAX_CALL_DEPTH - 1);
    assert_eq!(state.call_stack.len(), MAX_CALL_DEPTH - 1);
}

#[test]
fn name_table_replaces_a_binding_where_it_stands() {
    let mut table: NameTable<usize> = NameTable::new();
    assert_eq!(table.get(&"a".to_string()), None);
    table.insert("a".to_string(), 1);
    table.insert("b".to_string(), 2);
    table.insert("a".to_string(), 3);
    assert_eq!(table.len(), 2);
    assert_eq!(table.get(&"a".to_string()), Some(&3));
    assert_eq!(table.get(&"b".to_string()), Some(&2));
    assert_eq!(table.get(&"c".to_string()), None);
    assert_eq!(table.entry(0), Some((&"a".to_string(), &3)));
    assert_eq!(table.entry(1), Some((&"b".to_string(), &2)));
    assert_eq!(table.entry(2), None);
}

#[test]
fn decimal_numerals_are_written_and_read_back() {
    for n in [0, 1, -1, 9, 10, -10, 12345, i64::MAX, i64::MIN] {
        let written = decimal_of(n);
        assert_eq!(string_of(&written), n.to_string());
        assert_eq!(parse_decimal_of(&written), Some(n));
    }
    assert_eq!(parse_decimal_of(&chars("+0")), Some(0));
    assert_eq!(parse_decimal_of(&chars("-0")), Some(0));
    assert_eq!(parse_decimal_of(&chars("000000000000000000000000012")), Some(12));
    assert_eq!(parse_decimal_of(&chars("")), None);
    assert_eq!(parse_decimal_of(&chars("+")), None);
    assert_eq!(parse_decimal_of(&chars("--1")), None);
    assert_eq!(parse_decimal_of(&chars("1a")), None);
    assert_eq!(parse_decimal_of(&chars("١٢")), None);
    assert_eq!(parse_decimal_of(&chars("99999999999999999999999999")), None);
    assert_eq!(parse_decimal_of(&chars("9223372036854775808")), None);
    assert_eq!(parse_decimal_of(&chars("18446744073709551616")), None);
    assert_eq!(parse_decimal_of(&chars("184467440737095516160")), None);
}

#[test]
fn characters_and_strings_convert_both_ways() {
    assert_eq!(chars_of("aä€"), vec!['a', 'ä', '€']);
    assert_eq!(string_of(&vec!['a', 'ä', '€']), "aä€");
    assert_eq!(chars_of(""), Vec::<char>::new());
}

#[test]
fn lines_end_at_line_feeds() {
    assert_eq!(lines(""), Vec::<String>::new());
    assert_eq!(lines("a"), vec!["a"]);
    assert_eq!(lines("a\n"), vec!["a"]);
    assert_eq!(lines("a\nb"), vec!["a", "b"]);
    assert_eq!(lines("a\r\nb\r\n"), vec!["a", "b"]);
    assert_eq!(lines("a\n\nb"), vec!["a", "", "b"]);
    assert_eq!(lines("\n"), vec![""]);
    assert_eq!(lines("\n\n"), vec!["", ""]);
    assert_eq!(lines("a\rb\n"), vec!["a\rb"]);
    assert_eq!(lines("a\r"), vec!["a\r"]);
    assert_eq!(lines("\r\n"), vec![""]);
    for text in ["", "a", "a\n", "a\r\nb", "a\r", "\n\n", "x\r\r\n", "one\ntwo\r\nthree\n"] {
        let expected: Vec<String> = text.lines().map(|line| line.to_string()).collect();
        assert_eq!(lines(text), expected);
    }
}

#[test]
fn lines_join_with_line_feeds_between_them() {
    let joined = |parts: &[&str]| -> String {
        let parts: Vec<Vec<char>> = parts.iter().map(|p| chars(p)).collect();
        join_lines(&parts).iter().collect()
    };
    assert_eq!(joined(&[]), "");
    assert_eq!(joined(&["a"]), "a");
    assert_eq!(joined(&["a", "b", ""]), "a\nb\n");
    assert_eq!(joined(&["", ""]), "\n");
}

#[test]
fn float_patterns_are_classified_by_their_bits() {
    let b = |x: f64| x.to_bits();
    assert!(float_bits::zero(b(0.0)));
    assert!(float_bits::zero(b(-0.0)));
    assert!(!float_bits::zero(b(f64::MIN_POSITIVE)));
    assert!(float_bits::nan(b(f64::NAN)));
    assert!(float_bits::nan(b(-f64::NAN)));
    assert!(!float_bits::nan(b(f64::INFINITY)));
    assert!(!float_bits::nan(b(f64::NEG_INFINITY)));
    assert!(!float_bits::nan(b(1.0)));
    assert_eq!(float_bits::negate(b(1.5)), b(-1.5));
    assert_eq!(float_bits::negate(b(-1.5)), b(1.5));
    assert_eq!(float_bits::negate(b(f64::INFINITY)), b(f64::NEG_INFINITY));
    assert_eq!(float_bits::magnitude_of(b(-2.0)), b(2.0));
    assert_eq!(float_bits::ONE_BITS, b(1.0));
    assert_eq!(float_bits::ZERO_BITS, b(0.0));
    assert_eq!(float_bits::INFINITY_BITS, b(f64::INFINITY));
    for x in [0.0, -0.0, 1.0, -1.0, f64::NAN, f64::INFINITY, f64::NEG_INFINITY, 5e-324] {
        for y in [0.0, -0.0, 1.0, -1.0, f64::NAN, f64::INFINITY, f64::NEG_INFINITY, 5e-324] {
            assert_eq!(float_bits::equal(b(x), b(y)), x == y);
        }
    }
}

#[test]
fn operations_are_usable_without_a_machine() {
    assert_eq!(
        ArithmeticOps::add(&Value::Int(1), &Value::Int(2)),
        Ok(Evaluated::Ready(Value::Int(3)))
    );
    assert_eq!(
        ArithmeticOps::modulo(&Value::Float(3), &Value::Int(2)),
        Ok(Evaluated::Deferred(FloatRequest::Arithmetic {
            op: ArithOp::Mod,
            left: Number::Float(3),
            right: Number::Int(2)
        }))
    );
    assert_eq!(ArithmeticOps::negate(&Value::Int(2)), Ok(Value::Int(-2)));
    assert!(ArithmeticOps::eq(&Value::string("a"), &Value::string("a")));
    assert!(ArithmeticOps::neq(&Value::string("a"), &Value::Int(1)));
    assert_eq!(LogicOps::not(&Value::Empty), Value::Bool(true));
    assert_eq!(
        StringOps::concat(&Value::string("a"), &Value::string("b")),
        Ok(Value::string("ab"))
    );
    assert_eq!(StringOps::len(&Value::string("ab")), Ok(Value::Int(2)));
    assert_eq!(ArrayOps::create(&Value::Int(1)), Ok(Value::array(vec![Value::Empty])));
    assert_eq!(
        ArrayOps::set(&Value::array(vec![Value::Empty]), &Value::Int(0), Value::Int(5)),
        Ok(Value::array(vec![Value::Int(5)]))
    );
}

#[test]
fn replies_complete_requests_of_their_kind_only() {
    let arithmetic = FloatRequest::Arithmetic {
        op: ArithOp::Add,
        left: Number::Int(1),
        right: Number::Float(0),
    };
    assert_eq!(complete(&arithmetic, FloatReply::Bits(9)), Ok(Value::Float(9)));
    assert!(complete(&arithmetic, FloatReply::Int(9)).is_err());
    assert_eq!(complete(&FloatRequest::FromInt(1), FloatReply::Bits(9)), Ok(Value::Float(9)));
    assert_eq!(complete(&FloatRequest::ToInt(1), FloatReply::Int(9)), Ok(Value::Int(9)));
    assert!(complete(&FloatRequest::ToInt(1), FloatReply::Bits(9)).is_err());
    assert_eq!(
        complete(&FloatRequest::Format(1), FloatReply::Text("1.5".to_string())),
        Ok(Value::string("1.5"))
    );
    assert_eq!(
        complete(&FloatRequest::Parse("x".to_string()), FloatReply::Invalid),
        Err(RuntimeError::TypeMismatch {
            expected: "float".to_string(),
            found: "string".to_string()
        })
    );
    assert!(complete(&FloatRequest::Format(1), FloatReply::Invalid).is_err());
}

#[test]
fn type_names_are_lower_case_words() {
    let names: Vec<String> = [
        Type::Empty,
        Type::Bool,
        Type::Int,
        Type::Float,
        Type::String,
        Type::Function,
        Type::URL,
        Type::Unknown,
    ]
    .iter()
    .map(|t| t.name())
    .collect();
    assert_eq!(
        names,
        vec!["empty", "bool", "int", "float", "string", "function", "url", "unknown"]
    );
    assert_eq!(Value::array(Vec::new()).type_of(), Type::Unknown);
    assert_eq!(Value::string("").type_of(), Type::String);
}

#[test]
fn metadata_is_kept_byte_for_byte() {
    assert_eq!(MetadataFile::parse(&[]), Ok(MetadataFile { data: Vec::new() }));
    assert_eq!(MetadataFile::parse(&[1, 2, 255]), Ok(MetadataFile { data: vec![1, 2, 255] }));
}
