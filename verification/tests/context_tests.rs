use process_remote::context::{FrameInfo, LLDBContext, ProcessInfo};
use process_remote::evaluation::{EvaluationError, RawEvaluation, RemoteValue, Status};
use process_remote::layout::{ByteOrder, Layout};
use process_remote::marshal::MarshalError;
use process_remote::symbols::{Module, ResolveError, Symbol, SymbolKind, TargetImage};

fn target() -> TargetImage {
    TargetImage {
        modules: vec![
            Module::new("app", vec![Symbol::new("marker", SymbolKind::Code, Some(0x100))]),
            Module::new(
                "libhelper.dylib",
                vec![
                    Symbol::new("PING_LOCATION", SymbolKind::Data, Some(0x9000)),
                    Symbol::new("_PING", SymbolKind::Code, Some(0x8000)),
                    Symbol::new("PING", SymbolKind::Code, Some(0x8010)),
                    Symbol::new("PONG", SymbolKind::Code, Some(0x8020)),
                    Symbol::new("PONG", SymbolKind::Code, Some(0x8030)),
                    Symbol::new("STRIPPED", SymbolKind::Code, None),
                ],
            ),
        ],
    }
}

fn process(order: ByteOrder) -> ProcessInfo {
    ProcessInfo { pid: 4242, layout: Layout { byte_order: order, address_width: 8 } }
}

#[test]
fn context_holds_what_it_was_given() {
    let target = target();
    let process = process(ByteOrder::Little);
    let frame = FrameInfo { thread_id: 1, index: 0 };
    let context = LLDBContext::new(&target, &process, &frame);
    assert_eq!(context.target, &target);
    assert_eq!(context.process, &process);
    assert_eq!(context.frame, &frame);
}

#[test]
fn exports_are_resolved_by_exact_name() {
    let target = target();
    let process = process(ByteOrder::Little);
    let frame = FrameInfo { thread_id: 1, index: 0 };
    let context = LLDBContext::new(&target, &process, &frame);
    assert_eq!(context.get_function_addr("PING"), Ok(0x8010));
    assert_eq!(context.get_function_addr("PONG"), Ok(0x8020));
    assert_eq!(context.get_function_addr("marker"), Ok(0x100));
    assert_eq!(context.get_function_addr("PIN"), Err(ResolveError::SymbolNotFound));
    assert_eq!(context.get_function_addr("PING_LOCATION"), Err(ResolveError::SymbolNotFound));
    assert_eq!(context.get_function_addr("STRIPPED"), Err(ResolveError::NoStartAddress));
    assert_eq!(context.get_addr("PING_LOCATION"), Ok(0x9000));
    assert_eq!(context.get_addr("PING"), Err(ResolveError::SymbolNotFound));
}

#[test]
fn call_of_an_export() {
    let target = target();
    let process = process(ByteOrder::Little);
    let frame = FrameInfo { thread_id: 1, index: 0 };
    let context = LLDBContext::new(&target, &process, &frame);
    assert_eq!(context.call_of("PONG"), Ok("((void (*)())(32800))()".to_string()));
    assert_eq!(context.call_of("NOPE"), Err(ResolveError::SymbolNotFound));
    assert_eq!(context.call_of("STRIPPED"), Err(ResolveError::NoStartAddress));
}

#[test]
fn ping_pong_scenario() {
    let target = target();
    let process = process(ByteOrder::Little);
    let frame = FrameInfo { thread_id: 1, index: 0 };
    let context = LLDBContext::new(&target, &process, &frame);

    let ping = context.call_of("PING").unwrap();
    assert_eq!(ping, "((void (*)())(32784))()");
    let answer = context.eval(RawEvaluation { signed: Some(0x9000), status: None });
    let location = answer.unwrap().as_address().unwrap();
    assert_eq!(location, 0x9000);

    let void = RawEvaluation {
        signed: None,
        status: Some(Status { failure: true, code: 0x1001, message: String::new() }),
    };
    assert_eq!(context.eval(void), Ok(RemoteValue::NoResult));

    let memory = [0xEFu8, 0xBE, 0xAD, 0xDE];
    assert_eq!(context.read_array::<u32>(1, &memory), Ok(vec![0xDEAD_BEEF]));
    assert_eq!(context.read_array::<u8>(4, &memory), Ok(vec![0xEF, 0xBE, 0xAD, 0xDE]));
}

#[test]
fn eval_and_read_array_report_errors() {
    let target = target();
    let process = process(ByteOrder::Big);
    let frame = FrameInfo { thread_id: 1, index: 0 };
    let context = LLDBContext::new(&target, &process, &frame);
    let failed = RawEvaluation {
        signed: None,
        status: Some(Status { failure: true, code: 2, message: "parse error".to_string() }),
    };
    assert_eq!(
        context.eval(failed),
        Err(EvaluationError { code: 2, message: "parse error".to_string() })
    );
    let memory = [0xDEu8, 0xAD, 0xBE, 0xEF];
    assert_eq!(context.read_array::<u32>(1, &memory), Ok(vec![0xDEAD_BEEF]));
    assert_eq!(context.read_array::<u16>(2, &memory), Ok(vec![0xDEAD, 0xBEEF]));
    assert_eq!(context.read_array::<u32>(2, &memory), Err(MarshalError::LengthMismatch));
    let pdp = ProcessInfo { pid: 1, layout: Layout { byte_order: ByteOrder::Pdp, address_width: 8 } };
    let context = LLDBContext::new(&target, &pdp, &frame);
    assert_eq!(context.read_array::<u32>(1, &memory), Err(MarshalError::UnsupportedByteOrder));
}
