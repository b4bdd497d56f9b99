use crowbar::HandlerError;
use crowbar::LambdaContext;
use crowbar::LambdaResult;
use crowbar::ModuleRegistry;
use crowbar::Value;
use crowbar::handler;

type Handler = fn(Value, LambdaContext) -> LambdaResult;

fn echo(event: Value, _cx: LambdaContext) -> LambdaResult {
    Ok(event)
}

fn forbidden(_event: Value, _cx: LambdaContext) -> LambdaResult {
    panic!("a handler registered under another name must not run")
}

fn failing(_event: Value, _cx: LambdaContext) -> LambdaResult {
    Err(HandlerError::wrap(String::from("b failed")))
}

fn some_context() -> LambdaContext {
    LambdaContext::new(
        Some(String::from("f")),
        Some(String::from("1")),
        Some(String::from("arn")),
        Some(String::from("128")),
        Some(String::from("req")),
        Some(String::from("lg")),
        Some(String::from("ls")),
    )
    .expect("all seven fields are present")
}

#[test]
fn dispatch_runs_only_the_named_handler() {
    let mut reg: ModuleRegistry<Handler> = ModuleRegistry::new();
    reg.register(String::from("a"), echo);
    reg.register(String::from("b"), forbidden);
    let f = *reg.lookup(&String::from("a")).expect("a is registered");
    let r = handler(f, Ok(Value::Int(7)), Ok(some_context()));
    assert_eq!(r.map_err(|_| ()), Ok(Value::Int(7)));
}

#[test]
fn lookup_finds_each_entry_by_its_own_name() {
    let mut reg: ModuleRegistry<Handler> = ModuleRegistry::new();
    reg.register(String::from("a"), echo);
    reg.register(String::from("b"), failing);
    let b = *reg.lookup(&String::from("b")).expect("b is registered");
    let r = handler(b, Ok(Value::Null), Ok(some_context()));
    match r {
        Err(x) => assert_eq!(x.message(), "b failed"),
        Ok(_) => panic!("b's handler fails"),
    }
}

#[test]
fn lookup_of_an_unregistered_name_finds_nothing() {
    let mut reg: ModuleRegistry<Handler> = ModuleRegistry::new();
    reg.register(String::from("a"), echo);
    assert!(reg.lookup(&String::from("c")).is_none());
    assert_eq!(reg.len(), 1);
}

#[test]
fn single_registers_under_the_canonical_name() {
    let reg: ModuleRegistry<Handler> = ModuleRegistry::single(echo);
    assert!(reg.lookup(&String::from("handler")).is_some());
    assert!(reg.lookup(&String::from("other")).is_none());
    assert_eq!(reg.len(), 1);
}
