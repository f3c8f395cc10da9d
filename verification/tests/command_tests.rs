use qonduit::command::{handle_command, Command, CommandBus, CommandHandler};
use qonduit::registry::{CommandHandlerRegistry, CommandHandlerWrapper, ErasedCommandHandler};

// Minimal command type
#[derive(Debug)]
struct TestCommand(u32);

// Simple error type
#[derive(Debug, PartialEq)]
struct TestError;

// The erased value universe shared by the command types of this file.
#[derive(Debug)]
enum TestValue {
    TestCmd(u32),
    TestOutcome(Result<u32, TestError>),
    Cmd1(u32),
    Outcome1(Result<u32, TestError>),
    Cmd2(String),
    Outcome2(Result<String, TestError>),
}

// The ghost items of the library traits (the `*_spec` functions, `post` and
// the lemmas) are erased before anything runs; the bodies given for them
// here only satisfy the compiler and mirror the executable bodies.
impl Command for TestCommand {
    type Response = u32;
    type Error = TestError;
    type Erased = TestValue;

    fn key_spec() -> u64 {
        1
    }

    fn erase_spec(self) -> TestValue {
        TestValue::TestCmd(self.0)
    }

    fn recover_spec(m: TestValue) -> Option<TestCommand> {
        match m {
            TestValue::TestCmd(x) => Some(TestCommand(x)),
            _ => None,
        }
    }

    fn erase_result_spec(r: Result<u32, TestError>) -> TestValue {
        TestValue::TestOutcome(r)
    }

    fn recover_result_spec(m: TestValue) -> Option<Result<u32, TestError>> {
        match m {
            TestValue::TestOutcome(r) => Some(r),
            _ => None,
        }
    }

    fn type_key() -> u64 {
        1
    }

    fn erase(self) -> TestValue {
        TestValue::TestCmd(self.0)
    }

    fn recover(m: TestValue) -> Option<TestCommand> {
        match m {
            TestValue::TestCmd(x) => Some(TestCommand(x)),
            _ => None,
        }
    }

    fn erase_result(r: Result<u32, TestError>) -> TestValue {
        TestValue::TestOutcome(r)
    }

    fn recover_result(m: TestValue) -> Option<Result<u32, TestError>> {
        match m {
            TestValue::TestOutcome(r) => Some(r),
            _ => None,
        }
    }

    fn lemma_recover_erase(_c: Self) {}

    fn lemma_recover_erase_result(_r: Result<u32, TestError>) {}
}

// Success handler - returns the command value multiplied by 2
struct TestCommandHandler;

impl CommandHandler<TestCommand> for TestCommandHandler {
    fn post(&self, command: TestCommand, result: Result<u32, TestError>) -> bool {
        result == Ok(command.0 * 2)
    }

    fn handle(&self, command: TestCommand) -> Result<u32, TestError> {
        Ok(command.0 * 2)
    }
}

#[test]
fn test_command_bus_successful_dispatch() {
    // Create registry and register handler
    let mut registry = CommandHandlerRegistry::new();
    registry.register::<TestCommand>(ErasedCommandHandler::new(TestCommandHandler));

    // Create bus with registry
    let bus = CommandBus::new(registry);

    // Dispatch command
    let result = bus.dispatch(TestCommand(21));

    // Check result
    assert!(result.is_ok());
    assert_eq!(result.unwrap(), 42);
}

#[test]
#[should_panic]
fn test_command_bus_missing_handler() {
    // Create registry without registering any handlers
    let registry: CommandHandlerRegistry<ErasedCommandHandler<TestCommand, TestCommandHandler>> =
        CommandHandlerRegistry::new();

    // Create bus with empty registry
    let bus = CommandBus::new(registry);

    // This should panic since no handler is registered
    let _ = bus.dispatch(TestCommand(0));
}

// ===== Command Registry Tests =====

// Command type 1 for registry tests
#[derive(Debug)]
struct Command1(u32);

impl Command for Command1 {
    type Response = u32;
    type Error = TestError;
    type Erased = TestValue;

    fn key_spec() -> u64 {
        2
    }

    fn erase_spec(self) -> TestValue {
        TestValue::Cmd1(self.0)
    }

    fn recover_spec(m: TestValue) -> Option<Command1> {
        match m {
            TestValue::Cmd1(x) => Some(Command1(x)),
            _ => None,
        }
    }

    fn erase_result_spec(r: Result<u32, TestError>) -> TestValue {
        TestValue::Outcome1(r)
    }

    fn recover_result_spec(m: TestValue) -> Option<Result<u32, TestError>> {
        match m {
            TestValue::Outcome1(r) => Some(r),
            _ => None,
        }
    }

    fn type_key() -> u64 {
        2
    }

    fn erase(self) -> TestValue {
        TestValue::Cmd1(self.0)
    }

    fn recover(m: TestValue) -> Option<Command1> {
        match m {
            TestValue::Cmd1(x) => Some(Command1(x)),
            _ => None,
        }
    }

    fn erase_result(r: Result<u32, TestError>) -> TestValue {
        TestValue::Outcome1(r)
    }

    fn recover_result(m: TestValue) -> Option<Result<u32, TestError>> {
        match m {
            TestValue::Outcome1(r) => Some(r),
            _ => None,
        }
    }

    fn lemma_recover_erase(_c: Self) {}

    fn lemma_recover_erase_result(_r: Result<u32, TestError>) {}
}

struct Command1Handler;

impl CommandHandler<Command1> for Command1Handler {
    fn post(&self, command: Command1, result: Result<u32, TestError>) -> bool {
        result == Ok(command.0)
    }

    fn handle(&self, cmd: Command1) -> Result<u32, TestError> {
        Ok(cmd.0)
    }
}

// Command type 2 for registry tests
#[derive(Debug)]
struct Command2(String);

impl Command for Command2 {
    type Response = String;
    type Error = TestError;
    type Erased = TestValue;

    fn key_spec() -> u64 {
        3
    }

    fn erase_spec(self) -> TestValue {
        TestValue::Cmd2(self.0)
    }

    fn recover_spec(m: TestValue) -> Option<Command2> {
        match m {
            TestValue::Cmd2(x) => Some(Command2(x)),
            _ => None,
        }
    }

    fn erase_result_spec(r: Result<String, TestError>) -> TestValue {
        TestValue::Outcome2(r)
    }

    fn recover_result_spec(m: TestValue) -> Option<Result<String, TestError>> {
        match m {
            TestValue::Outcome2(r) => Some(r),
            _ => None,
        }
    }

    fn type_key() -> u64 {
        3
    }

    fn erase(self) -> TestValue {
        TestValue::Cmd2(self.0)
    }

    fn recover(m: TestValue) -> Option<Command2> {
        match m {
            TestValue::Cmd2(x) => Some(Command2(x)),
            _ => None,
        }
    }

    fn erase_result(r: Result<String, TestError>) -> TestValue {
        TestValue::Outcome2(r)
    }

    fn recover_result(m: TestValue) -> Option<Result<String, TestError>> {
        match m {
            TestValue::Outcome2(r) => Some(r),
            _ => None,
        }
    }

    fn lemma_recover_erase(_c: Self) {}

    fn lemma_recover_erase_result(_r: Result<String, TestError>) {}
}

struct Command2Handler;

impl CommandHandler<Command2> for Command2Handler {
    fn post(&self, command: Command2, result: Result<String, TestError>) -> bool {
        result == Ok(command.0)
    }

    fn handle(&self, cmd: Command2) -> Result<String, TestError> {
        Ok(cmd.0)
    }
}

// A registry stores one wrapper type; this enum is the uniform wrapper for
// the two command types of the registry tests.
enum PairWrapper {
    One(ErasedCommandHandler<Command1, Command1Handler>),
    Two(ErasedCommandHandler<Command2, Command2Handler>),
}

impl CommandHandlerWrapper for PairWrapper {
    type Message = TestValue;

    fn key(&self) -> u64 {
        match self {
            PairWrapper::One(_) => 2,
            PairWrapper::Two(_) => 3,
        }
    }

    fn accepts(&self, m: TestValue) -> bool {
        match self {
            PairWrapper::One(_) => matches!(m, TestValue::Cmd1(_)),
            PairWrapper::Two(_) => matches!(m, TestValue::Cmd2(_)),
        }
    }

    fn post(&self, _m: TestValue, _o: TestValue) -> bool {
        true
    }

    fn execute(&self, m: TestValue) -> TestValue {
        match self {
            PairWrapper::One(w) => w.execute(m),
            PairWrapper::Two(w) => w.execute(m),
        }
    }
}

#[test]
fn test_command_registry_empty() {
    let registry: CommandHandlerRegistry<PairWrapper> = CommandHandlerRegistry::new();
    assert!(registry.get_handler::<Command1>().is_none());
}

#[test]
fn test_command_registry_single_registration() {
    let mut registry: CommandHandlerRegistry<PairWrapper> = CommandHandlerRegistry::new();

    // Initially no handler is registered
    assert!(registry.get_handler::<Command1>().is_none());

    // Register a handler
    registry.register::<Command1>(PairWrapper::One(ErasedCommandHandler::new(Command1Handler)));

    // Now a handler should be available
    let handler = registry.get_handler::<Command1>();
    assert!(handler.is_some());

    // The handler should work correctly
    let result = handle_command(handler.unwrap(), Command1(42));
    assert!(result.is_ok());
    assert_eq!(result.unwrap(), 42);
}

#[test]
fn test_command_registry_multiple_registrations() {
    let mut registry: CommandHandlerRegistry<PairWrapper> = CommandHandlerRegistry::new();

    // Register multiple handlers
    registry.register::<Command1>(PairWrapper::One(ErasedCommandHandler::new(Command1Handler)));
    registry.register::<Command2>(PairWrapper::Two(ErasedCommandHandler::new(Command2Handler)));

    // Both handlers should be available
    assert!(registry.get_handler::<Command1>().is_some());
    assert!(registry.get_handler::<Command2>().is_some());

    // Test Command1 handler
    let handler1 = registry.get_handler::<Command1>().unwrap();
    let result1 = handle_command(handler1, Command1(42));
    assert!(result1.is_ok());
    assert_eq!(result1.unwrap(), 42);

    // Test Command2 handler
    let handler2 = registry.get_handler::<Command2>().unwrap();
    let result2 = handle_command(handler2, Command2("test".to_string()));
    assert!(result2.is_ok());
    assert_eq!(result2.unwrap(), "test");
}

// A second handler for Command1, used by the overwrite test
struct AnotherCommand1Handler;

impl CommandHandler<Command1> for AnotherCommand1Handler {
    fn post(&self, command: Command1, result: Result<u32, TestError>) -> bool {
        result == Ok(command.0 * 2)
    }

    fn handle(&self, cmd: Command1) -> Result<u32, TestError> {
        Ok(cmd.0 * 2) // This one doubles the value
    }
}

// Uniform wrapper over the two handlers the overwrite test registers for
// the same command type.
enum OverwriteWrapper {
    First(ErasedCommandHandler<Command1, Command1Handler>),
    Second(ErasedCommandHandler<Command1, AnotherCommand1Handler>),
}

impl CommandHandlerWrapper for OverwriteWrapper {
    type Message = TestValue;

    fn key(&self) -> u64 {
        2
    }

    fn accepts(&self, m: TestValue) -> bool {
        matches!(m, TestValue::Cmd1(_))
    }

    fn post(&self, _m: TestValue, _o: TestValue) -> bool {
        true
    }

    fn execute(&self, m: TestValue) -> TestValue {
        match self {
            OverwriteWrapper::First(w) => w.execute(m),
            OverwriteWrapper::Second(w) => w.execute(m),
        }
    }
}

#[test]
fn test_command_registry_handler_overwrite() {
    let mut registry: CommandHandlerRegistry<OverwriteWrapper> = CommandHandlerRegistry::new();

    // Register first handler
    registry.register::<Command1>(OverwriteWrapper::First(ErasedCommandHandler::new(
        Command1Handler,
    )));

    // Test first handler
    let handler1 = registry.get_handler::<Command1>().unwrap();
    let result1 = handle_command(handler1, Command1(42));
    assert_eq!(result1.unwrap(), 42);

    // Register second handler (overwrites first one)
    registry.register::<Command1>(OverwriteWrapper::Second(ErasedCommandHandler::new(
        AnotherCommand1Handler,
    )));

    // Test second handler
    let handler2 = registry.get_handler::<Command1>().unwrap();
    let result2 = handle_command(handler2, Command1(42));
    assert_eq!(result2.unwrap(), 84); // Should be doubled now
}
