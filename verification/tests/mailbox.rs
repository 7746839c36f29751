use context::stack::ProtectedFixedSizeStack;
use corona::switch::{Instruction, Mailbox, Switch, Task, WaitTask};
use tokio_core::reactor::Core;

type TestMailbox = Mailbox<u32, &'static str, u8>;

#[test]
fn a_new_mailbox_is_empty() {
    let mailbox = TestMailbox::new();
    assert!(mailbox.is_empty());
    assert!(mailbox.peek().is_none());
}

#[test]
fn mailbox_holds_what_was_put() {
    let mut mailbox = TestMailbox::new();
    mailbox.put(Switch::Resume);
    assert!(!mailbox.is_empty());
    assert_eq!(mailbox.peek().map(|switch| switch.kind()), Some(Instruction::Resume));
    assert!(matches!(mailbox.take(), Switch::Resume));
    assert!(mailbox.is_empty());
}

#[test]
fn mailbox_is_free_again_after_take() {
    let mut mailbox = TestMailbox::new();
    mailbox.put(Switch::Resume);
    assert!(matches!(mailbox.take(), Switch::Resume));
    mailbox.put(Switch::Cleanup);
    assert!(matches!(mailbox.take(), Switch::Cleanup));
    assert!(mailbox.is_empty());
}

#[test]
fn peek_leaves_the_instruction() {
    let mut mailbox = TestMailbox::new();
    mailbox.put(Switch::Cleanup);
    assert!(matches!(mailbox.peek(), Some(Switch::Cleanup)));
    assert!(matches!(mailbox.peek(), Some(Switch::Cleanup)));
    assert!(!mailbox.is_empty());
}

#[test]
fn mailbox_carries_the_payload() {
    let core = Core::new().unwrap();
    let stack = ProtectedFixedSizeStack::new(16384).unwrap();
    let top = stack.top();
    let mut mailbox = TestMailbox::new();
    mailbox.put(Switch::StartTask { stack, task: Task { handle: core.handle(), body: "body" } });
    match mailbox.take() {
        Switch::StartTask { stack, task } => {
            assert_eq!(stack.top(), top);
            assert_eq!(task.body, "body");
            assert_eq!(task.handle.id(), core.id());
        }
        _ => panic!("the instruction has changed"),
    }
}

#[test]
fn every_instruction_has_its_kind() {
    let core = Core::new().unwrap();
    let start: Switch<u32, &str, u8> = Switch::StartTask {
        stack: ProtectedFixedSizeStack::new(16384).unwrap(),
        task: Task { handle: core.handle(), body: "body" },
    };
    let wait: Switch<u32, &str, u8> =
        Switch::WaitFuture { task: WaitTask { poll: 1, context: None, handle: core.handle() } };
    let resume: Switch<u32, &str, u8> = Switch::Resume;
    let cleanup: Switch<u32, &str, u8> = Switch::Cleanup;
    let destroy: Switch<u32, &str, u8> =
        Switch::Destroy { stack: ProtectedFixedSizeStack::new(16384).unwrap() };
    assert_eq!(start.kind(), Instruction::StartTask);
    assert_eq!(wait.kind(), Instruction::WaitFuture);
    assert_eq!(resume.kind(), Instruction::Resume);
    assert_eq!(cleanup.kind(), Instruction::Cleanup);
    assert_eq!(destroy.kind(), Instruction::Destroy);
}

#[test]
fn a_second_instruction_is_refused() {
    let mut mailbox = TestMailbox::new();
    assert!(mailbox.try_put(Switch::Resume).is_ok());
    assert!(matches!(mailbox.try_put(Switch::Cleanup), Err(Switch::Cleanup)));
    assert!(matches!(mailbox.peek(), Some(Switch::Resume)));
    assert!(matches!(mailbox.take(), Switch::Resume));
    assert!(mailbox.is_empty());
}

#[test]
fn a_refused_instruction_keeps_what_it_carries() {
    let core = Core::new().unwrap();
    let stack = ProtectedFixedSizeStack::new(16384).unwrap();
    let top = stack.top();
    let mut mailbox = TestMailbox::new();
    mailbox.put(Switch::Resume);
    match mailbox.try_put(Switch::StartTask {
        stack,
        task: Task { handle: core.handle(), body: "body" },
    }) {
        Err(Switch::StartTask { stack, task }) => {
            assert_eq!(stack.top(), top);
            assert_eq!(task.body, "body");
        }
        _ => panic!("the mailbox was not empty"),
    }
    assert!(matches!(mailbox.take(), Switch::Resume));
}

#[test]
fn an_empty_mailbox_accepts() {
    let mut mailbox = TestMailbox::new();
    assert!(mailbox.try_put(Switch::Cleanup).is_ok());
    assert!(matches!(mailbox.take(), Switch::Cleanup));
    assert!(mailbox.try_put(Switch::Resume).is_ok());
    assert!(matches!(mailbox.take(), Switch::Resume));
}
