use opentelemetry::Context;
use trace_carrier::ContextStack;

#[derive(Debug, PartialEq)]
struct Tag(u32);

#[test]
fn guard_lifo_restore() {
    assert!(Context::current().get::<Tag>().is_none());

    let cx_a = Context::current().with_value(Tag(1));
    let guard_a = cx_a.attach();
    assert_eq!(Context::current().get::<Tag>(), Some(&Tag(1)));

    let cx_b = Context::current().with_value(Tag(2));
    let guard_b = cx_b.attach();
    assert_eq!(Context::current().get::<Tag>(), Some(&Tag(2)));

    drop(guard_b);
    assert_eq!(Context::current().get::<Tag>(), Some(&Tag(1)));

    drop(guard_a);
    assert!(Context::current().get::<Tag>().is_none());
}

#[test]
fn context_stack_lifo() {
    let mut stack = ContextStack::new();
    assert_eq!(stack.current(), None);

    stack.attach(7);
    assert_eq!(stack.current(), Some(7));

    stack.attach(9);
    assert_eq!(stack.current(), Some(9));

    let released = stack.detach();
    assert_eq!(released, 9);
    assert_eq!(stack.current(), Some(7));

    let released = stack.detach();
    assert_eq!(released, 7);
    assert_eq!(stack.current(), None);
}
