use hitbox::eval_context::EvalContext;

struct StringValue(String);
struct Counter(u32);

#[test]
fn test_insert_and_get() {
    let mut ctx = EvalContext::new();
    ctx.insert(StringValue("hello".into()));

    assert!(ctx.contains::<StringValue>());
    assert_eq!(ctx.get::<StringValue>().unwrap().0, "hello");
}

#[test]
fn test_insert_replaces() {
    let mut ctx = EvalContext::new();
    ctx.insert(Counter(1));
    ctx.insert(Counter(2));
    assert_eq!(ctx.get::<Counter>().unwrap().0, 2);
}

#[test]
fn test_get_or_insert_with() {
    let mut ctx = EvalContext::new();

    // First call inserts
    let val = ctx.get_or_insert_with(|| Counter(42)).unwrap();
    assert_eq!(val.0, 42);

    // Second call returns existing
    let val = ctx.get_or_insert_with(|| Counter(99)).unwrap();
    assert_eq!(val.0, 42);
}

#[test]
fn test_remove() {
    let mut ctx = EvalContext::new();
    ctx.insert(Counter(10));
    let removed = ctx.remove::<Counter>();
    assert_eq!(removed.unwrap().0, 10);
    assert!(!ctx.contains::<Counter>());
}

#[test]
fn test_missing_type_returns_none() {
    let ctx = EvalContext::new();
    assert!(ctx.get::<Counter>().is_none());
}

#[test]
fn test_multiple_types() {
    let mut ctx = EvalContext::new();
    ctx.insert(StringValue("a".into()));
    ctx.insert(Counter(1));

    assert_eq!(ctx.get::<StringValue>().unwrap().0, "a");
    assert_eq!(ctx.get::<Counter>().unwrap().0, 1);
}

#[test]
fn test_default() {
    let ctx = EvalContext::default();
    assert!(!ctx.contains::<Counter>());
}

#[test]
fn one_entry_per_type() {
    let mut ctx = EvalContext::new();
    ctx.insert(Counter(1));
    ctx.insert(Counter(2));
    ctx.insert(StringValue("x".into()));
    assert_eq!(ctx.len(), 2);
    assert!(ctx.remove::<Counter>().is_some());
    assert!(ctx.remove::<Counter>().is_none());
    assert_eq!(ctx.len(), 1);
}
