use hitbox::predicate::{And, Neutral, Not, Or, Predicate, PredicateExt, PredicateResult};

#[test]
fn test_predicate_ext_with_box_dyn() {
    let p1 = Neutral::<i32>::new();
    let p2 = Neutral::<i32>::new();

    let combined = p1.or(p2);

    let result = combined.check(42, &mut Default::default());
    assert!(matches!(result, PredicateResult::Cacheable(42)));
}

#[test]
fn test_predicate_ext_chaining_with_box_dyn() {
    let p1 = Neutral::<i32>::new();
    let p2 = Neutral::<i32>::new();
    let p3 = Neutral::<i32>::new();

    // Chain: p1.and(p2).or(p3).not()
    let combined = p1.and(p2).or(p3).not();

    let result = combined.check(42, &mut Default::default());
    assert!(matches!(result, PredicateResult::NonCacheable(42)));
}

#[test]
fn test_predicate_ext_boxed() {
    let p1 = Neutral::<i32>::new();
    let p2 = Neutral::<i32>::new();

    let combined = p1.or(p2);

    let result = combined.check(42, &mut Default::default());
    assert!(matches!(result, PredicateResult::Cacheable(42)));
}

#[test]
fn test_predicate_ext_boxed_in_vec() {
    let first = Neutral::<i32>::new();
    let second = Neutral::<i32>::new().not();

    let result1 = first.check(1, &mut Default::default());
    let result2 = second.check(2, &mut Default::default());

    assert!(matches!(result1, PredicateResult::Cacheable(1)));
    assert!(matches!(result2, PredicateResult::NonCacheable(2)));
}

#[test]
fn double_negation_gives_the_same_answer() {
    let p = Not::new(Not::new(Neutral::<u8>::new()));
    assert!(matches!(p.check(3, &mut ()), PredicateResult::Cacheable(3)));
    let q = Not::new(Not::new(Not::new(Neutral::<u8>::new())));
    assert!(matches!(q.check(3, &mut ()), PredicateResult::NonCacheable(3)));
}

#[test]
fn and_or_follow_de_morgan() {
    let yes = || Neutral::<u8>::new();
    let no = || Not::new(Neutral::<u8>::new());
    // not (yes and no) == (not yes) or (not no)
    let lhs = Not::new(And::new(yes(), no()));
    let rhs = Or::new(Not::new(yes()), Not::new(no()));
    assert_eq!(lhs.check(1, &mut ()).is_cacheable(), rhs.check(1, &mut ()).is_cacheable());
    // not (no or no) == (not no) and (not no)
    let lhs = Not::new(Or::new(no(), no()));
    let rhs = And::new(Not::new(no()), Not::new(no()));
    assert_eq!(lhs.check(1, &mut ()).is_cacheable(), rhs.check(1, &mut ()).is_cacheable());
    assert!(lhs.check(1, &mut ()).is_cacheable());
}

#[test]
fn and_rejects_when_either_side_rejects() {
    let p = And::new(Neutral::<u8>::new(), Not::new(Neutral::<u8>::new()));
    assert!(matches!(p.check(9, &mut ()), PredicateResult::NonCacheable(9)));
    let p = Or::new(Not::new(Neutral::<u8>::new()), Not::new(Neutral::<u8>::new()));
    assert!(matches!(p.check(9, &mut ()), PredicateResult::NonCacheable(9)));
}

#[test]
fn results_flip_and_hand_back_their_subject() {
    let r = PredicateResult::Cacheable(5u8);
    assert!(r.is_cacheable());
    let f = r.flip();
    assert!(!f.is_cacheable());
    assert_eq!(f.into_subject(), 5);
}

#[test]
fn references_boxes_and_shared_predicates_decide_as_their_target() {
    let p = Not::new(Neutral::<u8>::new());
    assert!(matches!((&p).check(1, &mut ()), PredicateResult::NonCacheable(1)));
    assert!(matches!(Box::new(Neutral::<u8>::new()).check(2, &mut ()), PredicateResult::Cacheable(2)));
    assert!(matches!(
        std::sync::Arc::new(Neutral::<u8>::new()).check(3, &mut ()),
        PredicateResult::Cacheable(3)
    ));
}
