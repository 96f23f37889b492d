use firstlang::types::{ScalarKind, Type};
use firstlang::InferError;

fn int_ty() -> Type {
    Type::Scalar(ScalarKind::Int)
}

fn bool_ty() -> Type {
    Type::Scalar(ScalarKind::Bool)
}

fn func(params: Vec<Type>, ret: Type) -> Type {
    Type::Function(params, Box::new(ret))
}

#[test]
fn pushing_unknown_changes_nothing() {
    let samples = vec![
        int_ty(),
        bool_ty(),
        Type::Unit,
        Type::Unknown,
        func(vec![Type::Unknown, int_ty()], bool_ty()),
    ];
    for t in samples {
        let mut receiver = t.clone();
        assert_eq!(receiver.push(&Type::Unknown).unwrap(), false);
        assert_eq!(receiver, t);
    }
}

#[test]
fn pushing_resolved_into_unknown_then_again() {
    let t = func(vec![int_ty()], bool_ty());
    let mut receiver = Type::Unknown;
    assert_eq!(receiver.push(&t).unwrap(), true);
    assert_eq!(receiver, t);
    assert_eq!(receiver.push(&t).unwrap(), false);
    assert_eq!(receiver, t);
}

#[test]
fn push_fills_unknown_parts_of_a_function() {
    let mut receiver = func(vec![Type::Unknown, int_ty()], Type::Unknown);
    let other = func(vec![bool_ty(), Type::Unknown], int_ty());
    assert_eq!(receiver.push(&other).unwrap(), true);
    assert_eq!(receiver, func(vec![bool_ty(), int_ty()], int_ty()));
}

#[test]
fn push_of_equal_units_and_scalars_succeeds() {
    let mut u = Type::Unit;
    assert_eq!(u.push(&Type::Unit).unwrap(), false);
    let mut i = int_ty();
    assert_eq!(i.push(&int_ty()).unwrap(), false);
}

#[test]
fn push_rejects_conflicting_types() {
    let mut i = int_ty();
    match i.push(&bool_ty()) {
        Err(InferError::TypeMismatch { expected, found }) => {
            assert_eq!(expected, bool_ty());
            assert_eq!(found, int_ty());
        }
        other => panic!("unexpected {:?}", other),
    }
    assert_eq!(i, int_ty());
    let mut f = func(vec![int_ty()], int_ty());
    assert!(f.push(&func(vec![int_ty(), int_ty()], int_ty())).is_err());
    let mut u = Type::Unit;
    assert!(u.push(&int_ty()).is_err());
}

#[test]
fn push_complete_on_equal_receiver_is_a_no_op() {
    for t in vec![int_ty(), bool_ty(), Type::Unit, Type::Unknown, func(vec![int_ty()], Type::Unit)] {
        let mut receiver = t.clone();
        assert_eq!(receiver.push_complete(t.clone()).unwrap(), false);
        assert_eq!(receiver, t);
    }
}

#[test]
fn push_complete_assigns_unknown_and_rejects_others() {
    let mut receiver = Type::Unknown;
    assert_eq!(receiver.push_complete(Type::Unit).unwrap(), true);
    assert_eq!(receiver, Type::Unit);
    let mut partial = func(vec![Type::Unknown], int_ty());
    assert!(matches!(
        partial.push_complete(func(vec![int_ty()], int_ty())),
        Err(InferError::TypeMismatch { .. })
    ));
}

#[test]
fn sync_makes_both_sides_equal() {
    let mut a = func(vec![Type::Unknown], int_ty());
    let mut b = func(vec![bool_ty()], Type::Unknown);
    assert_eq!(a.sync(&mut b).unwrap(), true);
    assert_eq!(a, func(vec![bool_ty()], int_ty()));
    assert_eq!(b, a);
    assert_eq!(a.sync(&mut b).unwrap(), false);
}

#[test]
fn sync_fills_the_argument_from_the_receiver() {
    let mut a = int_ty();
    let mut b = Type::Unknown;
    assert_eq!(a.sync(&mut b).unwrap(), true);
    assert_eq!(b, int_ty());
}

#[test]
fn sync_fails_on_conflict_in_either_order() {
    let mut a = int_ty();
    let mut b = bool_ty();
    assert!(a.sync(&mut b).is_err());
    let mut a = int_ty();
    let mut b = bool_ty();
    assert!(b.sync(&mut a).is_err());
    let mut f = func(vec![int_ty()], int_ty());
    let mut g = func(vec![], int_ty());
    assert!(f.sync(&mut g).is_err());
    let mut f = func(vec![int_ty()], int_ty());
    let mut g = func(vec![], int_ty());
    assert!(g.sync(&mut f).is_err());
}

#[test]
fn resolution_and_equality_of_types() {
    assert!(func(vec![int_ty()], bool_ty()).is_resolved());
    assert!(!func(vec![Type::Unknown], bool_ty()).is_resolved());
    assert!(!Type::Unknown.is_resolved());
    assert!(int_ty().same_as(&int_ty()));
    assert!(!func(vec![int_ty()], int_ty()).same_as(&func(vec![bool_ty()], int_ty())));
    assert!(int_ty().can_unify(&Type::Unknown));
    assert!(!int_ty().can_unify(&Type::Unit));
    assert!(ScalarKind::Int.is_numeric());
    assert!(!ScalarKind::Bool.is_numeric());
}
