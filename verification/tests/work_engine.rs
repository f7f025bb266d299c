use trampoline::transform::{Plan, Transform};
use trampoline::value::Value;
use trampoline::work::{Work, WorkImpl, WorkResult};

fn drive(start: Work) -> (Value, u64) {
    let mut w = start;
    let mut steps_taken: u64 = 0;
    loop {
        steps_taken += 1;
        match w.run() {
            WorkResult::Done(v) => {
                return (v, steps_taken);
            }
            WorkResult::More(next) => {
                w = next;
            }
        }
    }
}

#[test]
fn work_emit_is_done_in_one_step() {
    let w = Work::lift(WorkImpl::Emit(Value::Int(7)));
    let (v, steps_taken) = drive(w);
    assert_eq!(v, Value::Int(7));
    assert_eq!(steps_taken, 1);
}

#[test]
fn work_map_identity_yields_the_source_value() {
    let direct = Work::lift(WorkImpl::Emit(Value::Int(41))).run_to_done();
    let mapped = Work::lift(WorkImpl::Emit(Value::Int(41)))
        .map(Transform::Identity)
        .run_to_done();
    assert_eq!(mapped, direct);
    assert_eq!(mapped, Value::Int(41));
}

#[test]
fn work_map_composition_matches_composed_transform() {
    let two_maps = Work::lift(WorkImpl::Emit(Value::Int(5)))
        .map(Transform::AddConst(1))
        .map(Transform::MulConst(2))
        .run_to_done();
    let one_map = Work::lift(WorkImpl::Emit(Value::Int(5)))
        .map(Transform::Compose(
            Box::new(Transform::AddConst(1)),
            Box::new(Transform::MulConst(2)),
        ))
        .run_to_done();
    assert_eq!(two_maps, one_map);
    assert_eq!(two_maps, Value::Int(12));
}

#[test]
fn work_flat_map_is_associative() {
    let left = Work::lift(WorkImpl::Emit(Value::List(Vec::new())))
        .flat_map(Plan::Finish(Transform::PushItem(1)))
        .flat_map(Plan::Finish(Transform::PushItem(2)))
        .run_to_done();
    let right = Work::lift(WorkImpl::Emit(Value::List(Vec::new())))
        .flat_map(Plan::Chain(
            Box::new(Plan::Finish(Transform::PushItem(1))),
            Box::new(Plan::Finish(Transform::PushItem(2))),
        ))
        .run_to_done();
    assert_eq!(left, right);
    assert_eq!(left, Value::List(vec![1, 2]));
}

#[test]
fn work_chain_of_ten_thousand_flat_maps() {
    let mut w = Work::lift(WorkImpl::Emit(Value::List(Vec::new())));
    let mut i: u64 = 0;
    while i < 10_000 {
        w = w.flat_map(Plan::Finish(Transform::PushItem(i)));
        i += 1;
    }
    let (v, steps_taken) = drive(w);
    match v {
        Value::List(items) => {
            assert_eq!(items.len(), 10_000);
            // the continuations fired in the order the chain was built
            let mut j: usize = 0;
            while j < items.len() {
                assert_eq!(items[j], j as u64);
                j += 1;
            }
        }
        Value::Int(_) => panic!("expected a list"),
    }
    // one step per flat-map link plus one for the innermost emit
    assert_eq!(steps_taken, 10_001);
}

#[test]
fn work_non_terminal_step_defers_the_transform() {
    let base = WorkImpl::Pause(Box::new(WorkImpl::Emit(Value::Int(21))));
    let w = Work::lift(base).map(Transform::MulConst(2));
    match w.run() {
        WorkResult::Done(_) => panic!("the first step must not finish"),
        WorkResult::More(rest) => match rest.run() {
            WorkResult::Done(v) => assert_eq!(v, Value::Int(42)),
            WorkResult::More(_) => panic!("the second step must finish"),
        },
    }
}

#[test]
fn work_delay_plan_adds_one_pause() {
    let w = Work::lift(WorkImpl::Emit(Value::Int(10)))
        .flat_map(Plan::Delay(Transform::AddConst(5)));
    let (v, steps_taken) = drive(w);
    assert_eq!(v, Value::Int(15));
    assert_eq!(steps_taken, 3);
}

#[test]
fn work_add_wraps_at_the_integer_boundary() {
    let v = Work::lift(WorkImpl::Emit(Value::Int(u64::MAX)))
        .map(Transform::AddConst(1))
        .run_to_done();
    assert_eq!(v, Value::Int(0));
}

#[test]
fn work_mul_wraps_at_the_integer_boundary() {
    let v = Work::lift(WorkImpl::Emit(Value::Int(1 << 63)))
        .map(Transform::MulConst(2))
        .run_to_done();
    assert_eq!(v, Value::Int(0));
}

#[test]
fn work_transform_on_the_wrong_shape_leaves_the_value() {
    let on_list = Work::lift(WorkImpl::Emit(Value::List(vec![3])))
        .map(Transform::AddConst(1))
        .run_to_done();
    assert_eq!(on_list, Value::List(vec![3]));
    let on_int = Work::lift(WorkImpl::Emit(Value::Int(3)))
        .map(Transform::PushItem(1))
        .run_to_done();
    assert_eq!(on_int, Value::Int(3));
}

#[test]
fn work_map_fires_exactly_once() {
    // a transform applied more than once would overshoot the expected value
    let v = Work::lift(WorkImpl::Pause(Box::new(WorkImpl::Emit(Value::Int(0)))))
        .map(Transform::AddConst(1))
        .run_to_done();
    assert_eq!(v, Value::Int(1));
}
