use trampoline::cont::{Cont, ContImpl, ContResult, End};
use trampoline::transform::{Plan, Transform};
use trampoline::value::Value;

fn drive(start: Cont) -> (Value, u64) {
    let mut cur = start;
    let mut runs: u64 = 0;
    loop {
        runs += 1;
        let mut slot: Option<ContResult> = None;
        cur.run(End::new(|r| {
            slot = Some(r);
        }));
        match slot.expect("the end-continuation must be invoked") {
            ContResult::Done(v) => {
                return (v, runs);
            }
            ContResult::More(next) => {
                cur = next;
            }
        }
    }
}

#[test]
fn cont_lift_map_flat_map_reaches_done_twelve() {
    let c = Cont::lift(ContImpl::Emit(Value::Int(5)))
        .map(Transform::AddConst(1))
        .flat_map(Plan::Finish(Transform::MulConst(2)));
    let (v, runs) = drive(c);
    assert_eq!(v, Value::Int(12));
    assert_eq!(runs, 2);
}

#[test]
fn cont_flat_map_delivers_remaining_work_first() {
    // producing the next computation counts as one step: the first run must
    // deliver More, not Done, and the transform fires only on the second
    let c = Cont::lift(ContImpl::Emit(Value::Int(5)))
        .flat_map(Plan::Finish(Transform::AddConst(1)));
    let mut slot: Option<ContResult> = None;
    c.run(End::new(|r| {
        slot = Some(r);
    }));
    match slot.expect("the end-continuation must be invoked") {
        ContResult::Done(_) => panic!("the first run must not finish"),
        ContResult::More(next) => {
            let (v, runs) = drive(next);
            assert_eq!(v, Value::Int(6));
            assert_eq!(runs, 1);
        }
    }
}

#[test]
fn cont_map_identity_yields_the_source_value() {
    let (direct, _) = drive(Cont::lift(ContImpl::Emit(Value::Int(9))));
    let (mapped, _) = drive(Cont::lift(ContImpl::Emit(Value::Int(9))).map(Transform::Identity));
    assert_eq!(mapped, direct);
    assert_eq!(mapped, Value::Int(9));
}

#[test]
fn cont_map_composition_matches_composed_transform() {
    let (two_maps, _) = drive(
        Cont::lift(ContImpl::Emit(Value::Int(5)))
            .map(Transform::AddConst(1))
            .map(Transform::MulConst(2)),
    );
    let (one_map, _) = drive(Cont::lift(ContImpl::Emit(Value::Int(5))).map(Transform::Compose(
        Box::new(Transform::AddConst(1)),
        Box::new(Transform::MulConst(2)),
    )));
    assert_eq!(two_maps, one_map);
    assert_eq!(two_maps, Value::Int(12));
}

#[test]
fn cont_flat_map_is_associative() {
    let (left, left_runs) = drive(
        Cont::lift(ContImpl::Emit(Value::List(Vec::new())))
            .flat_map(Plan::Finish(Transform::PushItem(1)))
            .flat_map(Plan::Finish(Transform::PushItem(2))),
    );
    let (right, right_runs) = drive(Cont::lift(ContImpl::Emit(Value::List(Vec::new()))).flat_map(
        Plan::Chain(
            Box::new(Plan::Finish(Transform::PushItem(1))),
            Box::new(Plan::Finish(Transform::PushItem(2))),
        ),
    ));
    assert_eq!(left, right);
    assert_eq!(left, Value::List(vec![1, 2]));
    assert_eq!(left_runs, right_runs);
}

#[test]
fn cont_paused_base_rewraps_the_pending_transform() {
    let c = Cont::lift(ContImpl::Pause(Box::new(ContImpl::Emit(Value::Int(21)))))
        .map(Transform::MulConst(2));
    let mut slot: Option<ContResult> = None;
    c.run(End::new(|r| {
        slot = Some(r);
    }));
    match slot.expect("the end-continuation must be invoked") {
        ContResult::Done(_) => panic!("the first run must not finish"),
        ContResult::More(next) => {
            let (v, runs) = drive(next);
            assert_eq!(v, Value::Int(42));
            assert_eq!(runs, 1);
        }
    }
}
