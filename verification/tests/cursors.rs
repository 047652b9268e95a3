use pluralize::Adder;
use pluralize::Plural;
use pluralize::Pluralize;
use pluralize::PluralizeControlIter;
use pluralize::RemoveError;
use pluralize::Remover;

fn many(values: &[i32]) -> Plural<i32> {
    Plural::Many(values.to_vec())
}

fn into_values(p: Plural<i32>) -> Vec<i32> {
    match p {
        Plural::Single(x) => vec![x],
        Plural::Many(v) => v,
    }
}

#[test]
fn appender_appends_in_order() {
    let mut adder = Adder::new(many(&[]));
    assert!(adder.next());
    adder.controller.add(1);
    assert!(adder.next());
    adder.controller.add(2);
    assert!(adder.next());
    adder.controller.clear();
    assert!(!adder.next());
    assert_eq!(into_values(adder.into_inner()), vec![1, 2]);
}

#[test]
fn appender_without_add_leaves_unchanged() {
    let mut adder = Adder::new(many(&[4, 5]));
    assert!(adder.next());
    assert!(!adder.next());
    assert!(adder.done);
    assert!(!adder.next());
    assert_eq!(into_values(adder.into_inner()), vec![4, 5]);
}

#[test]
fn appender_over_bare_element_is_inert() {
    let mut adder = Adder::new(5i32);
    let mut exposures: usize = 0;
    while adder.next() {
        exposures += 1;
        adder.controller.add(9);
    }
    assert_eq!(exposures, 1);
    assert_eq!(adder.into_inner(), 5);
}

#[test]
fn appender_through_control_iter_trait() {
    let mut adder = vec![7i32].adder();
    assert!(adder.next());
    adder.controller.add(8);
    assert!(adder.next());
    assert!(!adder.next());
    assert_eq!(adder.into_inner(), vec![7, 8]);
}

#[test]
fn remover_removes_middle_element() {
    let mut remover = Remover::new(many(&[10, 20, 30]));
    let mut visited: Vec<i32> = Vec::new();
    loop {
        match remover.next().unwrap() {
            Some(i) => {
                let v = *remover.get(i);
                visited.push(v);
                if v == 20 {
                    remover.controller.remove();
                }
            }
            None => break,
        }
    }
    // 30 is re-numbered into 20's position and visited exactly once
    assert_eq!(visited, vec![10, 20, 30]);
    assert_eq!(into_values(remover.into_inner()), vec![10, 30]);
}

#[test]
fn remover_without_removals_visits_all_in_order() {
    let mut remover = Remover::new(many(&[10, 20, 30]));
    let mut visited: Vec<i32> = Vec::new();
    while let Some(i) = remover.next().unwrap() {
        visited.push(*remover.get(i));
        remover.controller.pass();
    }
    assert_eq!(visited, vec![10, 20, 30]);
    assert_eq!(into_values(remover.into_inner()), vec![10, 20, 30]);
}

#[test]
fn remover_removes_first_and_last() {
    let mut remover = Remover::new(many(&[10, 20, 30]));
    while let Some(i) = remover.next().unwrap() {
        let v = *remover.get(i);
        if v == 10 || v == 30 {
            remover.controller.remove();
        }
    }
    assert_eq!(into_values(remover.into_inner()), vec![20]);
}

#[test]
fn remover_removes_everything() {
    let mut remover = Remover::new(many(&[10, 20, 30]));
    let mut visited: Vec<i32> = Vec::new();
    while let Some(i) = remover.next().unwrap() {
        visited.push(*remover.get(i));
        remover.controller.remove();
    }
    assert_eq!(visited, vec![10, 20, 30]);
    assert_eq!(into_values(remover.into_inner()), vec![]);
}

#[test]
fn remover_over_bare_element_fails_fatally() {
    let mut remover = Remover::new(Plural::Single(77i32));
    assert_eq!(remover.next(), Ok(Some(0)));
    assert_eq!(*remover.get(0), 77);
    remover.controller.remove();
    assert_eq!(remover.next(), Err(RemoveError::BareRemoval));
    // the bare slot is neither emptied nor corrupted
    assert_eq!(into_values(remover.into_inner()), vec![77]);
}

#[test]
fn remover_rewrites_current_element() {
    let mut remover = Remover::new(many(&[10, 20, 30]));
    while let Some(i) = remover.next().unwrap() {
        let v = *remover.get(i);
        remover.set(i, v + 1);
    }
    assert_eq!(into_values(remover.into_inner()), vec![11, 21, 31]);
}

#[test]
fn remover_through_control_iter_trait() {
    let mut remover = vec![3i32, 4].remover();
    assert_eq!(remover.next(), Ok(Some(0)));
    remover.controller.remove();
    assert_eq!(remover.next(), Ok(Some(0)));
    assert_eq!(remover.next(), Ok(None));
    assert_eq!(remover.into_inner(), vec![4]);
}

#[test]
fn redundant_pass_and_clear_change_nothing() {
    let mut adder = Adder::new(many(&[1, 2]));
    adder.controller.clear();
    assert!(adder.controller.cell.is_none());
    assert!(adder.next());
    adder.controller.clear();
    adder.controller.clear();
    assert!(!adder.next());
    assert_eq!(into_values(adder.into_inner()), vec![1, 2]);

    let mut remover = Remover::new(many(&[1, 2]));
    remover.controller.pass();
    let mut visited: Vec<i32> = Vec::new();
    while let Some(i) = remover.next().unwrap() {
        visited.push(*remover.get(i));
        remover.controller.pass();
        remover.controller.pass();
    }
    assert_eq!(visited, vec![1, 2]);
    assert_eq!(into_values(remover.into_inner()), vec![1, 2]);
}

#[test]
fn cursors_over_empty_sequence() {
    let mut adder = Adder::new(many(&[]));
    assert!(adder.next());
    assert!(!adder.next());
    assert_eq!(into_values(adder.into_inner()), vec![]);

    let mut remover = Remover::new(many(&[]));
    assert_eq!(remover.next(), Ok(None));
    assert_eq!(into_values(remover.into_inner()), vec![]);
}

#[test]
fn last_write_before_the_step_wins() {
    let mut adder = Adder::new(many(&[]));
    assert!(adder.next());
    adder.controller.add(1);
    adder.controller.add(2);
    assert!(adder.next());
    adder.controller.clear();
    assert!(!adder.next());
    assert_eq!(into_values(adder.into_inner()), vec![2]);
}
