use installer_core::executor::{run_plan, PlanRun, TaskPerformer};
use installer_core::task::{TaskParamType, TaskUnit};

fn named(name: &str) -> TaskUnit {
    TaskUnit::Named { name: name.to_string() }
}

struct Scripted {
    ran: Vec<String>,
    inputs: Vec<String>,
}

impl TaskPerformer for Scripted {
    fn perform(&mut self, task: &TaskUnit, input: &TaskParamType) -> Result<TaskParamType, String> {
        let name = task.name();
        self.ran.push(name.clone());
        self.inputs.push(format!("{:?}", input));
        if name == "B" {
            Err("boom".to_string())
        } else {
            Ok(TaskParamType::Str(name))
        }
    }
}

#[test]
fn failure_aborts_remaining_plan() {
    let mut performer = Scripted { ran: Vec::new(), inputs: Vec::new() };
    let result = run_plan(vec![named("A"), named("B"), named("C")], &mut performer);
    assert_eq!(performer.ran, vec!["A", "B"]);
    match result {
        Err(e) => {
            assert!(e.message.contains("boom"));
            assert_eq!(e.task_name, "B");
        }
        Ok(_) => panic!("the plan should fail"),
    }
}

#[test]
fn values_flow_between_steps() {
    let mut performer = Scripted { ran: Vec::new(), inputs: Vec::new() };
    let result = run_plan(vec![named("A"), named("C")], &mut performer);
    assert_eq!(performer.ran, vec!["A", "C"]);
    assert_eq!(performer.inputs, vec!["Nothing".to_string(), "Str(\"A\")".to_string()]);
    match result {
        Ok(TaskParamType::Str(s)) => assert_eq!(s, "C"),
        other => panic!("unexpected {:?}", other.is_ok()),
    }
}

#[test]
fn empty_plan_returns_nothing() {
    let mut performer = Scripted { ran: Vec::new(), inputs: Vec::new() };
    let result = run_plan(Vec::new(), &mut performer);
    assert!(performer.ran.is_empty());
    assert!(matches!(result, Ok(TaskParamType::Nothing)));
}

#[test]
fn stepwise_run_stops_after_failure() {
    let mut run = PlanRun::new(vec![named("A"), named("B"), named("C")]);
    assert!(!run.is_finished());
    assert_eq!(run.current_task().unwrap().name(), "A");
    run.report(Ok(TaskParamType::Bool(true)));
    assert!(matches!(run.current_input(), TaskParamType::Bool(true)));
    assert_eq!(run.current_task().unwrap().name(), "B");
    run.report(Err("boom".to_string()));
    assert!(run.is_finished());
    assert!(run.current_task().is_none());
    match run.into_result() {
        Err(e) => {
            assert_eq!(e.message, "boom");
            assert_eq!(e.task_name, "B");
        }
        Ok(_) => panic!("the run should have failed"),
    }
}
