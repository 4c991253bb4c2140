use mococp::engine::{Operation, TimerControl};
use mococp::hours::Hours;
use mococp::model::{
    customer_places, projects_of_customer, ControlActivityTimer, CreateActivity, Customer, Project,
    Timer,
};

fn project(id: i64, customer: i64) -> Project {
    Project {
        id,
        name: format!("p{}", id),
        customer: Customer { id: customer, name: format!("c{}", customer) },
        ..Default::default()
    }
}

#[test]
fn timer_control_words() {
    let start = ControlActivityTimer::new(7, TimerControl::Start);
    assert_eq!(start.control, "start");
    assert_eq!(start.activity_id, 7);
    let stop = ControlActivityTimer::new(99, TimerControl::Stop);
    assert_eq!(stop.control, "stop");
    assert_eq!(stop.activity_id, 99);
}

#[test]
fn timer_subcommand_operations() {
    assert_eq!(Timer::Start { activity: Some(5) }.operation(1), Operation::StartTimer { activity_id: 5 });
    assert_eq!(Timer::Start { activity: None }.operation(1), Operation::StartTimer { activity_id: 1 });
    assert_eq!(Timer::Stop.operation(1), Operation::StopTimer);
    assert!(Timer::Start { activity: None }.needs_choice());
    assert!(!Timer::Start { activity: Some(5) }.needs_choice());
    assert!(!Timer::Stop.needs_choice());
}

#[test]
fn one_place_per_customer_in_order() {
    let ps = vec![project(1, 10), project(2, 20), project(3, 10), project(4, 30), project(5, 20)];
    assert_eq!(customer_places(&ps), vec![0, 1, 3]);
    assert_eq!(customer_places(&Vec::new()), Vec::<usize>::new());
}

#[test]
fn projects_of_one_customer() {
    let ps = vec![project(1, 10), project(2, 20), project(3, 10), project(4, 30)];
    assert_eq!(projects_of_customer(&ps, 10), vec![0, 2]);
    assert_eq!(projects_of_customer(&ps, 30), vec![3]);
    assert_eq!(projects_of_customer(&ps, 99), Vec::<usize>::new());
}

#[test]
fn create_request_keeps_its_fields() {
    let r = CreateActivity::new(10, 20, "2024-05-01".to_string(), Some(Hours { micros: 2_000_000 }), "work".to_string());
    assert_eq!(r.project_id, 10);
    assert_eq!(r.task_id, 20);
    assert_eq!(r.date, "2024-05-01");
    assert_eq!(r.hours, Some(Hours { micros: 2_000_000 }));
    assert_eq!(r.description, "work");
    assert_eq!(r.seconds, None);
    assert_eq!(r.tag, None);
    assert_eq!(r.operation(), Operation::Create { hours: Some(Hours { micros: 2_000_000 }) });
}

#[test]
fn create_request_without_hours_starts_a_timer() {
    let r = CreateActivity::new(10, 20, "2024-05-01".to_string(), None, String::new());
    assert_eq!(r.hours, None);
    assert_eq!(r.operation(), Operation::Create { hours: None });
}
