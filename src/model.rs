use vstd::prelude::*;

use itertools::Itertools;

use crate::engine::{Operation, TimerControl};
use crate::hours::Hours;

verus! {

/// The `timer` subcommand.
#[derive(Debug, Copy, Clone, PartialEq, Eq, PartialOrd, Ord, Structural)]
pub enum Timer {
    /// Start the timer of an activity, or of one chosen from a list.
    Start { activity: Option<i64> },
    Stop,
}

#[derive(Default, Debug, Clone, PartialEq, Eq)]
pub struct User {
    pub id: i64,
    pub firstname: String,
    pub lastname: String,
}

#[derive(Default, Debug, Clone, PartialEq, Eq)]
pub struct ActivityProject {
    pub id: i64,
    pub name: String,
    pub billable: bool,
}

#[derive(Default, Debug, Clone, PartialEq, Eq)]
pub struct Task {
    pub id: i64,
    pub name: String,
    pub billable: bool,
}

#[derive(Default, Debug, Clone, Copy, PartialEq, Eq, Structural)]
pub struct GetProjectTasks {
    pub project_id: i64,
}

#[derive(Default, Debug, Clone, Copy, PartialEq, Eq, Structural)]
pub struct GetActivity {
    pub activity_id: i64,
}

/// A new activity; no hours means a timer that starts now.
#[derive(Default, Debug, Clone, PartialEq, Eq)]
pub struct CreateActivity {
    pub date: String,
    pub description: String,
    pub project_id: i64,
    pub task_id: i64,
    pub hours: Option<Hours>,
    pub seconds: Option<i64>,
    pub tag: Option<String>,
    pub remote_service: Option<String>,
    pub remote_id: Option<String>,
    pub remote_url: Option<String>,
}

impl CreateActivity {
    /// The request for an activity of `task_id` in `project_id` on `date`.
    pub fn new(
        project_id: i64,
        task_id: i64,
        date: String,
        hours: Option<Hours>,
        description: String,
    ) -> (r: CreateActivity)
        ensures
            r.project_id == project_id,
            r.task_id == task_id,
            r.date == date,
            r.hours == hours,
            r.description == description,
            r.seconds is None,
            r.tag is None,
            r.remote_service is None,
            r.remote_id is None,
            r.remote_url is None,
    {
        CreateActivity {
            date,
            description,
            project_id,
            task_id,
            hours,
            seconds: None,
            tag: None,
            remote_service: None,
            remote_id: None,
            remote_url: None,
        }
    }

    /// The engine's operation that sends this request.
    pub fn operation(&self) -> (r: Operation)
        ensures
            r == (Operation::Create { hours: self.hours }),
    {
        Operation::Create { hours: self.hours }
    }
}

#[derive(Default, Debug, Clone, PartialEq, Eq)]
pub struct EditActivity {
    pub activity_id: i64,
    pub project_id: i64,
    pub task_id: i64,
    pub date: String,
    pub description: String,
    /// The hours as decimal text.
    pub hours: String,
}

#[derive(Default, Debug, Clone, PartialEq, Eq)]
pub struct ControlActivityTimer {
    /// `start` or `stop`.
    pub control: String,
    pub activity_id: i64,
}

#[derive(Default, Debug, Clone, Copy, PartialEq, Eq, Structural)]
pub struct DeleteActivity {
    pub activity_id: i64,
}

#[derive(Default, Debug, Clone, PartialEq, Eq)]
pub struct Project {
    pub id: i64,
    pub identifier: String,
    pub name: String,
    pub active: bool,
    pub billable: bool,
    pub customer: Customer,
    pub tasks: Vec<ProjectTask>,
}

#[derive(Default, Debug, Clone, PartialEq, Eq)]
pub struct ProjectTask {
    pub id: i64,
    pub name: String,
    pub active: bool,
    pub billable: bool,
}

#[derive(Default, Debug, Clone, PartialEq, Eq)]
pub struct Customer {
    pub id: i64,
    pub name: String,
}

/// The word that the remote service takes for a timer control.
pub open spec fn control_word(c: TimerControl) -> Seq<char> {
    match c {
        TimerControl::Start => "start"@,
        TimerControl::Stop => "stop"@,
    }
}

impl ControlActivityTimer {
    /// The request that applies `control` to the timer of `activity_id`.
    pub fn new(activity_id: i64, control: TimerControl) -> (r: ControlActivityTimer)
        ensures
            r.activity_id == activity_id,
            r.control@ == control_word(control),
    {
        let word = match control {
            TimerControl::Start => String::from_str("start"),
            TimerControl::Stop => String::from_str("stop"),
        };
        ControlActivityTimer { control: word, activity_id }
    }
}

/// The engine's operation for a `timer` subcommand; `chosen` is the activity
/// picked from a list where the subcommand names none.
pub open spec fn timer_operation_of(t: Timer, chosen: i64) -> Operation {
    match t {
        Timer::Start { activity: Some(a) } => Operation::StartTimer { activity_id: a },
        Timer::Start { activity: None } => Operation::StartTimer { activity_id: chosen },
        Timer::Stop => Operation::StopTimer,
    }
}

impl Timer {
    /// Whether the subcommand leaves the activity to be picked from a list.
    pub fn needs_choice(self) -> (r: bool)
        ensures
            r == (self == Timer::Start { activity: None }),
    {
        match self {
            Timer::Start { activity: None } => true,
            _ => false,
        }
    }

    /// The engine's operation for this subcommand.
    pub fn operation(self, chosen: i64) -> (r: Operation)
        ensures
            r == timer_operation_of(self, chosen),
    {
        match self {
            Timer::Start { activity: Some(a) } => Operation::StartTimer { activity_id: a },
            Timer::Start { activity: None } => Operation::StartTimer { activity_id: chosen },
            Timer::Stop => Operation::StopTimer,
        }
    }
}

/// Whether `s` is strictly increasing.
pub open spec fn increasing(s: Seq<usize>) -> bool {
    forall|i: int, j: int| 0 <= i < j < s.len() ==> s[i] < s[j]
}

/// Whether `i` is the first place in `keys` that holds `keys[i]`.
pub open spec fn first_occurrence(keys: Seq<i64>, i: int) -> bool {
    &&& 0 <= i < keys.len()
    &&& forall|j: int| 0 <= j < i ==> keys[j] != keys[i]
}

/// Relies on itertools' `unique_by`, which yields in order the items whose key
/// it has not yet seen: here, the place of the first occurrence of each key.
#[verifier::external_body]
fn first_occurrences(keys: &Vec<i64>) -> (r: Vec<usize>)
    ensures
        increasing(r@),
        forall|k: int| 0 <= k < r@.len() ==> first_occurrence(keys@, r@[k] as int),
        forall|i: int| first_occurrence(keys@, i) ==> r@.contains(i as usize),
{
    keys.iter().enumerate().unique_by(|p| *p.1).map(|p| p.0).collect()
}

/// The customer id of each project in `projects`.
pub open spec fn customer_ids(projects: Seq<Project>) -> Seq<i64> {
    projects.map_values(|p: Project| p.customer.id)
}

/// The places in `projects` of the first project of each customer, in order:
/// one for each customer.
pub fn customer_places(projects: &Vec<Project>) -> (r: Vec<usize>)
    ensures
        increasing(r@),
        forall|k: int| 0 <= k < r@.len() ==> first_occurrence(customer_ids(projects@), r@[k] as int),
        forall|i: int| first_occurrence(customer_ids(projects@), i) ==> r@.contains(i as usize),
{
    let mut keys: Vec<i64> = Vec::new();
    let mut i: usize = 0;
    while i < projects.len()
        invariant
            i <= projects.len(),
            keys@ =~= customer_ids(projects@).take(i as int),
        decreases projects.len() - i,
    {
        keys.push(projects[i].customer.id);
        i = i + 1;
    }
    proof {
        assert(keys@ =~= customer_ids(projects@));
    }
    first_occurrences(&keys)
}

/// The places in `projects` of the projects of the customer `customer_id`, in
/// order.
pub fn projects_of_customer(projects: &Vec<Project>, customer_id: i64) -> (r: Vec<usize>)
    ensures
        increasing(r@),
        forall|k: int| 0 <= k < r@.len() ==> r@[k] < projects@.len() && projects@[r@[k] as int].customer.id == customer_id,
        forall|i: int|
            0 <= i < projects@.len() && projects@[i].customer.id == customer_id ==> r@.contains(
                i as usize,
            ),
{
    let mut r: Vec<usize> = Vec::new();
    let mut i: usize = 0;
    while i < projects.len()
        invariant
            i <= projects.len(),
            increasing(r@),
            forall|k: int| 0 <= k < r@.len() ==> r@[k] < i && projects@[r@[k] as int].customer.id == customer_id,
            forall|j: int|
                0 <= j < i && projects@[j].customer.id == customer_id ==> r@.contains(j as usize),
        decreases projects.len() - i,
    {
        if projects[i].customer.id == customer_id {
            let ghost before = r@;
            r.push(i);
            proof {
                assert forall|j: int|
                    0 <= j < i + 1 && projects@[j].customer.id == customer_id implies r@.contains(j as usize) by {
                    if j < i {
                        let k = choose|k: int| 0 <= k < before.len() && before[k] == j as usize;
                        assert(r@[k] == j as usize);
                    } else {
                        assert(r@[before.len() as int] == j as usize);
                    }
                }
            }
        }
        i = i + 1;
    }
    r
}

} // verus!
