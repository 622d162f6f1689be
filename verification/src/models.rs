//! Shared model types: task status and priority vocabularies, carried as
//! text on the wire and in storage, and the public view of a user.

use vstd::prelude::*;

verus! {

/// Lifecycle state of a task.
#[derive(Clone, Copy, PartialEq, Eq, Structural, Debug)]
pub enum TaskStatus {
    Pending,
    InProgress,
    Completed,
    Archived,
}

/// Urgency of a task.
#[derive(Clone, Copy, PartialEq, Eq, Structural, Debug)]
pub enum TaskPriority {
    Low,
    Medium,
    High,
    Urgent,
}

/// The public view of an account, safe to return to clients.
pub struct UserResponse {
    pub id: u64,
    pub username: String,
    pub email: String,
}

/// The canonical name of a status.
pub open spec fn spec_task_status_name(s: TaskStatus) -> Seq<char> {
    match s {
        TaskStatus::Pending => "Pending"@,
        TaskStatus::InProgress => "InProgress"@,
        TaskStatus::Completed => "Completed"@,
        TaskStatus::Archived => "Archived"@,
    }
}

/// Which status a string names, if any.
pub open spec fn spec_parse_task_status(s: Seq<char>) -> Option<TaskStatus> {
    if s == "Pending"@ {
        Some(TaskStatus::Pending)
    } else if s == "InProgress"@ {
        Some(TaskStatus::InProgress)
    } else if s == "Completed"@ {
        Some(TaskStatus::Completed)
    } else if s == "Archived"@ {
        Some(TaskStatus::Archived)
    } else {
        None
    }
}

/// The canonical name of a priority.
pub open spec fn spec_task_priority_name(p: TaskPriority) -> Seq<char> {
    match p {
        TaskPriority::Low => "Low"@,
        TaskPriority::Medium => "Medium"@,
        TaskPriority::High => "High"@,
        TaskPriority::Urgent => "Urgent"@,
    }
}

/// Which priority a string names, if any.
pub open spec fn spec_parse_task_priority(s: Seq<char>) -> Option<TaskPriority> {
    if s == "Low"@ {
        Some(TaskPriority::Low)
    } else if s == "Medium"@ {
        Some(TaskPriority::Medium)
    } else if s == "High"@ {
        Some(TaskPriority::High)
    } else if s == "Urgent"@ {
        Some(TaskPriority::Urgent)
    } else {
        None
    }
}

impl TaskStatus {
    /// The canonical name, as stored and serialized.
    pub fn as_str(&self) -> (r: &'static str)
        ensures
            r@ == spec_task_status_name(*self),
    {
        match self {
            TaskStatus::Pending => "Pending",
            TaskStatus::InProgress => "InProgress",
            TaskStatus::Completed => "Completed",
            TaskStatus::Archived => "Archived",
        }
    }
}

impl TaskPriority {
    /// The canonical name, as stored and serialized.
    pub fn as_str(&self) -> (r: &'static str)
        ensures
            r@ == spec_task_priority_name(*self),
    {
        match self {
            TaskPriority::Low => "Low",
            TaskPriority::Medium => "Medium",
            TaskPriority::High => "High",
            TaskPriority::Urgent => "Urgent",
        }
    }
}

/// Parse a status name; exactly the four canonical names are accepted.
pub fn parse_task_status(s: &String) -> (r: Option<TaskStatus>)
    ensures
        r == spec_parse_task_status(s@),
{
    if *s == "Pending".to_owned() {
        Some(TaskStatus::Pending)
    } else if *s == "InProgress".to_owned() {
        Some(TaskStatus::InProgress)
    } else if *s == "Completed".to_owned() {
        Some(TaskStatus::Completed)
    } else if *s == "Archived".to_owned() {
        Some(TaskStatus::Archived)
    } else {
        None
    }
}

/// Parse a priority name; exactly the four canonical names are accepted.
pub fn parse_task_priority(s: &String) -> (r: Option<TaskPriority>)
    ensures
        r == spec_parse_task_priority(s@),
{
    if *s == "Low".to_owned() {
        Some(TaskPriority::Low)
    } else if *s == "Medium".to_owned() {
        Some(TaskPriority::Medium)
    } else if *s == "High".to_owned() {
        Some(TaskPriority::High)
    } else if *s == "Urgent".to_owned() {
        Some(TaskPriority::Urgent)
    } else {
        None
    }
}

/// Every status name parses back to the status it names.
pub proof fn lemma_task_status_names_round_trip(s: TaskStatus)
    ensures
        spec_parse_task_status(spec_task_status_name(s)) == Some(s),
{
    reveal_strlit("Pending");
    reveal_strlit("InProgress");
    reveal_strlit("Completed");
    reveal_strlit("Archived");
    assert("InProgress"@.len() == 10 && "Pending"@.len() == 7 && "Completed"@.len() == 9
        && "Archived"@.len() == 8);
}

/// Every priority name parses back to the priority it names.
pub proof fn lemma_task_priority_names_round_trip(p: TaskPriority)
    ensures
        spec_parse_task_priority(spec_task_priority_name(p)) == Some(p),
{
    reveal_strlit("Low");
    reveal_strlit("Medium");
    reveal_strlit("High");
    reveal_strlit("Urgent");
    assert("Low"@.len() == 3 && "Medium"@.len() == 6 && "High"@.len() == 4
        && "Urgent"@.len() == 6);
    assert("Urgent"@[0] == 'U' && "Medium"@[0] == 'M');
}

} // verus!
