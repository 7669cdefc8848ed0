use vstd::prelude::*;

verus! {

/// What can be done with the task of a character.
#[derive(Debug, Clone, Copy, PartialEq, Eq, Structural)]
pub enum Task {
    Complete,
    New,
    Cancel,
    Exchange,
}

/// The name under which the server knows a task operation.
pub open spec fn task_name(task: Task) -> Seq<char> {
    match task {
        Task::Complete => "complete"@,
        Task::New => "new"@,
        Task::Cancel => "cancel"@,
        Task::Exchange => "exchange"@,
    }
}

/// The name under which the server knows a task operation.
pub fn get_task_name(task: Task) -> (name: &'static str)
    ensures
        name@ == task_name(task),
{
    match task {
        Task::Complete => "complete",
        Task::New => "new",
        Task::Cancel => "cancel",
        Task::Exchange => "exchange",
    }
}

/// The path of a task operation of a character: `my/{name}/action/task/{operation}`.
pub open spec fn task_path_of(character_name: Seq<char>, task: Task) -> Seq<char> {
    "my/"@ + character_name + "/action/task/"@ + task_name(task)
}

/// The path under which the server performs a task operation for the named character.
pub fn task_path(character_name: &String, task: Task) -> (path: String)
    ensures
        path@ == task_path_of(character_name@, task),
{
    let mut path = String::from_str("my/");
    path.append(character_name.as_str());
    path.append("/action/task/");
    path.append(get_task_name(task));
    path
}

} // verus!
