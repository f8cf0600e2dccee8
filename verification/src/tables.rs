//! The records of the task store that travel in messages.

use vstd::prelude::*;

verus! {

/// `chrono::NaiveDateTime`, a date and time without a zone. It is carried
/// about as it is.
#[verifier::external_type_specification]
#[verifier::external_body]
pub struct ExNaiveDateTime(chrono::NaiveDateTime);

/// `Clone` of `chrono::NaiveDateTime`, a plain date and time that is copied
/// bit by bit: the copy is the same moment.
pub assume_specification[ <chrono::NaiveDateTime as Clone>::clone ](
    moment: &chrono::NaiveDateTime,
) -> (copy: chrono::NaiveDateTime)
    ensures
        copy == *moment,
;

/// A user of the tracker.
#[derive(Clone, Debug, PartialEq)]
pub struct User {
    pub id: u128,
    pub email: String,
    pub created: chrono::NaiveDateTime,
}

/// The news that a user was created elsewhere.
#[derive(Clone, Debug, PartialEq)]
pub struct UserCreated(pub User);

impl From<User> for UserCreated {
    fn from(user: User) -> (created: Self) {
        UserCreated(user)
    }
}

impl vstd::std_specs::convert::FromSpecImpl<User> for UserCreated {
    open spec fn obeys_from_spec() -> bool {
        true
    }

    open spec fn from_spec(user: User) -> Self {
        UserCreated(user)
    }
}

/// How one task is linked to another.
#[derive(Debug, Clone, Copy, PartialEq, Eq, Structural)]
pub enum TaskLinkType {
    SubtaskOf,
    DependsOn,
    RelatedTo,
}

/// The number under which a kind of link is stored.
pub open spec fn link_code(kind: TaskLinkType) -> i32 {
    match kind {
        TaskLinkType::SubtaskOf => 0,
        TaskLinkType::DependsOn => 1,
        TaskLinkType::RelatedTo => 2,
    }
}

/// The kind of link that is stored under `entry`; a number that stands for
/// none is the error.
pub open spec fn link_of_code(entry: i32) -> Result<TaskLinkType, i32> {
    if entry == 0 {
        Ok(TaskLinkType::SubtaskOf)
    } else if entry == 1 {
        Ok(TaskLinkType::DependsOn)
    } else if entry == 2 {
        Ok(TaskLinkType::RelatedTo)
    } else {
        Err(entry)
    }
}

impl TryFrom<i32> for TaskLinkType {
    type Error = i32;

    fn try_from(entry: i32) -> (kind: Result<Self, i32>) {
        match entry {
            0 => Ok(TaskLinkType::SubtaskOf),
            1 => Ok(TaskLinkType::DependsOn),
            2 => Ok(TaskLinkType::RelatedTo),
            unknown => Err(unknown),
        }
    }
}

impl vstd::std_specs::convert::TryFromSpecImpl<i32> for TaskLinkType {
    open spec fn obeys_try_from_spec() -> bool {
        true
    }

    open spec fn try_from_spec(entry: i32) -> Result<Self, i32> {
        link_of_code(entry)
    }
}

impl Into<i32> for TaskLinkType {
    fn into(self) -> (code: i32) {
        match self {
            TaskLinkType::SubtaskOf => 0,
            TaskLinkType::DependsOn => 1,
            TaskLinkType::RelatedTo => 2,
        }
    }
}

impl vstd::std_specs::convert::IntoSpecImpl<i32> for TaskLinkType {
    open spec fn obeys_into_spec() -> bool {
        true
    }

    open spec fn into_spec(self) -> i32 {
        link_code(self)
    }
}

/// Every kind of link is found again under its number, and the numbers
/// zero to two are the only ones that stand for a kind.
pub proof fn lemma_link_codes_round_trip(kind: TaskLinkType, entry: i32)
    ensures
        link_of_code(link_code(kind)) == Ok::<TaskLinkType, i32>(kind),
        link_of_code(entry) is Ok <==> 0 <= entry <= 2,
        link_of_code(entry) is Ok ==> link_code(link_of_code(entry)->Ok_0) == entry,
        link_of_code(entry) is Err ==> link_of_code(entry)->Err_0 == entry,
{
}

/// A link from one task to another.
#[derive(Debug, Clone, Copy, PartialEq, Eq, Structural)]
pub struct TaskLink {
    pub task_from_id: u128,
    pub task_to_id: u128,
    pub link_type: TaskLinkType,
}

/// A link between tasks as it is stored, with the kind as a number.
#[derive(Debug, Clone, Copy, PartialEq, Eq, Structural)]
pub struct TaskLinkData {
    pub task_from_id: u128,
    pub task_to_id: u128,
    pub link_type: i32,
}

/// The stored form of a link.
pub open spec fn link_data(link: TaskLink) -> TaskLinkData {
    TaskLinkData {
        task_from_id: link.task_from_id,
        task_to_id: link.task_to_id,
        link_type: link_code(link.link_type),
    }
}

/// The link that a stored link stands for; where its number stands for no
/// kind of link, that number is the error.
pub open spec fn link_of_data(data: TaskLinkData) -> Result<TaskLink, i32> {
    match link_of_code(data.link_type) {
        Ok(link_type) => Ok(
            TaskLink { task_from_id: data.task_from_id, task_to_id: data.task_to_id, link_type },
        ),
        Err(unknown) => Err(unknown),
    }
}

impl From<TaskLink> for TaskLinkData {
    fn from(link: TaskLink) -> (data: TaskLinkData) {
        let TaskLink { task_from_id, task_to_id, link_type } = link;
        TaskLinkData { task_from_id, task_to_id, link_type: link_type.into() }
    }
}

impl vstd::std_specs::convert::FromSpecImpl<TaskLink> for TaskLinkData {
    open spec fn obeys_from_spec() -> bool {
        true
    }

    open spec fn from_spec(link: TaskLink) -> Self {
        link_data(link)
    }
}

impl TryFrom<TaskLinkData> for TaskLink {
    type Error = i32;

    fn try_from(data: TaskLinkData) -> (link: Result<TaskLink, i32>) {
        let TaskLinkData { task_from_id, task_to_id, link_type } = data;
        match TaskLinkType::try_from(link_type) {
            Ok(link_type) => Ok(TaskLink { task_from_id, task_to_id, link_type }),
            Err(unknown) => Err(unknown),
        }
    }
}

impl vstd::std_specs::convert::TryFromSpecImpl<TaskLinkData> for TaskLink {
    open spec fn obeys_try_from_spec() -> bool {
        true
    }

    open spec fn try_from_spec(data: TaskLinkData) -> Result<Self, i32> {
        link_of_data(data)
    }
}

/// Every link is read back from its stored form as it was.
pub proof fn lemma_links_round_trip(link: TaskLink)
    ensures
        link_of_data(link_data(link)) == Ok::<TaskLink, i32>(link),
{
}

/// A change that a user asks for on a task.
#[derive(Debug, Clone, PartialEq)]
pub enum TaskUpdate {
    AssignOther { user_id: u128 },
    AssignSelf,
    ChangeDescription { description: String },
    ChangeTitle { title: String },
    Link { task_id: u128, link_type: TaskLinkType },
    StopWatchingTask,
    Tag { name: String },
    Transition { node_id: u128 },
    Unassign,
    Undo,
    Unlink { task_id: u128 },
    Untag { name: String },
    WatchTask,
}

} // verus!
