use vstd::prelude::*;
use crate::api::{Date, DateTimeOffset, DateTimeTimeZone};

verus! {

/// A single to-do list.
#[derive(Debug, Clone)]
pub struct TodoTaskList {
    /// The name of the task list.
    pub display_name: String,
    /// The identifier of the task list, unique in the user's mailbox.
    pub id: String,
    /// True if the user is owner of the given task list.
    pub is_owner: bool,
    /// True if the task list is shared with other users.
    pub is_shared: bool,
    /// Which well-known list this is, if any.
    pub wellknown_list_name: WellknownListName,
}

/// The well-known lists of a mailbox.
#[derive(Debug, Clone)]
pub enum WellknownListName {
    /// The list is not one of the well-known lists.
    NotWellknown,
    DefaultList,
    FlaggedEmails,
    UnknownFutureValue,
}

/// A single task within a to-do list.
#[derive(Debug, Clone)]
pub struct TodoTask {
    /// The task body, which typically holds information about the task.
    pub body: ItemBody,
    /// When the body was last modified.
    pub body_last_modified_date_time: Option<String>,
    /// The date in the specified time zone that the task was finished.
    pub completed_date_time: Option<DateTimeTimeZone>,
    /// When the task was created.
    pub created_date_time: DateTimeOffset,
    /// The date in the specified time zone that the task is to be finished.
    pub due_date_time: Option<DateTimeTimeZone>,
    /// Identifier of the task; it changes when the task moves to another list.
    pub id: String,
    /// The importance of the task.
    pub importance: Importance,
    /// True if an alert is set to remind the user of the task.
    pub is_reminder_on: bool,
    /// When the task was last modified.
    pub last_modified_date_time: DateTimeOffset,
    /// The recurrence pattern for the task.
    pub recurrence: Option<PatternedRecurrence>,
    /// When a reminder alert of the task is to occur.
    pub reminder_date_time: Option<DateTimeTimeZone>,
    /// The state or progress of the task.
    pub status: TaskStatus,
    /// A brief description of the task.
    pub title: String,
}

/// The state or progress of a task.
#[derive(Debug, Clone)]
pub enum TaskStatus {
    NotStarted,
    InProgress,
    Completed,
    WaitingOnOthers,
    Deferred,
}

/// The body of an item, such as a message, event or group post.
#[derive(Debug, Clone)]
pub struct ItemBody {
    /// The content of the item.
    pub content: String,
    /// The type of the content.
    pub content_type: BodyType,
}

/// The content types of an `ItemBody`.
#[derive(Debug, Clone)]
pub enum BodyType {
    Text,
    Html,
}

/// The importance of a `TodoTask`.
#[derive(Debug, Clone)]
pub enum Importance {
    Low,
    Normal,
    High,
}

/// The recurrence pattern and range of a `TodoTask`.
#[derive(Debug, Clone)]
pub struct PatternedRecurrence {
    /// The frequency of an event.
    pub pattern: RecurrencePattern,
    /// The duration of an event.
    pub range: RecurrenceRange,
}

/// The frequency by which a recurring `TodoTask` repeats. In every variant
/// `interval` is the number of units (days, weeks, months or years, by the
/// variant) between occurrences.
#[derive(Debug, Clone)]
pub enum RecurrencePattern {
    /// Repeats every `interval` days.
    Daily { interval: i32 },
    /// Repeats on the given days of the week, every `interval` weeks.
    Weekly { interval: i32, days_of_week: Vec<DayOfWeek>, first_day_of_week: DayOfWeek },
    /// Repeats on the given day of the month, every `interval` months.
    AbsoluteMonthly { interval: i32, day_of_month: i32 },
    /// Repeats on the given days of the week, in the same relative position
    /// in the month, every `interval` months.
    RelativeMonthly { interval: i32, days_of_week: Vec<DayOfWeek> },
    /// Repeats on the given day and month (1 to 12), every `interval` years.
    AbsoluteYearly { interval: i32, day_of_month: i32, month: i32 },
    /// Repeats on the given days of the week, in the same relative position
    /// in the given month (1 to 12), every `interval` years.
    RelativeYearly { interval: i32, days_of_week: Vec<DayOfWeek>, month: i32 },
}

/// A day of the week.
#[derive(Debug, Clone)]
pub enum DayOfWeek {
    Sunday,
    Monday,
    Tuesday,
    Wednesday,
    Thursday,
    Friday,
    Saturday,
}

/// The date range over which a recurring `TodoTask` repeats. In every variant
/// `start_date` is the date from which the pattern applies, and
/// `recurrence_time_zone` the time zone of the dates, where one is given.
#[derive(Debug, Clone)]
pub enum RecurrenceRange {
    /// Repeats between `start_date` and `end_date`, both included.
    EndDate { start_date: Date, end_date: Date, recurrence_time_zone: Option<String> },
    /// Repeats from `start_date` on, without end.
    NoEnd { start_date: Date, recurrence_time_zone: Option<String> },
    /// Repeats `number_of_occurrences` times from `start_date` on.
    Numbered { start_date: Date, number_of_occurrences: i32, recurrence_time_zone: Option<String> },
}

} // verus!
