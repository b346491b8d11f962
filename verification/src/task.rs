//! The task creator's output: for one inbound chat message, the record to
//! store under `task:<id>`, the identifier to push onto the work queue, and
//! the registration the reconciler will later act on.

use vstd::prelude::*;
use vstd::string::StringExecFns;
use crate::channel::ChatMessage;

verus! {

/// Lifecycle of a stored task. The adaptor only ever writes `Pending`; the
/// worker backend moves a task through the later states.
pub enum TaskStatus {
    Pending,
    Processing,
    Completed,
    Failed,
}

impl TaskStatus {
    /// The status word as it is written into a stored task record.
    pub fn as_text(&self) -> (r: String)
        ensures
            *self is Pending ==> r@ == "pending"@,
            *self is Processing ==> r@ == "processing"@,
            *self is Completed ==> r@ == "completed"@,
            *self is Failed ==> r@ == "failed"@,
    {
        match self {
            TaskStatus::Pending => String::from_str("pending"),
            TaskStatus::Processing => String::from_str("processing"),
            TaskStatus::Completed => String::from_str("completed"),
            TaskStatus::Failed => String::from_str("failed"),
        }
    }
}

/// Channel metadata carried in a task's configuration mapping. The sender
/// fields are absent when the message named no sender; the username is also
/// absent when the sender's username is empty.
pub struct ChannelConfig {
    pub chat_id: i64,
    pub message_id: i64,
    pub user_id: Option<i64>,
    pub username: Option<String>,
}

/// The stored task record: what is written under `task:<id>`.
pub struct TaskRecord {
    pub input: String,
    pub config: ChannelConfig,
    pub status: TaskStatus,
    pub created_at: String,
}

/// Everything the task creator decides for one message: the fresh identifier,
/// the store key to write the record under, the queue to push the identifier
/// onto, and the record itself.
pub struct TaskPlan {
    pub task_id: String,
    pub task_key: String,
    pub queue_key: String,
    pub record: TaskRecord,
}

/// The key a task record is stored under.
pub fn task_key(id: &String) -> (r: String)
    ensures
        r@ == "task:"@ + id@,
{
    let mut s = String::from_str("task:");
    s.append(id.as_str());
    s
}

/// The key a task's result record is stored under.
pub fn result_key(id: &String) -> (r: String)
    ensures
        r@ == "result:"@ + id@,
{
    let mut s = String::from_str("result:");
    s.append(id.as_str());
    s
}

/// Relies on `uuid::Uuid::new_v4` and the hyphenated form its `Display`
/// renders: a freshly generated identifier, 36 characters long. The value is
/// random, so nothing more is assumed of it.
#[verifier::external_body]
fn fresh_task_id() -> (r: String)
    ensures
        r@.len() == 36,
{
    uuid::Uuid::new_v4().to_string()
}

/// Relies on `chrono::Utc::now` and `DateTime::to_rfc3339`: the current
/// instant rendered as an RFC 3339 timestamp. The value depends on the clock,
/// so nothing is assumed of it beyond being non-empty.
#[verifier::external_body]
fn now_rfc3339() -> (r: String)
    ensures
        r@.len() > 0,
{
    chrono::Utc::now().to_rfc3339()
}

/// What the task creator guarantees of a plan built for a message: a fresh
/// 36-character identifier, the keys derived from it, the message text as the
/// task's input, the channel metadata in the configuration, status `pending`,
/// and a creation timestamp.
pub open spec fn plan_matches(p: TaskPlan, m: ChatMessage) -> bool {
    &&& p.task_id@.len() == 36
    &&& p.task_key@ == "task:"@ + p.task_id@
    &&& p.queue_key@ == "agent:queue"@
    &&& p.record.input@ == m.text@
    &&& p.record.status is Pending
    &&& p.record.created_at@.len() > 0
    &&& p.record.config.chat_id == m.chat_id
    &&& p.record.config.message_id == m.message_id
    &&& (m.from matches Some(u) ==> {
        &&& p.record.config.user_id == Some(u.id)
        &&& (u.username@.len() > 0 ==> (p.record.config.username matches Some(n) && n@
            == u.username@))
        &&& (u.username@.len() == 0 ==> p.record.config.username is None)
    })
    &&& (m.from is None ==> p.record.config.user_id is None)
    &&& (m.from is None ==> p.record.config.username is None)
}

/// Build the plan for one message: generate the identifier and timestamp and
/// assemble the record. The caller registers the identifier and then performs
/// the store write and the queue push, in that order.
pub fn build_task_plan(msg: &ChatMessage) -> (p: TaskPlan)
    ensures
        plan_matches(p, *msg),
{
    let id = fresh_task_id();
    let key = task_key(&id);
    let user_id = match &msg.from {
        Some(u) => Some(u.id),
        None => None,
    };
    let username = match &msg.from {
        Some(u) => if u.username.as_str().is_empty() {
            None
        } else {
            Some(u.username.clone())
        },
        None => None,
    };
    TaskPlan {
        task_id: id,
        task_key: key,
        queue_key: String::from_str("agent:queue"),
        record: TaskRecord {
            input: msg.text.clone(),
            config: ChannelConfig {
                chat_id: msg.chat_id,
                message_id: msg.message_id,
                user_id,
                username,
            },
            status: TaskStatus::Pending,
            created_at: now_rfc3339(),
        },
    }
}

} // verus!
