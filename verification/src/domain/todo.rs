//! The todo record, its identifier and status, and the two mutations that
//! a record admits.

use super::timestamp::Timestamp;
use vstd::prelude::*;

verus! {

/// The bits of an identifier that hold the UUID version and variant.
pub const VERSION_AND_VARIANT_BITS: u128 = 0x0000_0000_0000_f000_c000_0000_0000_0000;

/// What those bits hold in a random (version 4, RFC 4122 variant) UUID.
pub const RANDOM_VERSION_AND_VARIANT: u128 = 0x0000_0000_0000_4000_8000_0000_0000_0000;

/// The identifier of a todo: the 128 bits of a UUID, the first byte of the
/// UUID being the most significant.
#[derive(Debug, Clone, Copy, PartialEq, Eq, Hash, Structural)]
pub struct TodoId(pub u128);

impl TodoId {
    /// The identifier is marked as random: it has the version and variant of
    /// a random UUID.
    pub open spec fn is_marked_random(self) -> bool {
        self.0 & VERSION_AND_VARIANT_BITS == RANDOM_VERSION_AND_VARIANT
    }

    /// Draws a fresh identifier at random.
    pub fn new() -> (id: TodoId)
        ensures
            id.is_marked_random(),
    {
        TodoId(random_uuid())
    }
}

/// The label that says how far a todo has come. Any status may follow any
/// other.
#[derive(Debug, Clone, Copy, PartialEq, Eq, Structural)]
pub enum TodoStatus {
    Pending,
    InProgress,
    Completed,
}

/// A titled task with an optional description, a status, and the instants of
/// its creation and of its last change.
#[derive(Debug)]
pub struct Todo {
    pub id: TodoId,
    pub title: String,
    pub description: Option<String>,
    pub status: TodoStatus,
    pub created_at: Timestamp,
    pub updated_at: Timestamp,
}

/// A todo as a mathematical value: the identifier as a number and the texts
/// as sequences of characters.
pub struct TodoView {
    pub id: u128,
    pub title: Seq<char>,
    pub description: Option<Seq<char>>,
    pub status: TodoStatus,
    pub created_at: Timestamp,
    pub updated_at: Timestamp,
}

/// The characters of an optional text.
pub open spec fn text_view(text: Option<String>) -> Option<Seq<char>> {
    match text {
        Some(s) => Some(s@),
        None => None,
    }
}

impl View for Todo {
    type V = TodoView;

    open spec fn view(&self) -> TodoView {
        TodoView {
            id: self.id.0,
            title: self.title@,
            description: text_view(self.description),
            status: self.status,
            created_at: self.created_at,
            updated_at: self.updated_at,
        }
    }
}

impl TodoView {
    /// The record that creation at the instant `now` gives: pending, and
    /// last changed when it was created.
    pub open spec fn created(
        id: u128,
        title: Seq<char>,
        description: Option<Seq<char>>,
        now: Timestamp,
    ) -> TodoView {
        TodoView {
            id,
            title,
            description,
            status: TodoStatus::Pending,
            created_at: now,
            updated_at: now,
        }
    }

    /// The record after its status was set at the instant `now`.
    pub open spec fn with_status(self, status: TodoStatus, now: Timestamp) -> TodoView {
        TodoView { status, updated_at: now, ..self }
    }

    /// The record after its title and description were replaced at the
    /// instant `now`.
    pub open spec fn with_content(
        self,
        title: Seq<char>,
        description: Option<Seq<char>>,
        now: Timestamp,
    ) -> TodoView {
        TodoView { title, description, updated_at: now, ..self }
    }

    /// The record was not changed before it was created.
    pub open spec fn well_formed(self) -> bool {
        self.created_at.is_not_after(self.updated_at)
    }
}

impl Clone for Todo {
    fn clone(&self) -> (copy: Todo)
        ensures
            copy@ == self@,
    {
        Todo {
            id: self.id,
            title: self.title.clone(),
            description: self.description.clone(),
            status: self.status,
            created_at: self.created_at,
            updated_at: self.updated_at,
        }
    }
}

impl Todo {
    /// Creates a pending todo under a fresh identifier drawn at random,
    /// created and last changed at the current time. Title and description
    /// are taken as they are: nothing is checked here.
    pub fn new(title: String, description: Option<String>) -> (todo: Todo)
        ensures
            todo.id.is_marked_random(),
            todo@ == TodoView::created(
                todo.id.0,
                title@,
                text_view(description),
                todo.created_at,
            ),
            todo.created_at.secs >= 0,
            todo.created_at.nanos < 1_000_000_000,
    {
        let now = current_time();
        let id = TodoId::new();
        Todo::created(id, title, description, now)
    }

    /// Creates the pending todo `id` as of the instant `now`.
    pub fn created(id: TodoId, title: String, description: Option<String>, now: Timestamp) -> (todo:
        Todo)
        ensures
            todo@ == TodoView::created(id.0, title@, text_view(description), now),
    {
        Todo {
            id,
            title,
            description,
            status: TodoStatus::Pending,
            created_at: now,
            updated_at: now,
        }
    }

    /// Replaces the status and records the current time as the instant of
    /// the last change.
    pub fn update_status(&mut self, status: TodoStatus)
        ensures
            final(self)@ == old(self)@.with_status(status, final(self).updated_at),
            final(self).updated_at.secs >= 0,
            final(self).updated_at.nanos < 1_000_000_000,
    {
        let now = current_time();
        self.update_status_at(status, now);
    }

    /// Replaces the status as of the instant `now`.
    pub fn update_status_at(&mut self, status: TodoStatus, now: Timestamp)
        ensures
            final(self)@ == old(self)@.with_status(status, now),
    {
        self.status = status;
        self.updated_at = now;
    }

    /// Replaces title and description and records the current time as the
    /// instant of the last change.
    pub fn update_content(&mut self, title: String, description: Option<String>)
        ensures
            final(self)@ == old(self)@.with_content(
                title@,
                text_view(description),
                final(self).updated_at,
            ),
            final(self).updated_at.secs >= 0,
            final(self).updated_at.nanos < 1_000_000_000,
    {
        let now = current_time();
        self.update_content_at(title, description, now);
    }

    /// Replaces title and description as of the instant `now`.
    pub fn update_content_at(
        &mut self,
        title: String,
        description: Option<String>,
        now: Timestamp,
    )
        ensures
            final(self)@ == old(self)@.with_content(title@, text_view(description), now),
    {
        self.title = title;
        self.description = description;
        self.updated_at = now;
    }
}

/// A record is well formed when it is created, and stays so under either
/// change for as long as the clock does not read earlier than the record was
/// created. Neither change touches the identifier or the instant of
/// creation.
pub proof fn changes_keep_a_record_well_formed(
    todo: TodoView,
    status: TodoStatus,
    title: Seq<char>,
    description: Option<Seq<char>>,
    now: Timestamp,
)
    requires
        todo.created_at.is_not_after(now),
    ensures
        TodoView::created(todo.id, title, description, now).well_formed(),
        todo.with_status(status, now).well_formed(),
        todo.with_content(title, description, now).well_formed(),
        todo.with_status(status, now).id == todo.id,
        todo.with_content(title, description, now).id == todo.id,
        todo.with_status(status, now).created_at == todo.created_at,
        todo.with_content(title, description, now).created_at == todo.created_at,
{
}

/// `uuid::Uuid::new_v4`, as the 128-bit number that `Uuid::as_u128` gives.
///
/// The bits are random but for the six that the function sets: the version
/// is 4 and the variant is the one of RFC 4122. Nothing else is claimed, and
/// no two results are claimed to differ. The call panics where the
/// operating system hands out no random bytes.
#[verifier::external_body]
fn random_uuid() -> (bits: u128)
    ensures
        bits & VERSION_AND_VARIANT_BITS == RANDOM_VERSION_AND_VARIANT,
{
    uuid::Uuid::new_v4().as_u128()
}

/// `chrono::Utc::now`, as the seconds that `DateTime::timestamp` gives and
/// the nanoseconds that `DateTime::timestamp_subsec_nanos` gives.
///
/// `Utc::now` builds its value from the time that the system clock says has
/// passed since the Unix epoch, and panics where the clock stands before it:
/// so the seconds are not negative, and the nanoseconds are below one
/// second, because the clock never reports a leap second. The clock may
/// repeat itself or step back: two readings are not claimed to be in order.
#[verifier::external_body]
fn current_time() -> (now: Timestamp)
    ensures
        now.secs >= 0,
        now.nanos < 1_000_000_000,
{
    let now = chrono::Utc::now();
    Timestamp { secs: now.timestamp(), nanos: now.timestamp_subsec_nanos() }
}

} // verus!
