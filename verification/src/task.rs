//! The task entity: plain data attached to a user, holding the scheduling
//! fields as the storage layer hands them over.

use vstd::prelude::*;

verus! {

#[derive(Clone, Debug)]
pub struct Task {
    pub id: i32,
    pub user_id: i32,
    pub title: String,
    pub is_recurring: bool,
    pub recurrence_interval: Option<String>,
    pub recurrence_unit: Option<String>,
    pub from_time: Option<String>,
    pub to_time: Option<String>,
    pub start_date: Option<String>,
    pub end_date: Option<String>,
    pub created_at: String,
    pub updated_at: String,
}

impl Task {
    pub fn new(
        id: i32,
        user_id: i32,
        title: String,
        is_recurring: bool,
        recurrence_interval: Option<String>,
        recurrence_unit: Option<String>,
        from_time: Option<String>,
        to_time: Option<String>,
        start_date: Option<String>,
        end_date: Option<String>,
        created_at: String,
        updated_at: String,
    ) -> (r: Self)
        ensures
            r == (Task {
                id,
                user_id,
                title,
                is_recurring,
                recurrence_interval,
                recurrence_unit,
                from_time,
                to_time,
                start_date,
                end_date,
                created_at,
                updated_at,
            }),
    {
        Task {
            id,
            user_id,
            title,
            is_recurring,
            recurrence_interval,
            recurrence_unit,
            from_time,
            to_time,
            start_date,
            end_date,
            created_at,
            updated_at,
        }
    }

    pub fn id(&self) -> (r: i32)
        ensures
            r == self.id,
    {
        self.id
    }

    pub fn user_id(&self) -> (r: i32)
        ensures
            r == self.user_id,
    {
        self.user_id
    }

    pub fn title(&self) -> (r: &str)
        ensures
            r@ == self.title@,
    {
        self.title.as_str()
    }

    pub fn is_recurring(&self) -> (r: bool)
        ensures
            r == self.is_recurring,
    {
        self.is_recurring
    }

    pub fn recurrence_interval(&self) -> (r: Option<&String>)
        ensures
            r is Some <==> self.recurrence_interval is Some,
            r matches Some(s) ==> *s == self.recurrence_interval->0,
    {
        self.recurrence_interval.as_ref()
    }

    pub fn recurrence_unit(&self) -> (r: Option<&String>)
        ensures
            r is Some <==> self.recurrence_unit is Some,
            r matches Some(s) ==> *s == self.recurrence_unit->0,
    {
        self.recurrence_unit.as_ref()
    }

    pub fn from_time(&self) -> (r: Option<&String>)
        ensures
            r is Some <==> self.from_time is Some,
            r matches Some(s) ==> *s == self.from_time->0,
    {
        self.from_time.as_ref()
    }

    pub fn to_time(&self) -> (r: Option<&String>)
        ensures
            r is Some <==> self.to_time is Some,
            r matches Some(s) ==> *s == self.to_time->0,
    {
        self.to_time.as_ref()
    }

    pub fn start_date(&self) -> (r: Option<&String>)
        ensures
            r is Some <==> self.start_date is Some,
            r matches Some(s) ==> *s == self.start_date->0,
    {
        self.start_date.as_ref()
    }

    pub fn end_date(&self) -> (r: Option<&String>)
        ensures
            r is Some <==> self.end_date is Some,
            r matches Some(s) ==> *s == self.end_date->0,
    {
        self.end_date.as_ref()
    }

    pub fn created_at(&self) -> (r: &str)
        ensures
            r@ == self.created_at@,
    {
        self.created_at.as_str()
    }

    pub fn updated_at(&self) -> (r: &str)
        ensures
            r@ == self.updated_at@,
    {
        self.updated_at.as_str()
    }
}

} // verus!
