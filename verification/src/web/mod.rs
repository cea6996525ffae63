//! Rendering of the public outputs: the iCalendar feed, the printable
//! schedule and the admin pages' view logic.

pub mod ical;
pub mod pdf;
pub mod admin;
pub mod guard;
