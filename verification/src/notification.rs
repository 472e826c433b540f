use vstd::prelude::*;

verus! {

/// A message for the UI layer: its severity, a short title, and the text.
#[derive(Debug)]
pub struct Notification {
    pub kind: NotificationType,
    pub title: String,
    pub msg: String,
}

#[derive(Debug, Clone, Copy, PartialEq, Eq, Structural)]
pub enum NotificationType {
    Error,
    Warn,
    Info,
}

impl Notification {
    pub fn new(kind: NotificationType, title: &str, msg: &str) -> (r: Notification)
        ensures
            r.kind == kind,
            r.title@ == title@,
            r.msg@ == msg@,
    {
        Notification { kind, title: title.to_owned(), msg: msg.to_owned() }
    }
}

} // verus!
