//! An abstract priority for tasks or threads.
//!
//! The library does not schedule anything: it defines the ordered set of
//! urgency levels that separate parts of a program use to agree on how urgent
//! a piece of work is, with a stable textual name for each.

use core::cmp::Ordering;
use vstd::prelude::*;

pub mod laws;

verus! {

/// An abstract priority for tasks.
///
/// The variants are declared from least to most urgent, so that the derived
/// `Ord` agrees with the urgency order that `partial_cmp` states.
#[non_exhaustive]
#[derive(Debug, Clone, Copy, PartialEq, Eq, Structural, Ord, Hash)]
pub enum Priority {
    /// The priority of the task is not known.
    ///
    /// Avoid this value: it stands for a priority that could not reasonably
    /// be determined, and sorts below every known priority.
    Unknown,
    /// The task runs at a low priority.
    ///
    /// For work that is not time-sensitive, not visible to the user and needs
    /// no user input.
    Background,
    /// The task runs at a medium priority.
    ///
    /// For work that may take ten seconds or more, where a progress bar may
    /// show and the user can move on to other work meanwhile.
    Utility,
    /// The task runs at a high priority.
    ///
    /// For work that responds to user input and should finish before the user
    /// switches focus, on the order of a second.
    UserInitiated,
    /// The task runs at UI priority.
    ///
    /// For painting the screen or responding to user input as soon as
    /// possible. Where the UI is single-threaded, the task runs on the UI
    /// thread and may block it.
    UserInteractive,
}

/// The urgency level of `p`: higher is more urgent.
pub open spec fn urgency(p: Priority) -> int {
    match p {
        Priority::Unknown => 0,
        Priority::Background => 1,
        Priority::Utility => 2,
        Priority::UserInitiated => 3,
        Priority::UserInteractive => 4,
    }
}

/// The textual name of `p`: the name of its variant.
pub open spec fn name_of(p: Priority) -> Seq<char> {
    match p {
        Priority::Unknown => "Unknown"@,
        Priority::Background => "Background"@,
        Priority::Utility => "Utility"@,
        Priority::UserInitiated => "UserInitiated"@,
        Priority::UserInteractive => "UserInteractive"@,
    }
}

/// How two urgency levels compare.
pub open spec fn compare_levels(a: int, b: int) -> Ordering {
    if a < b {
        Ordering::Less
    } else if a == b {
        Ordering::Equal
    } else {
        Ordering::Greater
    }
}

impl Priority {
    /// The urgency level of this priority, as `urgency` gives it.
    fn level(&self) -> (r: u8)
        ensures
            r as int == urgency(*self),
    {
        match self {
            Priority::Unknown => 0,
            Priority::Background => 1,
            Priority::Utility => 2,
            Priority::UserInitiated => 3,
            Priority::UserInteractive => 4,
        }
    }

    /// A stable, human-readable name of this priority, for logs and
    /// diagnostics: the name of its variant.
    pub fn render(&self) -> (r: &'static str)
        ensures
            r@ == name_of(*self),
    {
        match self {
            Priority::Unknown => "Unknown",
            Priority::Background => "Background",
            Priority::Utility => "Utility",
            Priority::UserInitiated => "UserInitiated",
            Priority::UserInteractive => "UserInteractive",
        }
    }

    /// Returns the highest priority suitable for general, blocking, async
    /// work: `UserInitiated`. `UserInteractive` is kept for input and paint
    /// paths.
    pub fn highest_async() -> (r: Self)
        ensures
            r == Priority::UserInitiated,
    {
        Priority::UserInitiated
    }

    /// A fixed priority for tests that need some concrete priority:
    /// `UserInitiated`.
    pub fn unit_test() -> (r: Self)
        ensures
            r == Priority::UserInitiated,
    {
        Priority::UserInitiated
    }
}

/// Priorities are ordered by urgency: `UserInteractive` is the greatest and
/// `Unknown` the least.
impl PartialOrd for Priority {
    fn partial_cmp(&self, other: &Priority) -> (r: Option<Ordering>)
        ensures
            r == Some(compare_levels(urgency(*self), urgency(*other))),
    {
        let a = self.level();
        let b = other.level();
        if a < b {
            Some(Ordering::Less)
        } else if a == b {
            Some(Ordering::Equal)
        } else {
            Some(Ordering::Greater)
        }
    }
}

impl vstd::std_specs::cmp::PartialOrdSpecImpl for Priority {
    open spec fn obeys_partial_cmp_spec() -> bool {
        true
    }

    open spec fn partial_cmp_spec(&self, other: &Priority) -> Option<Ordering> {
        Some(compare_levels(urgency(*self), urgency(*other)))
    }
}

} // verus!
