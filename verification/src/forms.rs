//! The forms that can be selected for a recording pass.

use vstd::prelude::*;
use vstd::string::StringExecFns;
use crate::form::form::{total_beats, Form, PieceView};
use crate::form::songs::autumn_leaves::{autumn_leaves, autumn_leaves_chart};
use crate::form::songs::but_beautiful::{but_beautiful, but_beautiful_chart};
use crate::form::songs::test::{longer_test, longer_test_chart, test_chart};

verus! {

#[derive(Debug, Clone, Copy, PartialEq, Eq, Structural)]
pub enum FormKind {
    Test,
    LongerTest,
    AutumnLeaves,
    AllTheThingsYouAre,
    ButBeautiful,
}

impl Default for FormKind {
    fn default() -> (r: FormKind)
        ensures
            r == FormKind::Test,
    {
        FormKind::Test
    }
}

impl FormKind {
    /// The beats of the form of each kind that has been written down.
    pub open spec fn beats(self) -> Option<nat> {
        match self {
            FormKind::Test => Some(16),
            FormKind::LongerTest => Some(24),
            FormKind::AutumnLeaves => Some(136),
            FormKind::AllTheThingsYouAre => None,
            FormKind::ButBeautiful => Some(136),
        }
    }

    /// The pieces of the form of each kind that has been written down.
    pub open spec fn chart(self) -> Option<Seq<PieceView>> {
        match self {
            FormKind::Test => Some(test_chart()),
            FormKind::LongerTest => Some(longer_test_chart()),
            FormKind::AutumnLeaves => Some(autumn_leaves_chart()),
            FormKind::AllTheThingsYouAre => None,
            FormKind::ButBeautiful => Some(but_beautiful_chart()),
        }
    }

    pub open spec fn name(self) -> Seq<char> {
        match self {
            FormKind::Test => "Test"@,
            FormKind::LongerTest => "Longer Test"@,
            FormKind::AutumnLeaves => "Autumn Leaves"@,
            FormKind::AllTheThingsYouAre => "All The Things You Are"@,
            FormKind::ButBeautiful => "But Beautiful"@,
        }
    }

    /// The form of this kind. All The Things You Are has not been written down.
    pub fn form(&self) -> (r: Option<Form>)
        ensures
            r is Some <==> *self != FormKind::AllTheThingsYouAre,
            r is Some ==> self.chart() == Some(r->0@.pieces),
            r is Some ==> self.beats() == Some(total_beats(r->0@.pieces)),
            r is Some ==> r->0@.pieces[0] is CountOff,
    {
        match self {
            FormKind::AutumnLeaves => Some(autumn_leaves()),
            FormKind::Test => Some(crate::form::songs::test::test()),
            FormKind::AllTheThingsYouAre => None,
            FormKind::ButBeautiful => Some(but_beautiful()),
            FormKind::LongerTest => Some(longer_test()),
        }
    }

    /// The kinds that can be selected, in the order in which they are offered.
    pub fn all() -> (r: Vec<FormKind>)
        ensures
            r@ == seq![
                FormKind::LongerTest,
                FormKind::Test,
                FormKind::AutumnLeaves,
                FormKind::ButBeautiful,
            ],
            forall|i: int| 0 <= i < r@.len() ==> r@[i].beats() is Some,
    {
        vec![FormKind::LongerTest, FormKind::Test, FormKind::AutumnLeaves, FormKind::ButBeautiful]
    }

    /// The name of the tune.
    pub fn text(&self) -> (r: String)
        ensures
            r@ == self.name(),
    {
        match self {
            FormKind::Test => String::from_str("Test"),
            FormKind::LongerTest => String::from_str("Longer Test"),
            FormKind::AutumnLeaves => String::from_str("Autumn Leaves"),
            FormKind::AllTheThingsYouAre => String::from_str("All The Things You Are"),
            FormKind::ButBeautiful => String::from_str("But Beautiful"),
        }
    }
}

} // verus!
