//! The behaviours, of which exactly one is active at any time.

use vstd::prelude::*;
use vstd::string::*;

verus! {

/// The behaviours, of which exactly one is active at any time.
#[derive(Clone, Copy, Debug, PartialEq, Eq, Hash, Structural)]
pub enum Behaviour {
    Seek,
    Arrive,
    Wander,
    Pursue,
    Flee,
    Evade,
    PathFollow,
}

impl Default for Behaviour {
    /// The behaviour that is active at the start: seek.
    fn default() -> (r: Behaviour)
        ensures
            r == Behaviour::Seek,
    {
        Behaviour::Seek
    }
}

impl Behaviour {
    /// Whether a pursuit target exists while this behaviour is active.
    pub open spec fn keeps_pursuit_target(self) -> bool {
        self is Pursue || self is Evade
    }

    /// Whether a pursuit target exists while this behaviour is active.
    #[verifier::when_used_as_spec(keeps_pursuit_target)]
    pub fn has_pursuit_target(self) -> (r: bool)
        ensures
            r == self.keeps_pursuit_target(),
    {
        match self {
            Behaviour::Pursue => true,
            Behaviour::Evade => true,
            _ => false,
        }
    }
}

/// Whether two texts hold the same characters.
fn same_text(a: &str, b: &str) -> (r: bool)
    ensures
        r == (a@ == b@),
{
    let count = a.unicode_len();
    if count != b.unicode_len() {
        return false;
    }
    let mut i: usize = 0;
    while i < count
        invariant
            i <= count,
            count == a@.len(),
            count == b@.len(),
            forall|j: int| 0 <= j < i ==> a@[j] == b@[j],
        decreases count - i,
    {
        if a.get_char(i) != b.get_char(i) {
            return false;
        }
        i += 1;
    }
    assert(a@ =~= b@);
    true
}

/// The behaviour that the text `label` names; seek, where it names none.
pub open spec fn labelled(label: Seq<char>) -> Behaviour {
    if label == "Arrive"@ {
        Behaviour::Arrive
    } else if label == "Wander"@ {
        Behaviour::Wander
    } else if label == "Pursue"@ {
        Behaviour::Pursue
    } else if label == "Flee"@ {
        Behaviour::Flee
    } else if label == "Evade"@ {
        Behaviour::Evade
    } else if label == "PathFollow"@ {
        Behaviour::PathFollow
    } else {
        Behaviour::Seek
    }
}

impl Behaviour {
    /// The name under which the behaviour is offered for selection.
    pub fn label(self) -> (r: &'static str)
        ensures
            r@ == (match self {
                Behaviour::Seek => "Seek"@,
                Behaviour::Arrive => "Arrive"@,
                Behaviour::Wander => "Wander"@,
                Behaviour::Pursue => "Pursue"@,
                Behaviour::Flee => "Flee"@,
                Behaviour::Evade => "Evade"@,
                Behaviour::PathFollow => "PathFollow"@,
            }),
    {
        match self {
            Behaviour::Seek => "Seek",
            Behaviour::Arrive => "Arrive",
            Behaviour::Wander => "Wander",
            Behaviour::Pursue => "Pursue",
            Behaviour::Flee => "Flee",
            Behaviour::Evade => "Evade",
            Behaviour::PathFollow => "PathFollow",
        }
    }

    /// The behaviour that `label` names; seek, where it names none.
    pub fn from_label(label: &str) -> (r: Behaviour)
        ensures
            r == labelled(label@),
    {
        if same_text(label, "Arrive") {
            Behaviour::Arrive
        } else if same_text(label, "Wander") {
            Behaviour::Wander
        } else if same_text(label, "Pursue") {
            Behaviour::Pursue
        } else if same_text(label, "Flee") {
            Behaviour::Flee
        } else if same_text(label, "Evade") {
            Behaviour::Evade
        } else if same_text(label, "PathFollow") {
            Behaviour::PathFollow
        } else {
            Behaviour::Seek
        }
    }
}

/// Every behaviour is found again by its label.
pub proof fn lemma_label_names_its_behaviour(behaviour: Behaviour)
    ensures
        labelled(
            match behaviour {
                Behaviour::Seek => "Seek"@,
                Behaviour::Arrive => "Arrive"@,
                Behaviour::Wander => "Wander"@,
                Behaviour::Pursue => "Pursue"@,
                Behaviour::Flee => "Flee"@,
                Behaviour::Evade => "Evade"@,
                Behaviour::PathFollow => "PathFollow"@,
            },
        ) == behaviour,
{
    reveal_strlit("Seek");
    reveal_strlit("Arrive");
    reveal_strlit("Wander");
    reveal_strlit("Pursue");
    reveal_strlit("Flee");
    reveal_strlit("Evade");
    reveal_strlit("PathFollow");
    assert("Seek"@.len() == 4);
    assert("Arrive"@.len() == 6);
    assert("Wander"@[0] == 'W');
    assert("Pursue"@[0] == 'P');
    assert("Arrive"@[0] == 'A');
    assert("Evade"@.len() == 5);
    assert("Flee"@[0] == 'F');
    assert("PathFollow"@.len() == 10);
    assert("Seek"@[0] == 'S');
    assert("Evade"@[0] == 'E');
}

} // verus!
