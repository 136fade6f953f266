//! AC power detection and the monitor that notices when the machine is
//! plugged in or unplugged.

use vstd::prelude::*;
use crate::text::{is_prefix, join_path, path_join, spec_trim, starts_with, str_eq, trim};

verus! {

/// Whether a power supply's name denotes the AC adapter: it starts with
/// `AC`, `ADP` or `ac`.
pub open spec fn is_ac_supply(name: Seq<char>) -> bool {
    is_prefix("AC"@, name) || is_prefix("ADP"@, name) || is_prefix("ac"@, name)
}

/// Whether a power supply's name denotes the AC adapter.
pub fn ac_supply_name(name: &str) -> (r: bool)
    ensures
        r == is_ac_supply(name@),
{
    starts_with(name, "AC") || starts_with(name, "ADP") || starts_with(name, "ac")
}

/// The index of the first AC supply among the names, in listing order.
pub open spec fn first_ac(names: Seq<String>) -> Option<int>
    decreases names.len(),
{
    if names.len() == 0 {
        None
    } else if is_ac_supply(names[0]@) {
        Some(0)
    } else {
        match first_ac(names.drop_first()) {
            Some(i) => Some(i + 1),
            None => None,
        }
    }
}

/// The `online` file of the first AC supply listed in the power supply
/// directory `dir`, if any.
pub fn ac_online_path(dir: &str, names: &Vec<String>) -> (r: Option<String>)
    ensures
        match first_ac(names@) {
            Some(i) => r matches Some(p) && p@ == path_join(path_join(dir@, names@[i]@), "online"@),
            None => r is None,
        },
{
    let mut i: usize = 0;
    assert(names@.skip(0) =~= names@);
    while i < names.len()
        invariant
            i <= names.len(),
            first_ac(names@) == match first_ac(names@.skip(i as int)) {
                Some(j) => Some(j + i),
                None => None,
            },
        decreases names.len() - i,
    {
        assert(names@.skip(i as int).drop_first() =~= names@.skip(i + 1));
        if ac_supply_name(names[i].as_str()) {
            let supply = join_path(dir, names[i].as_str());
            return Some(join_path(supply.as_str(), "online"));
        }
        i = i + 1;
    }
    None
}

/// Whether the machine runs on AC power, from what reading the AC supply's
/// `online` file gave (none when there is no AC supply): `1` after
/// trimming; AC is assumed when it cannot be told.
pub fn ac_power_connected(read: Option<Result<String, String>>) -> (r: bool)
    ensures
        r == match read {
            Some(Ok(v)) => spec_trim(v@) == "1"@,
            _ => true,
        },
{
    match read {
        Some(Ok(v)) => {
            let t = trim(v.as_str());
            str_eq(t.as_str(), "1")
        },
        _ => true,
    }
}

/// What a new AC sample means.
#[derive(Debug, Clone, Copy, PartialEq, Eq, Structural)]
pub enum AcChange {
    /// The first sample: it is recorded, nothing is reported.
    First,
    /// Same as the last sample.
    Unchanged,
    /// The AC adapter was plugged in.
    Connected,
    /// The AC adapter was unplugged.
    Disconnected,
}

/// The AC monitor's memory: the last AC state it saw.
#[derive(Debug)]
pub struct PowerAutomationService {
    last_ac_state: Option<bool>,
}

impl PowerAutomationService {
    /// The last AC state seen, if any.
    pub closed spec fn last_spec(&self) -> Option<bool> {
        self.last_ac_state
    }

    /// A monitor that has seen nothing yet.
    pub fn new() -> (r: PowerAutomationService)
        ensures
            r.last_spec() is None,
    {
        PowerAutomationService { last_ac_state: None }
    }

    /// Take in a new AC sample: it becomes the last state, and a change
    /// from the last state is reported.
    pub fn observe(&mut self, current_ac: bool) -> (c: AcChange)
        ensures
            final(self).last_spec() == Some(current_ac),
            c == match old(self).last_spec() {
                None => AcChange::First,
                Some(prev) => if prev == current_ac {
                    AcChange::Unchanged
                } else if current_ac {
                    AcChange::Connected
                } else {
                    AcChange::Disconnected
                },
            },
    {
        let c = match self.last_ac_state {
            None => AcChange::First,
            Some(prev) => if prev == current_ac {
                AcChange::Unchanged
            } else if current_ac {
                AcChange::Connected
            } else {
                AcChange::Disconnected
            },
        };
        self.last_ac_state = Some(current_ac);
        c
    }
}

} // verus!

verus! {

/// Law: a power supply is the AC adapter exactly when its name begins
/// with the letters `A`,`C`, or `A`,`D`,`P`, or `a`,`c`.
pub proof fn lemma_ac_supply_names(name: Seq<char>)
    ensures
        is_ac_supply(name) <==> (name.len() >= 2 && name[0] == 'A' && name[1] == 'C') || (name.len()
            >= 3 && name[0] == 'A' && name[1] == 'D' && name[2] == 'P') || (name.len() >= 2 && name[0]
            == 'a' && name[1] == 'c'),
{
    reveal_strlit("AC");
    reveal_strlit("ADP");
    reveal_strlit("ac");
    if name.len() >= 2 && name[0] == 'A' && name[1] == 'C' {
        assert(name.subrange(0, 2) =~= "AC"@);
    }
    if name.len() >= 3 && name[0] == 'A' && name[1] == 'D' && name[2] == 'P' {
        assert(name.subrange(0, 3) =~= "ADP"@);
    }
    if name.len() >= 2 && name[0] == 'a' && name[1] == 'c' {
        assert(name.subrange(0, 2) =~= "ac"@);
    }
    if is_prefix("AC"@, name) {
        assert(name.subrange(0, 2)[0] == name[0] && name.subrange(0, 2)[1] == name[1]);
    }
    if is_prefix("ADP"@, name) {
        assert(name.subrange(0, 3)[0] == name[0] && name.subrange(0, 3)[1] == name[1]
            && name.subrange(0, 3)[2] == name[2]);
    }
    if is_prefix("ac"@, name) {
        assert(name.subrange(0, 2)[0] == name[0] && name.subrange(0, 2)[1] == name[1]);
    }
}

/// Law: the supply whose `online` file is read is the first listed one
/// that is an AC adapter; when none is found, no listed supply is one.
pub proof fn lemma_first_ac_is_first(names: Seq<String>)
    ensures
        first_ac(names) matches Some(i) ==> 0 <= i < names.len() && is_ac_supply(names[i]@)
            && forall|j: int| 0 <= j < i ==> !is_ac_supply(#[trigger] names[j]@),
        first_ac(names) is None ==> forall|j: int| 0 <= j < names.len() ==> !is_ac_supply(
            #[trigger] names[j]@,
        ),
    decreases names.len(),
{
    if names.len() > 0 {
        let rest = names.drop_first();
        lemma_first_ac_is_first(rest);
        assert forall|j: int| 1 <= j < names.len() implies names[j] == #[trigger] rest[j - 1] by {}
        if !is_ac_supply(names[0]@) {
            assert forall|j: int| 0 <= j < names.len() && first_ac(rest) is None implies !is_ac_supply(
                #[trigger] names[j]@,
            ) by {
                if j > 0 {
                    assert(names[j] == rest[j - 1]);
                }
            }
            if first_ac(rest) is Some {
                let k = first_ac(rest)->0;
                assert forall|j: int| 0 <= j < k + 1 implies !is_ac_supply(#[trigger] names[j]@) by {
                    if j > 0 {
                        assert(names[j] == rest[j - 1]);
                    }
                }
                assert(names[k + 1] == rest[k]);
            }
        }
    }
}

} // verus!
