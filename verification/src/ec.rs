//! Embedded controller detection: an inert record of whether the EC debug
//! interface is present and whether the machine is a model on which direct
//! EC access is unsafe.

use vstd::prelude::*;
use crate::text::{lowercase_of, owned, spec_contains, spec_trim, contains, to_lowercase, trim};

verus! {

/// The product names (lowercase) of the models on which direct EC access is unsafe.
pub open spec fn unsafe_models() -> Seq<Seq<char>> {
    seq!["16t-ah0"@, "16-ah0"@, "16-ap0"@, "17t-ah0"@, "17-ah0"@, "transcend 14"@]
}

/// The board names (lowercase) on which direct EC access is unsafe.
pub open spec fn unsafe_boards() -> Seq<Seq<char>> {
    seq!["8c58"@, "8d24"@]
}

/// Whether some entry of `list` occurs in `s`.
pub open spec fn contains_any(s: Seq<char>, list: Seq<Seq<char>>) -> bool {
    exists|i: int| 0 <= i < list.len() && spec_contains(s, #[trigger] list[i])
}

/// Whether a machine is a model on which direct EC access is unsafe: its
/// lowercase product name contains an unsafe model, or its lowercase board
/// name an unsafe board.
pub open spec fn is_unsafe_model(product_name: Seq<char>, board_name: Seq<char>) -> bool {
    contains_any(lowercase_of(product_name), unsafe_models()) || contains_any(
        lowercase_of(board_name),
        unsafe_boards(),
    )
}

fn model(i: usize) -> (r: &'static str)
    requires
        i < 6,
    ensures
        r@ == unsafe_models()[i as int],
{
    if i == 0 {
        "16t-ah0"
    } else if i == 1 {
        "16-ah0"
    } else if i == 2 {
        "16-ap0"
    } else if i == 3 {
        "17t-ah0"
    } else if i == 4 {
        "17-ah0"
    } else {
        "transcend 14"
    }
}

fn board(i: usize) -> (r: &'static str)
    requires
        i < 2,
    ensures
        r@ == unsafe_boards()[i as int],
{
    if i == 0 {
        "8c58"
    } else {
        "8d24"
    }
}

/// Whether a machine, by its product and board names (empty when they could
/// not be read), is a model on which direct EC access is unsafe.
pub fn check_unsafe_model(product_name: &str, board_name: &str) -> (r: bool)
    ensures
        r == is_unsafe_model(product_name@, board_name@),
{
    let p = to_lowercase(product_name);
    let b = to_lowercase(board_name);
    let mut i: usize = 0;
    while i < 6
        invariant
            i <= 6,
            p@ == lowercase_of(product_name@),
            forall|j: int| 0 <= j < i ==> !spec_contains(p@, #[trigger] unsafe_models()[j]),
        decreases 6 - i,
    {
        if contains(p.as_str(), model(i)) {
            return true;
        }
        i = i + 1;
    }
    let mut k: usize = 0;
    while k < 2
        invariant
            k <= 2,
            b@ == lowercase_of(board_name@),
            forall|j: int| 0 <= j < k ==> !spec_contains(b@, #[trigger] unsafe_boards()[j]),
        decreases 2 - k,
    {
        if contains(b.as_str(), board(k)) {
            return true;
        }
        k = k + 1;
    }
    false
}

/// Inert controller for reporting EC detection status: direct EC register
/// access is never made.
#[derive(Debug)]
pub struct LinuxEcController {
    has_ec_access: bool,
    board_id: String,
    is_unsafe_ec_model: bool,
    is_unsafe_model: bool,
}

impl LinuxEcController {
    /// Whether the EC debug interface is present.
    pub closed spec fn access_spec(&self) -> bool {
        self.has_ec_access
    }

    /// The board name, trimmed, or `UNKNOWN`.
    pub closed spec fn board_spec(&self) -> Seq<char> {
        self.board_id@
    }

    /// Whether the machine is a model on which direct EC access is unsafe.
    pub closed spec fn unsafe_spec(&self) -> bool {
        self.is_unsafe_model
    }

    /// Record what the machine showed: its board and product names (none
    /// when they could not be read) and whether the EC debug interface exists.
    pub fn new(board_name: Option<String>, product_name: Option<String>, ec_present: bool) -> (r:
        LinuxEcController)
        ensures
            r.access_spec() == ec_present,
            r.board_spec() == match board_name {
                Some(b) => spec_trim(b@),
                None => "UNKNOWN"@,
            },
            r.unsafe_spec() == is_unsafe_model(
                match product_name {
                    Some(p) => p@,
                    None => seq![],
                },
                match board_name {
                    Some(b) => b@,
                    None => seq![],
                },
            ),
    {
        let board_id = match &board_name {
            Some(b) => trim(b.as_str()),
            None => owned("UNKNOWN"),
        };
        let p = match &product_name {
            Some(p) => p.clone(),
            None => String::new(),
        };
        let b = match &board_name {
            Some(b) => b.clone(),
            None => String::new(),
        };
        let is_unsafe_model = check_unsafe_model(p.as_str(), b.as_str());
        LinuxEcController { has_ec_access: ec_present, board_id, is_unsafe_ec_model: false, is_unsafe_model }
    }

    /// Whether an EC fallback is needed: never, all control goes through kernel interfaces.
    pub fn needs_ec_fallback(&self) -> (r: bool)
        ensures
            !r,
    {
        false
    }

    /// Whether the EC debug interface is present.
    pub fn has_ec_access(&self) -> (r: bool)
        ensures
            r == self.access_spec(),
    {
        self.has_ec_access
    }

    /// Whether the machine is a model on which direct EC access is unsafe.
    pub fn is_unsafe_model(&self) -> (r: bool)
        ensures
            r == self.unsafe_spec(),
    {
        self.is_unsafe_model
    }
}

} // verus!
