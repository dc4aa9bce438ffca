//! The flag-driven capability selector.
//!
//! Each declared flag value is matched by substring against the three
//! known keywords, in this order of precedence: a value containing
//! `read` selects the read hook, else one containing `write` selects
//! the write hook, else one containing `notify` selects the notify
//! hooks.  A value containing none of the three aborts generation.
//! Flags are independent; a keyword occurring twice selects its hook
//! once, so duplicate hooks cannot arise.

use vstd::prelude::*;

use crate::util::contains_sub;
use crate::util::has_substr;
use crate::util::str_views;

verus! {

/// A generation-time failure: generation of the entity aborts.
#[derive(Debug, Clone, PartialEq, Eq)]
pub enum GenError {
    /// A declared flag value matches no known keyword.
    InvalidCharacteristicFlag(String),
}

/// The human-readable description of a generation-time failure.
pub open spec fn gen_message_view(e: GenError) -> Seq<char> {
    match e {
        GenError::InvalidCharacteristicFlag(f) => "Invalid characteristic flag \""@ + f@ + "\""@,
    }
}

impl GenError {
    /// Renders the failure as its human-readable message.
    pub fn message(&self) -> (r: String)
        ensures
            r@ == gen_message_view(*self),
    {
        match self {
            GenError::InvalidCharacteristicFlag(f) => {
                let mut r = "Invalid characteristic flag \"".to_owned();
                r.append(f.as_str());
                r.append("\"");
                r
            },
        }
    }
}

/// Which hooks a characteristic must expose.
#[derive(Debug, Clone, Copy, PartialEq, Eq, Structural)]
pub struct CapabilitySet {
    /// The read hook is present.
    pub has_read: bool,
    /// The write hook is present.
    pub has_write: bool,
    /// The start-notify and stop-notify hooks and the private
    /// notify-emission hook are present.
    pub has_notify: bool,
}

/// The classification of one flag value, by the selector's order of
/// precedence.
#[derive(Debug, Clone, Copy, PartialEq, Eq, Structural)]
pub enum FlagClass {
    Read,
    Write,
    Notify,
    Invalid,
}

/// Classifies one flag value by substring matching.
pub open spec fn classify_flag(f: Seq<char>) -> FlagClass {
    if has_substr(f, "read"@) {
        FlagClass::Read
    } else if has_substr(f, "write"@) {
        FlagClass::Write
    } else if has_substr(f, "notify"@) {
        FlagClass::Notify
    } else {
        FlagClass::Invalid
    }
}

/// Every flag value of the list matches a known keyword.
pub open spec fn flags_valid(fs: Seq<Seq<char>>) -> bool {
    forall|i: int| 0 <= i < fs.len() ==> classify_flag(#[trigger] fs[i]) != FlagClass::Invalid
}

/// The capability set a valid flag list selects.
pub open spec fn caps_of(fs: Seq<Seq<char>>) -> CapabilitySet {
    CapabilitySet {
        has_read: exists|i: int|
            0 <= i < fs.len() && classify_flag(#[trigger] fs[i]) == FlagClass::Read,
        has_write: exists|i: int|
            0 <= i < fs.len() && classify_flag(#[trigger] fs[i]) == FlagClass::Write,
        has_notify: exists|i: int|
            0 <= i < fs.len() && classify_flag(#[trigger] fs[i]) == FlagClass::Notify,
    }
}

/// Selects the hooks a characteristic with the given flags must
/// expose, aborting on the first flag value that matches no known
/// keyword.
#[verifier::loop_isolation(false)]
pub fn select_capabilities(flags: &Vec<String>) -> (r: Result<CapabilitySet, GenError>)
    ensures
        r is Ok <==> flags_valid(str_views(flags@)),
        r matches Ok(c) ==> c == caps_of(str_views(flags@)),
        r matches Err(e) ==> (exists|i: int|
            0 <= i < flags@.len() && classify_flag(#[trigger] flags@[i]@) == FlagClass::Invalid && (
            forall|j: int| 0 <= j < i ==> classify_flag(#[trigger] flags@[j]@) != FlagClass::Invalid)
                && (e matches GenError::InvalidCharacteristicFlag(f) && f@ == flags@[i]@)),
{
    proof {
        assert(str_views(flags@).len() == flags@.len());
        assert forall|t: int| 0 <= t < flags@.len() implies #[trigger] str_views(flags@)[t]
            == flags@[t]@ by {}
    }
    let mut has_read = false;
    let mut has_write = false;
    let mut has_notify = false;
    let mut i: usize = 0;
    while i < flags.len()
        invariant
            i <= flags@.len(),
            forall|j: int|
                0 <= j < i ==> classify_flag(#[trigger] str_views(flags@)[j])
                    != FlagClass::Invalid,
            has_read == exists|j: int|
                0 <= j < i && classify_flag(#[trigger] str_views(flags@)[j]) == FlagClass::Read,
            has_write == exists|j: int|
                0 <= j < i && classify_flag(#[trigger] str_views(flags@)[j]) == FlagClass::Write,
            has_notify == exists|j: int|
                0 <= j < i && classify_flag(#[trigger] str_views(flags@)[j]) == FlagClass::Notify,
        decreases flags@.len() - i,
    {
        let f = &flags[i];
        proof {
            assert(str_views(flags@)[i as int] == flags@[i as int]@);
        }
        if contains_sub(f.as_str(), "read") {
            has_read = true;
        } else if contains_sub(f.as_str(), "write") {
            has_write = true;
        } else if contains_sub(f.as_str(), "notify") {
            has_notify = true;
        } else {
            proof {
                assert(classify_flag(flags@[i as int]@) == FlagClass::Invalid);
                assert forall|j: int| 0 <= j < i implies classify_flag(#[trigger] flags@[j]@)
                    != FlagClass::Invalid by {
                    assert(str_views(flags@)[j] == flags@[j]@);
                }
            }
            return Err(GenError::InvalidCharacteristicFlag(f.clone()));
        }
        i = i + 1;
    }
    Ok(CapabilitySet { has_read, has_write, has_notify })
}

} // verus!
