//! Profile selection: a loaded configuration resolves, by name, to the
//! model identifier and optional system prompt the conversation starts
//! from. The requested name defaults to "default"; absence of the
//! requested profile is a fatal startup error for the caller.

use vstd::prelude::*;
use vstd::string::StringExecFns;

verus! {

/// The value a named profile resolves to at startup: a model identifier
/// and an optional system prompt.
#[derive(Debug)]
pub struct Profile {
    pub model: String,
    pub system: Option<String>,
}

impl Clone for Profile {
    fn clone(&self) -> (res: Self)
        ensures
            res == *self,
    {
        Profile {
            model: self.model.clone(),
            system: match &self.system {
                Some(s) => Some(s.clone()),
                None => None,
            },
        }
    }
}

/// The profile name a selection looks up: the requested one, or
/// "default" when none was requested.
pub open spec fn spec_target(requested: Option<String>) -> Seq<char> {
    match requested {
        Some(s) => s@,
        None => "default"@,
    }
}

/// The first entry of `entries` whose name is `tgt`, or `None` when no
/// entry bears that name.
pub open spec fn find_profile(entries: Seq<(String, Profile)>, tgt: Seq<char>) -> Option<Profile>
    decreases entries.len(),
{
    if entries.len() == 0 {
        None
    } else if entries.first().0@ == tgt {
        Some(entries.first().1)
    } else {
        find_profile(entries.drop_first(), tgt)
    }
}

/// Resolves a profile by name among the configuration's entries: the
/// first entry named like the request (or named "default" when nothing
/// was requested), or `None` exactly when no entry bears that name.
#[verifier::loop_isolation(false)]
pub fn select_profile(entries: &Vec<(String, Profile)>, requested: Option<String>) -> (r: Option<Profile>)
    ensures
        r == find_profile(entries@, spec_target(requested)),
{
    let ghost tgt = spec_target(requested);
    let target: String = match requested {
        Some(s) => s,
        None => String::from_str("default"),
    };
    let n = entries.len();
    let mut k: usize = 0;
    proof {
        assert(entries@.skip(0) =~= entries@);
    }
    while k < n
        invariant
            n == entries@.len(),
            k <= n,
            target@ == tgt,
            find_profile(entries@, tgt) == find_profile(entries@.skip(k as int), tgt),
        decreases n - k,
    {
        if entries[k].0 == target {
            let p = entries[k].1.clone();
            proof {
                assert(entries@.skip(k as int).first() == entries@[k as int]);
            }
            return Some(p);
        }
        proof {
            assert(entries@.skip(k as int).first() == entries@[k as int]);
            assert(entries@.skip(k as int).drop_first() =~= entries@.skip(k as int + 1));
        }
        k = k + 1;
    }
    proof {
        assert(entries@.skip(n as int) =~= Seq::empty());
    }
    None
}

} // verus!
