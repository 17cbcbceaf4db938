//! The read-only snapshot of the process environment that a build consumes.

use vstd::prelude::*;
use crate::strutil::str_eq;

verus! {

/// Everything a build reads from its surroundings, captured as plain values
/// before the build starts.  The orchestrator itself never touches the real
/// process environment: it is handed one of these and works from it alone.
pub struct EnvSnapshot {
    /// Scalar environment variables as (name, value) pairs; on lookup the
    /// first pair with a matching name wins.
    pub vars: Vec<(String, String)>,
    /// The entries of the ambient dependency search-path variable
    /// (`CMAKE_PREFIX_PATH`), already split into single paths according to
    /// the platform's path-list syntax, in their existing order.
    pub ambient_prefix: Vec<String>,
    /// The current working directory, used to make the project path absolute.
    pub current_dir: String,
}

/// The mathematical image of an [`EnvSnapshot`].
pub ghost struct EnvModel {
    pub vars: Seq<(Seq<char>, Seq<char>)>,
    pub ambient_prefix: Seq<Seq<char>>,
    pub current_dir: Seq<char>,
}

impl View for EnvSnapshot {
    type V = EnvModel;

    open spec fn view(&self) -> EnvModel {
        EnvModel {
            vars: self.vars.deep_view(),
            ambient_prefix: self.ambient_prefix.deep_view(),
            current_dir: self.current_dir@,
        }
    }
}

/// The value of the first pair in `vars` whose name is `key`, if any.
pub open spec fn lookup_spec(vars: Seq<(Seq<char>, Seq<char>)>, key: Seq<char>) -> Option<
    Seq<char>,
>
    decreases vars.len(),
{
    if vars.len() == 0 {
        None
    } else if vars[0].0 == key {
        Some(vars[0].1)
    } else {
        lookup_spec(vars.drop_first(), key)
    }
}

/// First-match lookup of `key` among the (name, value) pairs of `vars`.
pub fn lookup(vars: &Vec<(String, String)>, key: &str) -> (r: Option<String>)
    ensures
        r.deep_view() == lookup_spec(vars.deep_view(), key@),
{
    let ghost all = vars.deep_view();
    proof {
        assert(all.skip(0) =~= all);
    }
    let n = vars.len();
    let mut i: usize = 0;
    while i < n
        invariant
            all == vars.deep_view(),
            n == vars.len(),
            i <= n,
            lookup_spec(all, key@) == lookup_spec(all.skip(i as int), key@),
        decreases n - i,
    {
        proof {
            assert(all.skip(i as int)[0] == all[i as int]);
        }
        if str_eq(vars[i].0.as_str(), key) {
            let v = vars[i].1.clone();
            return Some(v);
        }
        proof {
            assert(all.skip(i as int).drop_first() =~= all.skip(i + 1));
        }
        i += 1;
    }
    proof {
        assert(all.skip(n as int) =~= Seq::<(Seq<char>, Seq<char>)>::empty());
    }
    None
}

} // verus!
