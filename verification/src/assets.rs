//! Embedded assets: which paths a listing gives, and how two asset
//! sources are combined.

use vstd::prelude::*;
use vstd::string::StringExecFns;
use crate::text::{chars_of, push_str};

verus! {

/// `prefix` begins `s`.
pub open spec fn starts_with(s: Seq<char>, prefix: Seq<char>) -> bool {
    prefix.len() <= s.len() && s.subrange(0, prefix.len() as int) == prefix
}

fn str_starts_with(s: &str, prefix: &str) -> (b: bool)
    ensures
        b == starts_with(s@, prefix@),
{
    let cs = chars_of(s);
    let cp = chars_of(prefix);
    if cp.len() > cs.len() {
        return false;
    }
    let mut i: usize = 0;
    while i < cp.len()
        invariant
            cs@ == s@,
            cp@ == prefix@,
            cp@.len() <= cs@.len(),
            i <= cp@.len(),
            forall|j: int| 0 <= j < i ==> cs@[j] == cp@[j],
        decreases cp.len() - i,
    {
        if cs[i] != cp[i] {
            assert(s@.subrange(0, prefix@.len() as int)[i as int] != prefix@[i as int]);
            return false;
        }
        i = i + 1;
    }
    assert(s@.subrange(0, prefix@.len() as int) =~= prefix@);
    true
}

/// The asset paths that begin with `prefix`, in their order.
pub fn asset_paths_with_prefix(paths: &Vec<String>, prefix: &str) -> (r: Vec<String>)
    ensures
        r@.map_values(|p: String| p@) == paths@.map_values(|p: String| p@).filter(
            |p: Seq<char>| starts_with(p, prefix@),
        ),
{
    let ghost pred = |p: Seq<char>| starts_with(p, prefix@);
    let ghost views = paths@.map_values(|p: String| p@);
    let mut r: Vec<String> = Vec::new();
    let mut i: usize = 0;
    while i < paths.len()
        invariant
            i <= paths@.len(),
            views == paths@.map_values(|p: String| p@),
            pred == (|p: Seq<char>| starts_with(p, prefix@)),
            r@.map_values(|p: String| p@) == views.take(i as int).filter(pred),
        decreases paths.len() - i,
    {
        proof {
            reveal_with_fuel(Seq::<_>::filter, 1);
            assert(views.take(i + 1).drop_last() =~= views.take(i as int));
        }
        if str_starts_with(paths[i].as_str(), prefix) {
            let ghost before = r@;
            r.push(paths[i].clone());
            assert(r@.map_values(|p: String| p@) =~= before.map_values(|p: String| p@).push(views[i as int]));
        }
        i = i + 1;
    }
    assert(views.take(i as int) =~= views);
    r
}

/// Whether an asset path is looked up at all: the empty path names no asset.
pub fn asset_is_looked_up(path: &str) -> (b: bool)
    ensures
        b == (path@.len() > 0),
{
    !path.is_empty()
}

/// The message for an asset that is not there.
pub fn missing_asset_message(path: &str) -> (m: String)
    ensures
        m@ == "could not find asset at path \""@ + path@ + "\""@,
{
    let mut m = String::from_str("could not find asset at path \"");
    push_str(&mut m, path);
    push_str(&mut m, "\"");
    m
}

/// Loading from two sources: what the first found; only when it found
/// nothing, or failed, is the second source asked (`load_second` is called),
/// and its answer is the result.
pub fn combined_load<T, E, F>(first: Result<Option<T>, E>, load_second: F) -> (r: Result<
    Option<T>,
    E,
>) where F: FnOnce() -> Result<Option<T>, E>
    requires
        call_requires(load_second, ()),
    ensures
        match first {
            Ok(Some(a)) => r == Ok::<Option<T>, E>(Some(a)),
            _ => call_ensures(load_second, (), r),
        },
{
    match first {
        Ok(Some(a)) => Ok(Some(a)),
        _ => load_second(),
    }
}

/// Listing from two sources: the first listing (none where it failed),
/// then the second where it succeeded.
pub fn combined_list<T, E>(first: Result<Vec<T>, E>, second: Result<Vec<T>, E>) -> (r: Vec<T>)
    ensures
        r@ == match first {
            Ok(a) => a@,
            Err(_) => Seq::<T>::empty(),
        } + match second {
            Ok(b) => b@,
            Err(_) => Seq::<T>::empty(),
        },
{
    let mut list = match first {
        Ok(a) => a,
        Err(_) => Vec::new(),
    };
    match second {
        Ok(b) => {
            let mut b = b;
            list.append(&mut b);
        },
        Err(_) => {},
    }
    list
}

} // verus!
