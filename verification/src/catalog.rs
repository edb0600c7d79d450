//! The application as it ships: the TypeScript namespace and the base macOS
//! namespace.

use vstd::prelude::*;
use crate::app::{namespace_keys, App, AppView};
use crate::cli::app_well_formed;
use crate::home::home_dir;
use crate::mac_base;
use crate::ts;

verus! {

/// The application for a user whose home directory is `home`.
pub open spec fn app_view(home: Seq<char>) -> AppView {
    AppView { namespaces: seq![ts::namespace_view(), mac_base::namespace_view(home)] }
}

/// A command line can be built for the application: no key is `help`, and
/// no two namespaces, nor two tasks of one namespace, share a key.
pub proof fn lemma_app_well_formed(home: Seq<char>)
    ensures
        app_well_formed(app_view(home)),
{
    reveal_strlit("help");
    reveal_strlit("ts");
    reveal_strlit("mac");
    let keys = namespace_keys(app_view(home).namespaces);
    assert(keys =~= seq!["ts"@, "mac"@]);
    assert(keys[0].len() != keys[1].len());
    assert forall|i: int| 0 <= i < keys.len() implies keys[i] != "help"@ by {
        assert(keys[i].len() != 4);
    }
    ts::lemma_namespace_well_formed();
    mac_base::lemma_namespace_well_formed(home);
}

/// The application for a user whose home directory is `home`.
pub fn app_in(home: &str) -> (r: App)
    ensures
        r@ == app_view(home@),
        app_well_formed(r@),
{
    let r = App { namespaces: vec![ts::namespace(), mac_base::namespace_in(home)] };
    assert(r@.namespaces =~= app_view(home@).namespaces);
    proof {
        lemma_app_well_formed(home@);
    }
    r
}

/// The application for the user who runs the program, or `None` where the
/// system names no home directory.
pub fn app() -> (r: Option<App>)
    ensures
        match r {
            Some(a) => app_well_formed(a@) && exists|home: Seq<char>| a@ == #[trigger] app_view(
                home,
            ),
            None => true,
        },
{
    match home_dir() {
        Some(home) => Some(app_in(home.as_str())),
        None => None,
    }
}

} // verus!
