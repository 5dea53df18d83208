//! Where the daemon keeps its files.

use vstd::prelude::*;

verus! {

/// A path: a base, or the empty path, and what is joined to it in turn.
pub struct PathPlan<P> {
    pub base: Option<P>,
    pub names: Vec<String>,
}

/// The model of a [`PathPlan`].
#[verifier::ext_equal]
pub struct PathPlanView<P> {
    pub base: Option<P>,
    pub names: Seq<Seq<char>>,
}

impl<P> View for PathPlan<P> {
    type V = PathPlanView<P>;

    open spec fn view(&self) -> PathPlanView<P> {
        PathPlanView {
            base: self.base,
            names: self.names@.map_values(|name: String| name@),
        }
    }
}

/// The directory of the state: in `XDG_STATE_HOME` where that is set, else under `HOME`.
pub open spec fn state_dir_view<P>(state_home: Option<P>, home: Option<P>) -> PathPlanView<P> {
    match state_home {
        Some(_) => PathPlanView { base: state_home, names: seq!["spotify-connect"@] },
        None => PathPlanView { base: home, names: seq![".local/state"@, "spotify-connect"@] },
    }
}

/// The directory of the state, from the values of `XDG_STATE_HOME` and `HOME`.
pub fn state_dir<P>(state_home: Option<P>, home: Option<P>) -> (plan: PathPlan<P>)
    ensures
        plan@ == state_dir_view(state_home, home),
{
    let ghost wanted = state_dir_view(state_home, home);
    let mut names: Vec<String> = Vec::new();
    let base = match state_home {
        Some(base) => Some(base),
        None => {
            names.push(".local/state".to_owned());
            home
        },
    };
    names.push("spotify-connect".to_owned());
    let plan = PathPlan { base, names };
    assert(plan@.names =~= wanted.names);
    plan
}

/// The file that holds the device id.
pub fn device_id_path<P>(state_home: Option<P>, home: Option<P>) -> (plan: PathPlan<P>)
    ensures
        plan@.base == state_dir_view(state_home, home).base,
        plan@.names == state_dir_view(state_home, home).names.push("device_id"@),
{
    let ghost wanted = state_dir_view(state_home, home).names.push("device_id"@);
    let mut plan = state_dir(state_home, home);
    plan.names.push("device_id".to_owned());
    assert(plan@.names =~= wanted);
    plan
}

/// The socket: in `XDG_RUNTIME_DIR` where that is set, else in the directory for temporary files.
pub fn socket_path<P>(runtime_dir: Option<P>, temp_dir: P) -> (plan: PathPlan<P>)
    ensures
        plan@.base == Some(
            match runtime_dir {
                Some(dir) => dir,
                None => temp_dir,
            },
        ),
        plan@.names == seq!["spotify-connect.sock"@],
{
    let base = match runtime_dir {
        Some(dir) => dir,
        None => temp_dir,
    };
    let mut names: Vec<String> = Vec::new();
    names.push("spotify-connect.sock".to_owned());
    let plan = PathPlan { base: Some(base), names };
    assert(plan@.names =~= seq!["spotify-connect.sock"@]);
    plan
}

} // verus!
