//! The value that starts the application at login.
use vstd::prelude::*;

use crate::timetext::chars_of;

verus! {

/// The `Run` key value for an executable path: quoted when the path holds a space, so that
/// Windows does not cut the command line there.
pub open spec fn run_key_value_spec(exe_path: Seq<char>) -> Seq<char> {
    if exe_path.contains(' ') {
        seq!['"'] + exe_path + seq!['"']
    } else {
        exe_path
    }
}

pub fn run_key_value(exe_path: &str) -> (r: String)
    ensures
        r@ == run_key_value_spec(exe_path@),
{
    let v = chars_of(exe_path);
    let mut has_space = false;
    for i in 0..v.len()
        invariant
            v@ == exe_path@,
            has_space == (exists|k: int| 0 <= k < i && v@[k] == ' '),
    {
        if v[i] == ' ' {
            has_space = true;
        }
    }
    proof {
        if has_space {
            let k = choose|k: int| 0 <= k < v@.len() && v@[k] == ' ';
            assert(exe_path@[k] == ' ');
        } else {
            assert(!exe_path@.contains(' '));
        }
    }
    if has_space {
        proof {
            reveal_strlit("\"");
        }
        let mut r = String::new();
        r.append("\"");
        r.append(exe_path);
        r.append("\"");
        assert(r@ =~= run_key_value_spec(exe_path@));
        r
    } else {
        exe_path.to_owned()
    }
}

} // verus!
