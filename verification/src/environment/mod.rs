//! The environment variables of a user, and the interpolation of paths that
//! refer to them.
use crate::strmap::StrMap;
use crate::text::{char_len, find_char, first_index_of, slice};
use vstd::prelude::*;
use vstd::string::*;

pub mod user;

verus! {

/// The environment variables of one user, by name.
pub type UserEnvVars = StrMap<String>;

/// The environment variables of each user, by the SID of the user.
pub type UsersEnvVars = StrMap<UserEnvVars>;

/// A path in which a placeholder at its start is replaced by the value of
/// the variable it names, and a placeholder at the start of that value
/// likewise, through `depth` variables at most. There is no result where a
/// placeholder is not closed, names no variable, or the depth is used up.
pub open spec fn interpolated(p: Seq<char>, vars: Map<Seq<char>, String>, depth: nat) -> Option<
    Seq<char>,
>
    decreases depth,
{
    if p.len() > 0 && p[0] == '%' {
        let tail = p.skip(1);
        let pos = first_index_of(tail, '%');
        let name = tail.take(pos);
        if pos >= tail.len() || depth == 0 || !vars.contains_key(name) {
            None
        } else {
            match interpolated(vars[name]@, vars, (depth - 1) as nat) {
                Some(v) => Some(v + tail.skip(pos + 1)),
                None => None,
            }
        }
    } else {
        Some(p)
    }
}

/// The path with the placeholder at its start replaced, followed through as
/// many variables as the table holds: variables that refer to each other in
/// a circle give no result.
pub open spec fn interpolation(p: Seq<char>, vars: Map<Seq<char>, String>, count: nat) -> Option<
    Seq<char>,
> {
    interpolated(p, vars, count)
}

/// The path with the placeholder at its start replaced, through `depth`
/// variables at most.
pub(crate) fn interpolate_bounded(pth: &str, env_vars: &UserEnvVars, depth: usize) -> (r: Option<String>)
    requires
        env_vars.wf(),
    ensures
        match r {
            Some(s) => interpolated(pth@, env_vars.map(), depth as nat) == Some(s@),
            None => interpolated(pth@, env_vars.map(), depth as nat) is None,
        },
    decreases depth,
{
    let n = char_len(pth);
    if n == 0 || pth.get_char(0) != '%' {
        return Some(String::from_str(pth));
    }
    let tail = slice(pth, 1, n);
    let m = n - 1;
    let pos = find_char(tail, '%');
    if pos >= m || depth == 0 {
        return None;
    }
    let env_var = slice(tail, 0, pos);
    let rest = slice(tail, pos + 1, m);
    let to_replace_with = env_vars.get(env_var)?;
    let mut ret = interpolate_bounded(to_replace_with.as_str(), env_vars, depth - 1)?;
    ret.append(rest);
    Some(ret)
}

/// Replaces the placeholder at the start of `pth` by the value of the
/// variable it names, and appends the result to `ret`. Where there is no
/// result, `ret` is left as it was.
pub fn interpolate_env_vars(pth: &str, env_vars: &UserEnvVars, ret: &mut String) -> (r: Option<()>)
    requires
        env_vars.wf(),
    ensures
        match r {
            Some(_) => interpolation(pth@, env_vars.map(), env_vars.names().len()) matches Some(v)
                && final(ret)@ == old(ret)@ + v,
            None => interpolation(pth@, env_vars.map(), env_vars.names().len()) is None
                && final(ret)@ == old(ret)@,
        },
{
    let found = interpolate_bounded(pth, env_vars, env_vars.len())?;
    ret.append(found.as_str());
    Some(())
}

} // verus!
