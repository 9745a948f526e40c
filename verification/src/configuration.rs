//! The settings the core consumes as plain values, and the deployment
//! environment a configuration file is chosen for. Reading the files and
//! the process environment is the configuration collaborator's work.
use vstd::prelude::*;
use vstd::string::{StrSliceExecFns, StringExecFns};

verus! {

/// Where the application listens, and the base URL its confirmation links
/// carry.
#[derive(Debug)]
pub struct ApplicationSettings {
    pub port: u16,
    pub host: String,
    pub base_url: String,
}

/// The deployment environment a configuration file is read for.
#[derive(Clone, Copy, Debug, PartialEq, Eq, Structural)]
pub enum Environment {
    Local,
    Production,
    Staging,
}

/// The name `as_str` answers for each environment.
pub open spec fn spec_environment_name(e: Environment) -> Seq<char> {
    match e {
        Environment::Local => "local"@,
        Environment::Production => "production"@,
        Environment::Staging => "stagint"@,
    }
}

/// Two characters are equal up to ASCII case.
pub open spec fn eq_char_ascii_ci(a: char, b: char) -> bool {
    ||| a == b
    ||| (0x41 <= a as u32 && a as u32 <= 0x5A && a as u32 + 0x20 == b as u32)
    ||| (0x41 <= b as u32 && b as u32 <= 0x5A && b as u32 + 0x20 == a as u32)
}

/// Two strings are equal up to ASCII case.
pub open spec fn eq_ascii_ci(s: Seq<char>, t: Seq<char>) -> bool {
    s.len() == t.len() && forall|i: int| 0 <= i < s.len() ==> eq_char_ascii_ci(#[trigger] s[i], t[i])
}

impl Environment {
    /// The file-name stem of this environment's configuration file.
    pub fn as_str(&self) -> (r: &'static str)
        ensures
            r@ == spec_environment_name(*self),
    {
        match self {
            Environment::Local => "local",
            Environment::Production => "production",
            Environment::Staging => "stagint",
        }
    }

    /// Read an environment name, ignoring ASCII case: `local` and
    /// `production` are the supported ones; anything else is answered with
    /// a message naming it.
    pub fn parse(s: &str) -> (r: Result<Environment, String>)
        ensures
            r is Ok <==> eq_ascii_ci(s@, "local"@) || eq_ascii_ci(s@, "production"@),
            eq_ascii_ci(s@, "local"@) ==> r === Ok(Environment::Local),
            eq_ascii_ci(s@, "production"@) ==> r === Ok(Environment::Production),
            r is Err ==> r.unwrap_err()@ == "`"@ + s@
                + "` is not a supported environment. Use either `local`, `production` or `staging`."@,
    {
        proof {
            reveal_strlit("local");
            reveal_strlit("production");
        }
        if eq_ignore_ascii_case(s, "local") {
            Ok(Environment::Local)
        } else if eq_ignore_ascii_case(s, "production") {
            Ok(Environment::Production)
        } else {
            let msg = String::from_str("`").concat(s).concat(
                "` is not a supported environment. Use either `local`, `production` or `staging`.",
            );
            proof {
                assert(("`"@ + s@)
                    + "` is not a supported environment. Use either `local`, `production` or `staging`."@
                    =~= "`"@ + s@
                    + "` is not a supported environment. Use either `local`, `production` or `staging`."@);
            }
            Err(msg)
        }
    }
}

/// Exec mirror of `eq_char_ascii_ci`.
fn eq_char_ascii_ci_exec(a: char, b: char) -> (r: bool)
    ensures
        r == eq_char_ascii_ci(a, b),
{
    a == b || (0x41 <= a as u32 && a as u32 <= 0x5A && a as u32 + 0x20 == b as u32) || (0x41
        <= b as u32 && b as u32 <= 0x5A && b as u32 + 0x20 == a as u32)
}

/// Whether two strings are equal up to ASCII case.
fn eq_ignore_ascii_case(a: &str, b: &str) -> (r: bool)
    ensures
        r == eq_ascii_ci(a@, b@),
{
    let na = a.unicode_len();
    let nb = b.unicode_len();
    if na != nb {
        return false;
    }
    let mut i: usize = 0;
    while i < na
        invariant
            i <= na,
            na == a@.len(),
            na == b@.len(),
            forall|j: int| 0 <= j < i ==> eq_char_ascii_ci(#[trigger] a@[j], b@[j]),
        decreases na - i,
    {
        if !eq_char_ascii_ci_exec(a.get_char(i), b.get_char(i)) {
            return false;
        }
        i = i + 1;
    }
    true
}

} // verus!
