//! The runtime environment a service is deployed in.
//!
//! The current environment is read from the process environment by the
//! unverified runtime and parsed here; names are matched without regard to
//! ASCII case.
use crate::json::push_char;
use vstd::prelude::*;

verus! {

/// The possible runtime environments for the services.
#[derive(Clone, Copy, Debug, PartialEq, Eq, Structural)]
pub enum Environment {
    Development,
    Testing,
    Staging,
    Production,
}

/// The canonical lowercase name of each environment.
pub open spec fn spec_env_name(e: Environment) -> Seq<char> {
    match e {
        Environment::Development => "development"@,
        Environment::Testing => "testing"@,
        Environment::Staging => "staging"@,
        Environment::Production => "production"@,
    }
}

/// The ASCII-lowercase form of one character; anything but an ASCII capital
/// is itself.
pub open spec fn spec_lower_char(c: char) -> char {
    if c == 'A' {
        'a'
    } else if c == 'B' {
        'b'
    } else if c == 'C' {
        'c'
    } else if c == 'D' {
        'd'
    } else if c == 'E' {
        'e'
    } else if c == 'F' {
        'f'
    } else if c == 'G' {
        'g'
    } else if c == 'H' {
        'h'
    } else if c == 'I' {
        'i'
    } else if c == 'J' {
        'j'
    } else if c == 'K' {
        'k'
    } else if c == 'L' {
        'l'
    } else if c == 'M' {
        'm'
    } else if c == 'N' {
        'n'
    } else if c == 'O' {
        'o'
    } else if c == 'P' {
        'p'
    } else if c == 'Q' {
        'q'
    } else if c == 'R' {
        'r'
    } else if c == 'S' {
        's'
    } else if c == 'T' {
        't'
    } else if c == 'U' {
        'u'
    } else if c == 'V' {
        'v'
    } else if c == 'W' {
        'w'
    } else if c == 'X' {
        'x'
    } else if c == 'Y' {
        'y'
    } else if c == 'Z' {
        'z'
    } else {
        c
    }
}

fn lower_char(c: char) -> (r: char)
    ensures
        r == spec_lower_char(c),
{
    if c == 'A' {
        'a'
    } else if c == 'B' {
        'b'
    } else if c == 'C' {
        'c'
    } else if c == 'D' {
        'd'
    } else if c == 'E' {
        'e'
    } else if c == 'F' {
        'f'
    } else if c == 'G' {
        'g'
    } else if c == 'H' {
        'h'
    } else if c == 'I' {
        'i'
    } else if c == 'J' {
        'j'
    } else if c == 'K' {
        'k'
    } else if c == 'L' {
        'l'
    } else if c == 'M' {
        'm'
    } else if c == 'N' {
        'n'
    } else if c == 'O' {
        'o'
    } else if c == 'P' {
        'p'
    } else if c == 'Q' {
        'q'
    } else if c == 'R' {
        'r'
    } else if c == 'S' {
        's'
    } else if c == 'T' {
        't'
    } else if c == 'U' {
        'u'
    } else if c == 'V' {
        'v'
    } else if c == 'W' {
        'w'
    } else if c == 'X' {
        'x'
    } else if c == 'Y' {
        'y'
    } else if c == 'Z' {
        'z'
    } else {
        c
    }
}

/// Every character ASCII-lowercased.
pub open spec fn spec_to_ascii_lower(s: Seq<char>) -> Seq<char> {
    s.map_values(|c: char| spec_lower_char(c))
}

/// Folds ASCII capitals to lowercase, leaving every other character as it
/// is.
pub fn to_ascii_lowercase(s: &str) -> (r: String)
    ensures
        r@ == spec_to_ascii_lower(s@),
{
    let n = s.unicode_len();
    let mut out = String::new();
    let mut i: usize = 0;
    while i < n
        invariant
            i <= n,
            n == s@.len(),
            out@ == spec_to_ascii_lower(s@.take(i as int)),
        decreases n - i,
    {
        let c = s.get_char(i);
        push_char(&mut out, lower_char(c));
        proof {
            assert(out@ =~= spec_to_ascii_lower(s@.take(i + 1 as int)));
        }
        i += 1;
    }
    proof {
        assert(s@.take(n as int) =~= s@);
    }
    out
}

impl Environment {
    /// The environment's canonical lowercase name.
    pub fn as_str(&self) -> (r: &'static str)
        ensures
            r@ == spec_env_name(*self),
    {
        match self {
            Environment::Development => "development",
            Environment::Testing => "testing",
            Environment::Staging => "staging",
            Environment::Production => "production",
        }
    }

    /// Parses an environment name without regard to ASCII case; an
    /// unsupported name is refused, named in the error in its folded form.
    pub fn from_name(s: &str) -> (r: Result<Environment, String>)
        ensures
            r matches Ok(e) ==> spec_to_ascii_lower(s@) == spec_env_name(e),
            r is Err <==> (spec_to_ascii_lower(s@) != spec_env_name(Environment::Development)
                && spec_to_ascii_lower(s@) != spec_env_name(Environment::Testing)
                && spec_to_ascii_lower(s@) != spec_env_name(Environment::Staging)
                && spec_to_ascii_lower(s@) != spec_env_name(Environment::Production)),
            r matches Err(msg) ==> msg@ == spec_to_ascii_lower(s@)
                + " is not a supported environment."@,
    {
        let folded = to_ascii_lowercase(s);
        if folded == String::from_str("development") {
            Ok(Environment::Development)
        } else if folded == String::from_str("testing") {
            Ok(Environment::Testing)
        } else if folded == String::from_str("staging") {
            Ok(Environment::Staging)
        } else if folded == String::from_str("production") {
            Ok(Environment::Production)
        } else {
            Err(folded.concat(" is not a supported environment."))
        }
    }
}

} // verus!
