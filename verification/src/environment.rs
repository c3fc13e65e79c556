//! The two deployment environments of the remote service, the fixed base
//! URLs that every request is resolved against, and the case-insensitive
//! parsing of an environment name from configuration text.

use vstd::prelude::*;

verus! {

/// Could not parse an environment, contains the original string.
#[derive(Debug, Clone, PartialEq, Eq)]
pub struct ParseEnvironmentError(pub String);

/// API environments to differentiate between testing environments and live.
#[derive(PartialEq, Eq, Structural, Copy, Clone, Debug)]
pub enum Environment {
    Production,
    Sandbox,
}

/// Whether the character is Unicode whitespace, as trimmed from an
/// environment name: the White_Space characters.
pub open spec fn is_space_char(c: char) -> bool {
    match c {
        '\t' | '\n' | '\u{000B}' | '\u{000C}' | '\r' | ' ' | '\u{0085}' | '\u{00A0}'
        | '\u{1680}' | '\u{2000}' | '\u{2001}' | '\u{2002}' | '\u{2003}' | '\u{2004}'
        | '\u{2005}' | '\u{2006}' | '\u{2007}' | '\u{2008}' | '\u{2009}' | '\u{200A}'
        | '\u{2028}' | '\u{2029}' | '\u{202F}' | '\u{205F}' | '\u{3000}' => true,
        _ => false,
    }
}

/// The ASCII-lowercase counterpart of a character; characters outside
/// `'A'..='Z'` are unchanged.
pub open spec fn lower_char(c: char) -> char {
    match c {
        'A' => 'a',
        'B' => 'b',
        'C' => 'c',
        'D' => 'd',
        'E' => 'e',
        'F' => 'f',
        'G' => 'g',
        'H' => 'h',
        'I' => 'i',
        'J' => 'j',
        'K' => 'k',
        'L' => 'l',
        'M' => 'm',
        'N' => 'n',
        'O' => 'o',
        'P' => 'p',
        'Q' => 'q',
        'R' => 'r',
        'S' => 's',
        'T' => 't',
        'U' => 'u',
        'V' => 'v',
        'W' => 'w',
        'X' => 'x',
        'Y' => 'y',
        'Z' => 'z',
        _ => c,
    }
}

/// The sequence with every character ASCII-lowercased.
pub open spec fn lower_seq(s: Seq<char>) -> Seq<char> {
    s.map_values(|c: char| lower_char(c))
}

/// The sequence with leading whitespace removed.
pub open spec fn trim_front(s: Seq<char>) -> Seq<char>
    decreases s.len(),
{
    if s.len() > 0 && is_space_char(s[0]) {
        trim_front(s.drop_first())
    } else {
        s
    }
}

/// The sequence with trailing whitespace removed.
pub open spec fn trim_back(s: Seq<char>) -> Seq<char>
    decreases s.len(),
{
    if s.len() > 0 && is_space_char(s[s.len() - 1]) {
        trim_back(s.drop_last())
    } else {
        s
    }
}

/// An environment name as compared against the recognized forms:
/// whitespace-trimmed and ASCII-lowercased.
pub open spec fn canonical(s: Seq<char>) -> Seq<char> {
    lower_seq(trim_back(trim_front(s)))
}

/// The canonical forms that name the live environment.
pub open spec fn names_production(t: Seq<char>) -> bool {
    t == "prod"@ || t == "production"@
}

/// The canonical forms that name the testing environment.
pub open spec fn names_sandbox(t: Seq<char>) -> bool {
    t == "dev"@ || t == "development"@ || t == "sandbox"@
}

fn is_space(c: char) -> (b: bool)
    ensures
        b == is_space_char(c),
{
    match c {
        '\t' | '\n' | '\u{000B}' | '\u{000C}' | '\r' | ' ' | '\u{0085}' | '\u{00A0}'
        | '\u{1680}' | '\u{2000}' | '\u{2001}' | '\u{2002}' | '\u{2003}' | '\u{2004}'
        | '\u{2005}' | '\u{2006}' | '\u{2007}' | '\u{2008}' | '\u{2009}' | '\u{200A}'
        | '\u{2028}' | '\u{2029}' | '\u{202F}' | '\u{205F}' | '\u{3000}' => true,
        _ => false,
    }
}

fn lower(c: char) -> (r: char)
    ensures
        r == lower_char(c),
{
    match c {
        'A' => 'a',
        'B' => 'b',
        'C' => 'c',
        'D' => 'd',
        'E' => 'e',
        'F' => 'f',
        'G' => 'g',
        'H' => 'h',
        'I' => 'i',
        'J' => 'j',
        'K' => 'k',
        'L' => 'l',
        'M' => 'm',
        'N' => 'n',
        'O' => 'o',
        'P' => 'p',
        'Q' => 'q',
        'R' => 'r',
        'S' => 's',
        'T' => 't',
        'U' => 'u',
        'V' => 'v',
        'W' => 'w',
        'X' => 'x',
        'Y' => 'y',
        'Z' => 'z',
        _ => c,
    }
}

proof fn lemma_trim_front_at(s: Seq<char>, i: int)
    requires
        0 <= i <= s.len(),
        forall|j: int| 0 <= j < i ==> is_space_char(s[j]),
        i < s.len() ==> !is_space_char(s[i]),
    ensures
        trim_front(s) == s.subrange(i, s.len() as int),
    decreases i,
{
    if i == 0 {
        assert(s.subrange(0, s.len() as int) =~= s);
    } else {
        let t = s.drop_first();
        assert(is_space_char(s[0]));
        lemma_trim_front_at(t, i - 1);
        assert(t.subrange(i - 1, t.len() as int) =~= s.subrange(i, s.len() as int));
    }
}

proof fn lemma_trim_back_at(s: Seq<char>, e: int)
    requires
        0 <= e <= s.len(),
        forall|j: int| e <= j < s.len() ==> is_space_char(s[j]),
        e > 0 ==> !is_space_char(s[e - 1]),
    ensures
        trim_back(s) == s.subrange(0, e),
    decreases s.len() - e,
{
    if e == s.len() {
        if s.len() > 0 && is_space_char(s[s.len() - 1]) {
            assert(!is_space_char(s[e - 1]));
            assert(false);
        }
        assert(s.subrange(0, e) =~= s);
    } else {
        let t = s.drop_last();
        assert(is_space_char(s[s.len() - 1]));
        lemma_trim_back_at(t, e);
        assert(t.subrange(0, e) =~= s.subrange(0, e));
    }
}

/// Compares the region `s[start..end]`, ASCII-lowercased, against a
/// keyword.
fn region_eq_lower(s: &str, start: usize, end: usize, kw: &str) -> (b: bool)
    requires
        start <= end <= s@.len(),
    ensures
        b == (lower_seq(s@.subrange(start as int, end as int)) == kw@),
{
    let region = Ghost(s@.subrange(start as int, end as int));
    let klen = kw.unicode_len();
    if end - start != klen {
        proof {
            assert(lower_seq(region@).len() == region@.len());
        }
        return false;
    }
    let mut i: usize = 0;
    while i < klen
        invariant
            0 <= i <= klen,
            klen == end - start,
            start <= end <= s@.len(),
            klen == kw@.len(),
            region@ == s@.subrange(start as int, end as int),
            forall|j: int| 0 <= j < i ==> lower_char(region@[j]) == kw@[j],
        decreases klen - i,
    {
        let c = lower(s.get_char(start + i));
        let k = kw.get_char(i);
        if c != k {
            proof {
                assert(lower_seq(region@)[i as int] != kw@[i as int]);
            }
            return false;
        }
        i = i + 1;
    }
    proof {
        assert(lower_seq(region@) =~= kw@);
    }
    true
}

impl Environment {
    /// Parses an environment name: `prod` and `production` name the live
    /// environment, `dev`, `development` and `sandbox` the testing one,
    /// ignoring case and surrounding whitespace. Any other input fails,
    /// and the error carries the original string.
    pub fn from_str(s: &str) -> (r: Result<Environment, ParseEnvironmentError>)
        ensures
            names_production(canonical(s@)) ==> r == Ok::<
                Environment,
                ParseEnvironmentError,
            >(Environment::Production),
            names_sandbox(canonical(s@)) ==> r == Ok::<
                Environment,
                ParseEnvironmentError,
            >(Environment::Sandbox),
            !names_production(canonical(s@)) && !names_sandbox(canonical(s@)) ==> (r matches Err(e)
                && e.0@ == s@),
    {
        let n = s.unicode_len();
        let mut start: usize = 0;
        while start < n && is_space(s.get_char(start))
            invariant
                0 <= start <= n,
                n == s@.len(),
                forall|j: int| 0 <= j < start ==> is_space_char(s@[j]),
            decreases n - start,
        {
            start = start + 1;
        }
        let mut end: usize = n;
        while end > start && is_space(s.get_char(end - 1))
            invariant
                start <= end <= n,
                n == s@.len(),
                start < n ==> !is_space_char(s@[start as int]),
                forall|j: int| end <= j < n ==> is_space_char(s@[j]),
            decreases end,
        {
            end = end - 1;
        }
        proof {
            reveal_strlit("prod");
            reveal_strlit("production");
            reveal_strlit("dev");
            reveal_strlit("development");
            reveal_strlit("sandbox");
            lemma_trim_front_at(s@, start as int);
            let t = s@.subrange(start as int, n as int);
            lemma_trim_back_at(t, end - start as int);
            assert(t.subrange(0, end - start as int) =~= s@.subrange(
                start as int,
                end as int,
            ));
            assert(trim_front(s@) == t);
            assert(trim_back(t) == s@.subrange(start as int, end as int));
            assert(canonical(s@) == lower_seq(s@.subrange(start as int, end as int)));
        }
        if region_eq_lower(s, start, end, "prod") || region_eq_lower(s, start, end, "production") {
            Ok(Environment::Production)
        } else if region_eq_lower(s, start, end, "dev") || region_eq_lower(s, start, end, "development")
            || region_eq_lower(s, start, end, "sandbox") {
            Ok(Environment::Sandbox)
        } else {
            Err(ParseEnvironmentError(s.to_owned()))
        }
    }

    /// Returns the appropriate url for the api depending on the environment
    pub fn api_url(&self) -> (r: &'static str)
        ensures
            r@ == self.api_url_spec(),
    {
        match self {
            Environment::Sandbox => "https://api.sandbox.checkout.com",
            Environment::Production => "https://api.checkout.com",
        }
    }

    /// Returns the appropriate url for authentication depending on the
    /// environment
    pub fn access_url(&self) -> (r: &'static str)
        ensures
            r@ == self.access_url_spec(),
    {
        match self {
            Environment::Sandbox => "https://access.sandbox.checkout.com",
            Environment::Production => "https://access.checkout.com",
        }
    }

    /// The name under which the environment prints: `production` or
    /// `sandbox`.
    pub open spec fn name_spec(self) -> Seq<char> {
        match self {
            Environment::Production => "production"@,
            Environment::Sandbox => "sandbox"@,
        }
    }

    /// Returns the environment's printable name.
    pub fn as_str(&self) -> (r: &'static str)
        ensures
            r@ == self.name_spec(),
    {
        match self {
            Environment::Production => "production",
            Environment::Sandbox => "sandbox",
        }
    }

    /// The base URL that every API call of this environment starts with.
    pub open spec fn api_url_spec(self) -> Seq<char> {
        match self {
            Environment::Sandbox => "https://api.sandbox.checkout.com"@,
            Environment::Production => "https://api.checkout.com"@,
        }
    }

    /// The base URL that the token endpoint of this environment starts with.
    pub open spec fn access_url_spec(self) -> Seq<char> {
        match self {
            Environment::Sandbox => "https://access.sandbox.checkout.com"@,
            Environment::Production => "https://access.checkout.com"@,
        }
    }
}

} // verus!
